//! The JSON form of the contract's identity: [`Contract`].

use crate::codec::expect_object;
use crate::codec::insert_member;
use crate::codec::JsonCodec;
use crate::codec::required;
use crate::codec::required_member;
use crate::error::DecodeError;
use crate::error::DecodeErrorView;
use crate::error::Expected;
use crate::error::mismatch;
use crate::error::PathStep;
use crate::json::JsonModel;
use crate::json::object_new;
use crate::json::value_object;
use crate::manifest::Contract;
use crate::manifest::ContractView;
use crate::manifest::lemma_member_names;
use crate::members::leads_through;
use crate::members::leads_to;
use crate::members::lemma_missing_here;
use crate::members::lemma_missing_inside;
use crate::members::RequiredMembers;
use vstd::prelude::*;

verus! {

impl JsonCodec for Contract {
    open spec fn expected() -> Expected {
        Expected::Object
    }

    /// An object stands for a value where each member does; the first member
    /// that does not, in the order of the fields, gives the error.
    open spec fn from_json(j: JsonModel) -> Result<ContractView, DecodeErrorView> {
        let name = required::<String>(j, "name"@);
        let version = required::<String>(j, "version"@);
        let authors = required::<Vec<String>>(j, "authors"@);
        if !(j is Object) {
            Err(mismatch(Expected::Object, j.kind()))
        } else if name is Err {
            Err(name->Err_0)
        } else if version is Err {
            Err(version->Err_0)
        } else if authors is Err {
            Err(authors->Err_0)
        } else {
            Ok(
                ContractView {
                    name: name->Ok_0,
                    version: version->Ok_0,
                    authors: authors->Ok_0,
                },
            )
        }
    }

    open spec fn to_json(x: ContractView) -> JsonModel {
        JsonModel::Object(
            Map::empty()
                .insert("name"@, String::to_json(x.name))
                .insert("version"@, String::to_json(x.version))
                .insert("authors"@, Vec::<String>::to_json(x.authors)),
        )
    }

    fn expects() -> (e: Expected) {
        Expected::Object
    }

    fn from_value(v: &serde_json::Value) -> (r: Result<Contract, DecodeError>) {
        expect_object(v)?;
        let name = required_member::<String>(v, "name")?;
        let version = required_member::<String>(v, "version")?;
        let authors = required_member::<Vec<String>>(v, "authors")?;
        Ok(Contract { name, version, authors })
    }

    fn to_value(&self) -> (v: serde_json::Value) {
        let mut members = object_new();
        insert_member(&mut members, "name", &self.name);
        insert_member(&mut members, "version", &self.version);
        insert_member(&mut members, "authors", &self.authors);
        value_object(members)
    }

    proof fn law_round_trip(x: ContractView) {
        lemma_member_names();
        String::law_round_trip(x.name);
        String::law_round_trip(x.version);
        Vec::<String>::law_round_trip(x.authors);
    }
}

impl RequiredMembers for Contract {
    /// A path leads to a required member of this object, or through one of
    /// its members to a required member further in.
    open spec fn requires_member(j: JsonModel, path: Seq<PathStep>) -> bool {
        &&& j is Object
        &&& {
            ||| leads_to(path, "name"@)
            ||| leads_to(path, "version"@)
            ||| leads_to(path, "authors"@)
        }
    }

    proof fn law_missing_member(j: JsonModel, path: Seq<PathStep>) {
        lemma_member_names();
        if leads_to(path, "name"@) {
            lemma_missing_here::<String>(j, path, "name"@);
        } else if leads_to(path, "version"@) {
            lemma_missing_here::<String>(j, path, "version"@);
        } else if leads_to(path, "authors"@) {
            lemma_missing_here::<Vec<String>>(j, path, "authors"@);
        }
    }
}

} // verus!
