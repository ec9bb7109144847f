//! The JSON form of the storage layout: [`Storage`], [`Root`], [`Layout`] and
//! [`Struct`].

use crate::codec::expect_object;
use crate::codec::insert_member;
use crate::codec::JsonCodec;
use crate::codec::required;
use crate::codec::required_member;
use crate::error::DecodeError;
use crate::error::DecodeErrorView;
use crate::error::Expected;
use crate::error::mismatch;
use crate::error::PathStep;
use crate::json::JsonModel;
use crate::json::object_new;
use crate::json::value_object;
use crate::manifest::Layout;
use crate::manifest::LayoutView;
use crate::manifest::lemma_member_names;
use crate::manifest::Root;
use crate::manifest::RootView;
use crate::manifest::Storage;
use crate::manifest::StorageView;
use crate::manifest::Struct;
use crate::manifest::StructView;
use crate::members::leads_through;
use crate::members::leads_to;
use crate::members::lemma_missing_here;
use crate::members::lemma_missing_inside;
use crate::members::RequiredMembers;
use vstd::prelude::*;

verus! {

impl JsonCodec for Struct {
    open spec fn expected() -> Expected {
        Expected::Object
    }

    /// An object stands for a value where each member does; the first member
    /// that does not, in the order of the fields, gives the error.
    open spec fn from_json(j: JsonModel) -> Result<StructView, DecodeErrorView> {
        let name = required::<String>(j, "name"@);
        if !(j is Object) {
            Err(mismatch(Expected::Object, j.kind()))
        } else if name is Err {
            Err(name->Err_0)
        } else {
            Ok(
                StructView {
                    name: name->Ok_0,
                },
            )
        }
    }

    open spec fn to_json(x: StructView) -> JsonModel {
        JsonModel::Object(
            Map::empty()
                .insert("name"@, String::to_json(x.name)),
        )
    }

    fn expects() -> (e: Expected) {
        Expected::Object
    }

    fn from_value(v: &serde_json::Value) -> (r: Result<Struct, DecodeError>) {
        expect_object(v)?;
        let name = required_member::<String>(v, "name")?;
        Ok(Struct { name })
    }

    fn to_value(&self) -> (v: serde_json::Value) {
        let mut members = object_new();
        insert_member(&mut members, "name", &self.name);
        value_object(members)
    }

    proof fn law_round_trip(x: StructView) {
        lemma_member_names();
        String::law_round_trip(x.name);
    }
}

impl RequiredMembers for Struct {
    /// A path leads to a required member of this object, or through one of
    /// its members to a required member further in.
    open spec fn requires_member(j: JsonModel, path: Seq<PathStep>) -> bool {
        &&& j is Object
        &&& leads_to(path, "name"@)
    }

    proof fn law_missing_member(j: JsonModel, path: Seq<PathStep>) {
        lemma_member_names();
        if leads_to(path, "name"@) {
            lemma_missing_here::<String>(j, path, "name"@);
        }
    }
}

impl JsonCodec for Layout {
    open spec fn expected() -> Expected {
        Expected::Object
    }

    /// An object stands for a value where each member does; the first member
    /// that does not, in the order of the fields, gives the error.
    open spec fn from_json(j: JsonModel) -> Result<LayoutView, DecodeErrorView> {
        let structure = required::<Struct>(j, "struct"@);
        if !(j is Object) {
            Err(mismatch(Expected::Object, j.kind()))
        } else if structure is Err {
            Err(structure->Err_0)
        } else {
            Ok(
                LayoutView {
                    structure: structure->Ok_0,
                },
            )
        }
    }

    open spec fn to_json(x: LayoutView) -> JsonModel {
        JsonModel::Object(
            Map::empty()
                .insert("struct"@, Struct::to_json(x.structure)),
        )
    }

    fn expects() -> (e: Expected) {
        Expected::Object
    }

    fn from_value(v: &serde_json::Value) -> (r: Result<Layout, DecodeError>) {
        expect_object(v)?;
        let structure = required_member::<Struct>(v, "struct")?;
        Ok(Layout { structure })
    }

    fn to_value(&self) -> (v: serde_json::Value) {
        let mut members = object_new();
        insert_member(&mut members, "struct", &self.structure);
        value_object(members)
    }

    proof fn law_round_trip(x: LayoutView) {
        lemma_member_names();
        Struct::law_round_trip(x.structure);
    }
}

impl RequiredMembers for Layout {
    /// A path leads to a required member of this object, or through one of
    /// its members to a required member further in.
    open spec fn requires_member(j: JsonModel, path: Seq<PathStep>) -> bool {
        &&& j is Object
        &&& {
            ||| leads_to(path, "struct"@)
            ||| leads_through::<Struct>(j, path, "struct"@)
        }
    }

    proof fn law_missing_member(j: JsonModel, path: Seq<PathStep>) {
        lemma_member_names();
        if leads_to(path, "struct"@) {
            lemma_missing_here::<Struct>(j, path, "struct"@);
        } else if leads_through::<Struct>(j, path, "struct"@) {
            lemma_missing_inside::<Struct>(j, path, "struct"@);
        }
    }
}

impl JsonCodec for Root {
    open spec fn expected() -> Expected {
        Expected::Object
    }

    /// An object stands for a value where each member does; the first member
    /// that does not, in the order of the fields, gives the error.
    open spec fn from_json(j: JsonModel) -> Result<RootView, DecodeErrorView> {
        let layout = required::<Layout>(j, "layout"@);
        let root_key = required::<String>(j, "root_key"@);
        if !(j is Object) {
            Err(mismatch(Expected::Object, j.kind()))
        } else if layout is Err {
            Err(layout->Err_0)
        } else if root_key is Err {
            Err(root_key->Err_0)
        } else {
            Ok(
                RootView {
                    layout: layout->Ok_0,
                    root_key: root_key->Ok_0,
                },
            )
        }
    }

    open spec fn to_json(x: RootView) -> JsonModel {
        JsonModel::Object(
            Map::empty()
                .insert("layout"@, Layout::to_json(x.layout))
                .insert("root_key"@, String::to_json(x.root_key)),
        )
    }

    fn expects() -> (e: Expected) {
        Expected::Object
    }

    fn from_value(v: &serde_json::Value) -> (r: Result<Root, DecodeError>) {
        expect_object(v)?;
        let layout = required_member::<Layout>(v, "layout")?;
        let root_key = required_member::<String>(v, "root_key")?;
        Ok(Root { layout, root_key })
    }

    fn to_value(&self) -> (v: serde_json::Value) {
        let mut members = object_new();
        insert_member(&mut members, "layout", &self.layout);
        insert_member(&mut members, "root_key", &self.root_key);
        value_object(members)
    }

    proof fn law_round_trip(x: RootView) {
        lemma_member_names();
        Layout::law_round_trip(x.layout);
        String::law_round_trip(x.root_key);
    }
}

impl RequiredMembers for Root {
    /// A path leads to a required member of this object, or through one of
    /// its members to a required member further in.
    open spec fn requires_member(j: JsonModel, path: Seq<PathStep>) -> bool {
        &&& j is Object
        &&& {
            ||| leads_to(path, "layout"@)
            ||| leads_to(path, "root_key"@)
            ||| leads_through::<Layout>(j, path, "layout"@)
        }
    }

    proof fn law_missing_member(j: JsonModel, path: Seq<PathStep>) {
        lemma_member_names();
        if leads_to(path, "layout"@) {
            lemma_missing_here::<Layout>(j, path, "layout"@);
        } else if leads_to(path, "root_key"@) {
            lemma_missing_here::<String>(j, path, "root_key"@);
        } else if leads_through::<Layout>(j, path, "layout"@) {
            lemma_missing_inside::<Layout>(j, path, "layout"@);
        }
    }
}

impl JsonCodec for Storage {
    open spec fn expected() -> Expected {
        Expected::Object
    }

    /// An object stands for a value where each member does; the first member
    /// that does not, in the order of the fields, gives the error.
    open spec fn from_json(j: JsonModel) -> Result<StorageView, DecodeErrorView> {
        let root = required::<Root>(j, "root"@);
        if !(j is Object) {
            Err(mismatch(Expected::Object, j.kind()))
        } else if root is Err {
            Err(root->Err_0)
        } else {
            Ok(
                StorageView {
                    root: root->Ok_0,
                },
            )
        }
    }

    open spec fn to_json(x: StorageView) -> JsonModel {
        JsonModel::Object(
            Map::empty()
                .insert("root"@, Root::to_json(x.root)),
        )
    }

    fn expects() -> (e: Expected) {
        Expected::Object
    }

    fn from_value(v: &serde_json::Value) -> (r: Result<Storage, DecodeError>) {
        expect_object(v)?;
        let root = required_member::<Root>(v, "root")?;
        Ok(Storage { root })
    }

    fn to_value(&self) -> (v: serde_json::Value) {
        let mut members = object_new();
        insert_member(&mut members, "root", &self.root);
        value_object(members)
    }

    proof fn law_round_trip(x: StorageView) {
        lemma_member_names();
        Root::law_round_trip(x.root);
    }
}

impl RequiredMembers for Storage {
    /// A path leads to a required member of this object, or through one of
    /// its members to a required member further in.
    open spec fn requires_member(j: JsonModel, path: Seq<PathStep>) -> bool {
        &&& j is Object
        &&& {
            ||| leads_to(path, "root"@)
            ||| leads_through::<Root>(j, path, "root"@)
        }
    }

    proof fn law_missing_member(j: JsonModel, path: Seq<PathStep>) {
        lemma_member_names();
        if leads_to(path, "root"@) {
            lemma_missing_here::<Root>(j, path, "root"@);
        } else if leads_through::<Root>(j, path, "root"@) {
            lemma_missing_inside::<Root>(j, path, "root"@);
        }
    }
}

} // verus!
