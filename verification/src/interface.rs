//! The JSON form of the contract's interface: [`Spec`] and what it is made
//! of.

use crate::codec::expect_object;
use crate::codec::insert_member;
use crate::codec::insert_optional_member;
use crate::codec::JsonCodec;
use crate::codec::optional;
use crate::codec::optional_member;
use crate::codec::optional_to_json;
use crate::codec::required;
use crate::codec::required_member;
use crate::error::DecodeError;
use crate::error::DecodeErrorView;
use crate::error::Expected;
use crate::error::mismatch;
use crate::error::PathStep;
use crate::json::JsonModel;
use crate::json::object_new;
use crate::json::value_object;
use crate::manifest::Arg;
use crate::manifest::ArgView;
use crate::manifest::Constructor;
use crate::manifest::ConstructorView;
use crate::manifest::LangError;
use crate::manifest::LangErrorView;
use crate::manifest::lemma_member_names;
use crate::manifest::Message;
use crate::manifest::MessageView;
use crate::manifest::ReturnType;
use crate::manifest::ReturnTypeView;
use crate::manifest::Spec;
use crate::manifest::SpecView;
use crate::members::leads_through;
use crate::members::leads_to;
use crate::members::lemma_missing_here;
use crate::members::lemma_missing_inside;
use crate::members::RequiredMembers;
use vstd::prelude::*;

verus! {

impl JsonCodec for ReturnType {
    open spec fn expected() -> Expected {
        Expected::Object
    }

    /// An object stands for a value where each member does; the first member
    /// that does not, in the order of the fields, gives the error.
    open spec fn from_json(j: JsonModel) -> Result<ReturnTypeView, DecodeErrorView> {
        let display_name = optional::<Vec<String>>(j, "display_name"@);
        let type_id = required::<u8>(j, "type"@);
        if !(j is Object) {
            Err(mismatch(Expected::Object, j.kind()))
        } else if display_name is Err {
            Err(display_name->Err_0)
        } else if type_id is Err {
            Err(type_id->Err_0)
        } else {
            Ok(
                ReturnTypeView {
                    display_name: display_name->Ok_0,
                    type_id: type_id->Ok_0,
                },
            )
        }
    }

    open spec fn to_json(x: ReturnTypeView) -> JsonModel {
        JsonModel::Object(
            Map::empty()
                .insert("display_name"@, optional_to_json::<Vec<String>>(x.display_name))
                .insert("type"@, u8::to_json(x.type_id)),
        )
    }

    fn expects() -> (e: Expected) {
        Expected::Object
    }

    fn from_value(v: &serde_json::Value) -> (r: Result<ReturnType, DecodeError>) {
        expect_object(v)?;
        let display_name = optional_member::<Vec<String>>(v, "display_name")?;
        let type_id = required_member::<u8>(v, "type")?;
        Ok(ReturnType { display_name, type_id })
    }

    fn to_value(&self) -> (v: serde_json::Value) {
        let mut members = object_new();
        insert_optional_member(&mut members, "display_name", &self.display_name);
        insert_member(&mut members, "type", &self.type_id);
        value_object(members)
    }

    proof fn law_round_trip(x: ReturnTypeView) {
        lemma_member_names();
        if x.display_name is Some {
            Vec::<String>::law_round_trip(x.display_name->0);
        }
        u8::law_round_trip(x.type_id);
    }
}

impl RequiredMembers for ReturnType {
    /// A path leads to a required member of this object, or through one of
    /// its members to a required member further in.
    open spec fn requires_member(j: JsonModel, path: Seq<PathStep>) -> bool {
        &&& j is Object
        &&& leads_to(path, "type"@)
    }

    proof fn law_missing_member(j: JsonModel, path: Seq<PathStep>) {
        lemma_member_names();
        if leads_to(path, "type"@) {
            lemma_missing_here::<u8>(j, path, "type"@);
        }
    }
}

impl JsonCodec for LangError {
    open spec fn expected() -> Expected {
        Expected::Object
    }

    /// An object stands for a value where each member does; the first member
    /// that does not, in the order of the fields, gives the error.
    open spec fn from_json(j: JsonModel) -> Result<LangErrorView, DecodeErrorView> {
        let display_name = optional::<Vec<String>>(j, "display_name"@);
        let type_id = required::<u8>(j, "type"@);
        if !(j is Object) {
            Err(mismatch(Expected::Object, j.kind()))
        } else if display_name is Err {
            Err(display_name->Err_0)
        } else if type_id is Err {
            Err(type_id->Err_0)
        } else {
            Ok(
                LangErrorView {
                    display_name: display_name->Ok_0,
                    type_id: type_id->Ok_0,
                },
            )
        }
    }

    open spec fn to_json(x: LangErrorView) -> JsonModel {
        JsonModel::Object(
            Map::empty()
                .insert("display_name"@, optional_to_json::<Vec<String>>(x.display_name))
                .insert("type"@, u8::to_json(x.type_id)),
        )
    }

    fn expects() -> (e: Expected) {
        Expected::Object
    }

    fn from_value(v: &serde_json::Value) -> (r: Result<LangError, DecodeError>) {
        expect_object(v)?;
        let display_name = optional_member::<Vec<String>>(v, "display_name")?;
        let type_id = required_member::<u8>(v, "type")?;
        Ok(LangError { display_name, type_id })
    }

    fn to_value(&self) -> (v: serde_json::Value) {
        let mut members = object_new();
        insert_optional_member(&mut members, "display_name", &self.display_name);
        insert_member(&mut members, "type", &self.type_id);
        value_object(members)
    }

    proof fn law_round_trip(x: LangErrorView) {
        lemma_member_names();
        if x.display_name is Some {
            Vec::<String>::law_round_trip(x.display_name->0);
        }
        u8::law_round_trip(x.type_id);
    }
}

impl RequiredMembers for LangError {
    /// A path leads to a required member of this object, or through one of
    /// its members to a required member further in.
    open spec fn requires_member(j: JsonModel, path: Seq<PathStep>) -> bool {
        &&& j is Object
        &&& leads_to(path, "type"@)
    }

    proof fn law_missing_member(j: JsonModel, path: Seq<PathStep>) {
        lemma_member_names();
        if leads_to(path, "type"@) {
            lemma_missing_here::<u8>(j, path, "type"@);
        }
    }
}

impl JsonCodec for Arg {
    open spec fn expected() -> Expected {
        Expected::Object
    }

    /// An object stands for a value where each member does; the first member
    /// that does not, in the order of the fields, gives the error.
    open spec fn from_json(j: JsonModel) -> Result<ArgView, DecodeErrorView> {
        let label = required::<String>(j, "label"@);
        let type_ref = required::<ReturnType>(j, "type"@);
        if !(j is Object) {
            Err(mismatch(Expected::Object, j.kind()))
        } else if label is Err {
            Err(label->Err_0)
        } else if type_ref is Err {
            Err(type_ref->Err_0)
        } else {
            Ok(
                ArgView {
                    label: label->Ok_0,
                    type_ref: type_ref->Ok_0,
                },
            )
        }
    }

    open spec fn to_json(x: ArgView) -> JsonModel {
        JsonModel::Object(
            Map::empty()
                .insert("label"@, String::to_json(x.label))
                .insert("type"@, ReturnType::to_json(x.type_ref)),
        )
    }

    fn expects() -> (e: Expected) {
        Expected::Object
    }

    fn from_value(v: &serde_json::Value) -> (r: Result<Arg, DecodeError>) {
        expect_object(v)?;
        let label = required_member::<String>(v, "label")?;
        let type_ref = required_member::<ReturnType>(v, "type")?;
        Ok(Arg { label, type_ref })
    }

    fn to_value(&self) -> (v: serde_json::Value) {
        let mut members = object_new();
        insert_member(&mut members, "label", &self.label);
        insert_member(&mut members, "type", &self.type_ref);
        value_object(members)
    }

    proof fn law_round_trip(x: ArgView) {
        lemma_member_names();
        String::law_round_trip(x.label);
        ReturnType::law_round_trip(x.type_ref);
    }
}

impl RequiredMembers for Arg {
    /// A path leads to a required member of this object, or through one of
    /// its members to a required member further in.
    open spec fn requires_member(j: JsonModel, path: Seq<PathStep>) -> bool {
        &&& j is Object
        &&& {
            ||| leads_to(path, "label"@)
            ||| leads_to(path, "type"@)
            ||| leads_through::<ReturnType>(j, path, "type"@)
        }
    }

    proof fn law_missing_member(j: JsonModel, path: Seq<PathStep>) {
        lemma_member_names();
        if leads_to(path, "label"@) {
            lemma_missing_here::<String>(j, path, "label"@);
        } else if leads_to(path, "type"@) {
            lemma_missing_here::<ReturnType>(j, path, "type"@);
        } else if leads_through::<ReturnType>(j, path, "type"@) {
            lemma_missing_inside::<ReturnType>(j, path, "type"@);
        }
    }
}

impl JsonCodec for Constructor {
    open spec fn expected() -> Expected {
        Expected::Object
    }

    /// An object stands for a value where each member does; the first member
    /// that does not, in the order of the fields, gives the error.
    open spec fn from_json(j: JsonModel) -> Result<ConstructorView, DecodeErrorView> {
        let args = required::<Vec<String>>(j, "args"@);
        let docs = required::<Vec<String>>(j, "docs"@);
        let label = required::<String>(j, "label"@);
        let payable = required::<bool>(j, "payable"@);
        let return_type = optional::<ReturnType>(j, "return_type"@);
        let selector = required::<String>(j, "selector"@);
        if !(j is Object) {
            Err(mismatch(Expected::Object, j.kind()))
        } else if args is Err {
            Err(args->Err_0)
        } else if docs is Err {
            Err(docs->Err_0)
        } else if label is Err {
            Err(label->Err_0)
        } else if payable is Err {
            Err(payable->Err_0)
        } else if return_type is Err {
            Err(return_type->Err_0)
        } else if selector is Err {
            Err(selector->Err_0)
        } else {
            Ok(
                ConstructorView {
                    args: args->Ok_0,
                    docs: docs->Ok_0,
                    label: label->Ok_0,
                    payable: payable->Ok_0,
                    return_type: return_type->Ok_0,
                    selector: selector->Ok_0,
                },
            )
        }
    }

    open spec fn to_json(x: ConstructorView) -> JsonModel {
        JsonModel::Object(
            Map::empty()
                .insert("args"@, Vec::<String>::to_json(x.args))
                .insert("docs"@, Vec::<String>::to_json(x.docs))
                .insert("label"@, String::to_json(x.label))
                .insert("payable"@, bool::to_json(x.payable))
                .insert("return_type"@, optional_to_json::<ReturnType>(x.return_type))
                .insert("selector"@, String::to_json(x.selector)),
        )
    }

    fn expects() -> (e: Expected) {
        Expected::Object
    }

    fn from_value(v: &serde_json::Value) -> (r: Result<Constructor, DecodeError>) {
        expect_object(v)?;
        let args = required_member::<Vec<String>>(v, "args")?;
        let docs = required_member::<Vec<String>>(v, "docs")?;
        let label = required_member::<String>(v, "label")?;
        let payable = required_member::<bool>(v, "payable")?;
        let return_type = optional_member::<ReturnType>(v, "return_type")?;
        let selector = required_member::<String>(v, "selector")?;
        Ok(Constructor { args, docs, label, payable, return_type, selector })
    }

    fn to_value(&self) -> (v: serde_json::Value) {
        let mut members = object_new();
        insert_member(&mut members, "args", &self.args);
        insert_member(&mut members, "docs", &self.docs);
        insert_member(&mut members, "label", &self.label);
        insert_member(&mut members, "payable", &self.payable);
        insert_optional_member(&mut members, "return_type", &self.return_type);
        insert_member(&mut members, "selector", &self.selector);
        value_object(members)
    }

    proof fn law_round_trip(x: ConstructorView) {
        lemma_member_names();
        Vec::<String>::law_round_trip(x.args);
        Vec::<String>::law_round_trip(x.docs);
        String::law_round_trip(x.label);
        bool::law_round_trip(x.payable);
        if x.return_type is Some {
            ReturnType::law_round_trip(x.return_type->0);
        }
        String::law_round_trip(x.selector);
    }
}

impl RequiredMembers for Constructor {
    /// A path leads to a required member of this object, or through one of
    /// its members to a required member further in.
    open spec fn requires_member(j: JsonModel, path: Seq<PathStep>) -> bool {
        &&& j is Object
        &&& {
            ||| leads_to(path, "args"@)
            ||| leads_to(path, "docs"@)
            ||| leads_to(path, "label"@)
            ||| leads_to(path, "payable"@)
            ||| leads_to(path, "selector"@)
            ||| leads_through::<ReturnType>(j, path, "return_type"@)
        }
    }

    proof fn law_missing_member(j: JsonModel, path: Seq<PathStep>) {
        lemma_member_names();
        if leads_to(path, "args"@) {
            lemma_missing_here::<Vec<String>>(j, path, "args"@);
        } else if leads_to(path, "docs"@) {
            lemma_missing_here::<Vec<String>>(j, path, "docs"@);
        } else if leads_to(path, "label"@) {
            lemma_missing_here::<String>(j, path, "label"@);
        } else if leads_to(path, "payable"@) {
            lemma_missing_here::<bool>(j, path, "payable"@);
        } else if leads_to(path, "selector"@) {
            lemma_missing_here::<String>(j, path, "selector"@);
        } else if leads_through::<ReturnType>(j, path, "return_type"@) {
            lemma_missing_inside::<ReturnType>(j, path, "return_type"@);
        }
    }
}

impl JsonCodec for Message {
    open spec fn expected() -> Expected {
        Expected::Object
    }

    /// An object stands for a value where each member does; the first member
    /// that does not, in the order of the fields, gives the error.
    open spec fn from_json(j: JsonModel) -> Result<MessageView, DecodeErrorView> {
        let args = required::<Vec<Arg>>(j, "args"@);
        let docs = required::<Vec<String>>(j, "docs"@);
        let label = required::<String>(j, "label"@);
        let mutates = required::<bool>(j, "mutates"@);
        let payable = required::<bool>(j, "payable"@);
        let return_type = optional::<ReturnType>(j, "return_type"@);
        let selector = required::<String>(j, "selector"@);
        if !(j is Object) {
            Err(mismatch(Expected::Object, j.kind()))
        } else if args is Err {
            Err(args->Err_0)
        } else if docs is Err {
            Err(docs->Err_0)
        } else if label is Err {
            Err(label->Err_0)
        } else if mutates is Err {
            Err(mutates->Err_0)
        } else if payable is Err {
            Err(payable->Err_0)
        } else if return_type is Err {
            Err(return_type->Err_0)
        } else if selector is Err {
            Err(selector->Err_0)
        } else {
            Ok(
                MessageView {
                    args: args->Ok_0,
                    docs: docs->Ok_0,
                    label: label->Ok_0,
                    mutates: mutates->Ok_0,
                    payable: payable->Ok_0,
                    return_type: return_type->Ok_0,
                    selector: selector->Ok_0,
                },
            )
        }
    }

    open spec fn to_json(x: MessageView) -> JsonModel {
        JsonModel::Object(
            Map::empty()
                .insert("args"@, Vec::<Arg>::to_json(x.args))
                .insert("docs"@, Vec::<String>::to_json(x.docs))
                .insert("label"@, String::to_json(x.label))
                .insert("mutates"@, bool::to_json(x.mutates))
                .insert("payable"@, bool::to_json(x.payable))
                .insert("return_type"@, optional_to_json::<ReturnType>(x.return_type))
                .insert("selector"@, String::to_json(x.selector)),
        )
    }

    fn expects() -> (e: Expected) {
        Expected::Object
    }

    fn from_value(v: &serde_json::Value) -> (r: Result<Message, DecodeError>) {
        expect_object(v)?;
        let args = required_member::<Vec<Arg>>(v, "args")?;
        let docs = required_member::<Vec<String>>(v, "docs")?;
        let label = required_member::<String>(v, "label")?;
        let mutates = required_member::<bool>(v, "mutates")?;
        let payable = required_member::<bool>(v, "payable")?;
        let return_type = optional_member::<ReturnType>(v, "return_type")?;
        let selector = required_member::<String>(v, "selector")?;
        Ok(Message { args, docs, label, mutates, payable, return_type, selector })
    }

    fn to_value(&self) -> (v: serde_json::Value) {
        let mut members = object_new();
        insert_member(&mut members, "args", &self.args);
        insert_member(&mut members, "docs", &self.docs);
        insert_member(&mut members, "label", &self.label);
        insert_member(&mut members, "mutates", &self.mutates);
        insert_member(&mut members, "payable", &self.payable);
        insert_optional_member(&mut members, "return_type", &self.return_type);
        insert_member(&mut members, "selector", &self.selector);
        value_object(members)
    }

    proof fn law_round_trip(x: MessageView) {
        lemma_member_names();
        Vec::<Arg>::law_round_trip(x.args);
        Vec::<String>::law_round_trip(x.docs);
        String::law_round_trip(x.label);
        bool::law_round_trip(x.mutates);
        bool::law_round_trip(x.payable);
        if x.return_type is Some {
            ReturnType::law_round_trip(x.return_type->0);
        }
        String::law_round_trip(x.selector);
    }
}

impl RequiredMembers for Message {
    /// A path leads to a required member of this object, or through one of
    /// its members to a required member further in.
    open spec fn requires_member(j: JsonModel, path: Seq<PathStep>) -> bool {
        &&& j is Object
        &&& {
            ||| leads_to(path, "args"@)
            ||| leads_to(path, "docs"@)
            ||| leads_to(path, "label"@)
            ||| leads_to(path, "mutates"@)
            ||| leads_to(path, "payable"@)
            ||| leads_to(path, "selector"@)
            ||| leads_through::<Vec<Arg>>(j, path, "args"@)
            ||| leads_through::<ReturnType>(j, path, "return_type"@)
        }
    }

    proof fn law_missing_member(j: JsonModel, path: Seq<PathStep>) {
        lemma_member_names();
        if leads_to(path, "args"@) {
            lemma_missing_here::<Vec<Arg>>(j, path, "args"@);
        } else if leads_to(path, "docs"@) {
            lemma_missing_here::<Vec<String>>(j, path, "docs"@);
        } else if leads_to(path, "label"@) {
            lemma_missing_here::<String>(j, path, "label"@);
        } else if leads_to(path, "mutates"@) {
            lemma_missing_here::<bool>(j, path, "mutates"@);
        } else if leads_to(path, "payable"@) {
            lemma_missing_here::<bool>(j, path, "payable"@);
        } else if leads_to(path, "selector"@) {
            lemma_missing_here::<String>(j, path, "selector"@);
        } else if leads_through::<Vec<Arg>>(j, path, "args"@) {
            lemma_missing_inside::<Vec<Arg>>(j, path, "args"@);
        } else if leads_through::<ReturnType>(j, path, "return_type"@) {
            lemma_missing_inside::<ReturnType>(j, path, "return_type"@);
        }
    }
}

impl JsonCodec for Spec {
    open spec fn expected() -> Expected {
        Expected::Object
    }

    /// An object stands for a value where each member does; the first member
    /// that does not, in the order of the fields, gives the error.
    open spec fn from_json(j: JsonModel) -> Result<SpecView, DecodeErrorView> {
        let constructors = required::<Vec<Constructor>>(j, "constructors"@);
        let docs = required::<Vec<String>>(j, "docs"@);
        let events = required::<Vec<String>>(j, "events"@);
        let lang_error = required::<LangError>(j, "lang_error"@);
        let messages = required::<Vec<Message>>(j, "messages"@);
        if !(j is Object) {
            Err(mismatch(Expected::Object, j.kind()))
        } else if constructors is Err {
            Err(constructors->Err_0)
        } else if docs is Err {
            Err(docs->Err_0)
        } else if events is Err {
            Err(events->Err_0)
        } else if lang_error is Err {
            Err(lang_error->Err_0)
        } else if messages is Err {
            Err(messages->Err_0)
        } else {
            Ok(
                SpecView {
                    constructors: constructors->Ok_0,
                    docs: docs->Ok_0,
                    events: events->Ok_0,
                    lang_error: lang_error->Ok_0,
                    messages: messages->Ok_0,
                },
            )
        }
    }

    open spec fn to_json(x: SpecView) -> JsonModel {
        JsonModel::Object(
            Map::empty()
                .insert("constructors"@, Vec::<Constructor>::to_json(x.constructors))
                .insert("docs"@, Vec::<String>::to_json(x.docs))
                .insert("events"@, Vec::<String>::to_json(x.events))
                .insert("lang_error"@, LangError::to_json(x.lang_error))
                .insert("messages"@, Vec::<Message>::to_json(x.messages)),
        )
    }

    fn expects() -> (e: Expected) {
        Expected::Object
    }

    fn from_value(v: &serde_json::Value) -> (r: Result<Spec, DecodeError>) {
        expect_object(v)?;
        let constructors = required_member::<Vec<Constructor>>(v, "constructors")?;
        let docs = required_member::<Vec<String>>(v, "docs")?;
        let events = required_member::<Vec<String>>(v, "events")?;
        let lang_error = required_member::<LangError>(v, "lang_error")?;
        let messages = required_member::<Vec<Message>>(v, "messages")?;
        Ok(Spec { constructors, docs, events, lang_error, messages })
    }

    fn to_value(&self) -> (v: serde_json::Value) {
        let mut members = object_new();
        insert_member(&mut members, "constructors", &self.constructors);
        insert_member(&mut members, "docs", &self.docs);
        insert_member(&mut members, "events", &self.events);
        insert_member(&mut members, "lang_error", &self.lang_error);
        insert_member(&mut members, "messages", &self.messages);
        value_object(members)
    }

    proof fn law_round_trip(x: SpecView) {
        lemma_member_names();
        Vec::<Constructor>::law_round_trip(x.constructors);
        Vec::<String>::law_round_trip(x.docs);
        Vec::<String>::law_round_trip(x.events);
        LangError::law_round_trip(x.lang_error);
        Vec::<Message>::law_round_trip(x.messages);
    }
}

impl RequiredMembers for Spec {
    /// A path leads to a required member of this object, or through one of
    /// its members to a required member further in.
    open spec fn requires_member(j: JsonModel, path: Seq<PathStep>) -> bool {
        &&& j is Object
        &&& {
            ||| leads_to(path, "constructors"@)
            ||| leads_to(path, "docs"@)
            ||| leads_to(path, "events"@)
            ||| leads_to(path, "lang_error"@)
            ||| leads_to(path, "messages"@)
            ||| leads_through::<Vec<Constructor>>(j, path, "constructors"@)
            ||| leads_through::<LangError>(j, path, "lang_error"@)
            ||| leads_through::<Vec<Message>>(j, path, "messages"@)
        }
    }

    proof fn law_missing_member(j: JsonModel, path: Seq<PathStep>) {
        lemma_member_names();
        if leads_to(path, "constructors"@) {
            lemma_missing_here::<Vec<Constructor>>(j, path, "constructors"@);
        } else if leads_to(path, "docs"@) {
            lemma_missing_here::<Vec<String>>(j, path, "docs"@);
        } else if leads_to(path, "events"@) {
            lemma_missing_here::<Vec<String>>(j, path, "events"@);
        } else if leads_to(path, "lang_error"@) {
            lemma_missing_here::<LangError>(j, path, "lang_error"@);
        } else if leads_to(path, "messages"@) {
            lemma_missing_here::<Vec<Message>>(j, path, "messages"@);
        } else if leads_through::<Vec<Constructor>>(j, path, "constructors"@) {
            lemma_missing_inside::<Vec<Constructor>>(j, path, "constructors"@);
        } else if leads_through::<LangError>(j, path, "lang_error"@) {
            lemma_missing_inside::<LangError>(j, path, "lang_error"@);
        } else if leads_through::<Vec<Message>>(j, path, "messages"@) {
            lemma_missing_inside::<Vec<Message>>(j, path, "messages"@);
        }
    }
}

} // verus!
