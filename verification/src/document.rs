//! The whole manifest, between JSON text and [`InkContract`].
//!
//! Text is parsed and printed by `serde_json`; what lies between a parsed
//! document and the typed manifest is this crate's own and is verified. The
//! contracts of [`decode_ink_contract`] and [`encode_ink_contract`] therefore
//! speak of [`json_parse`] and [`json_text`], the names for what `serde_json`
//! makes of a text and of a document.

use crate::codec::expect_object;
use crate::codec::insert_member;
use crate::codec::JsonCodec;
use crate::codec::required;
use crate::codec::required_member;
use crate::error::decoded;
use crate::error::DecodeError;
use crate::error::DecodeErrorView;
use crate::error::Expected;
use crate::error::HexFailure;
use crate::error::mismatch;
use crate::error::PathStep;
use crate::json::error_message;
use crate::json::json_parse;
use crate::json::json_text;
use crate::json::JsonModel;
use crate::json::object_new;
use crate::json::parse_value;
use crate::json::SyntaxFault;
use crate::json::value_object;
use crate::json::value_to_text;
use crate::manifest::Contract;
use crate::manifest::InkContract;
use crate::manifest::InkContractView;
use crate::manifest::lemma_member_names;
use crate::manifest::Source;
use crate::manifest::SourceView;
use crate::manifest::Spec;
use crate::manifest::Storage;
use crate::members::leads_through;
use crate::members::leads_to;
use crate::members::lemma_missing_here;
use crate::members::lemma_missing_inside;
use crate::members::RequiredMembers;
use crate::payload::is_payload_prefix;
use crate::payload::law_empty_payload;
use crate::payload::law_odd_length;
use crate::payload::law_prefix_and_case;
use crate::payload::payload_digits;
use crate::payload::payload_from_text;
use crate::payload::same_digits;
use vstd::prelude::*;
use vstd::utf8::encode_utf8;

verus! {

impl JsonCodec for InkContract {
    open spec fn expected() -> Expected {
        Expected::Object
    }

    /// An object stands for a value where each member does; the first member
    /// that does not, in the order of the fields, gives the error.
    open spec fn from_json(j: JsonModel) -> Result<InkContractView, DecodeErrorView> {
        let source = required::<Source>(j, "source"@);
        let contract = required::<Contract>(j, "contract"@);
        let spec = required::<Spec>(j, "spec"@);
        let storage = required::<Storage>(j, "storage"@);
        let version = required::<String>(j, "version"@);
        if !(j is Object) {
            Err(mismatch(Expected::Object, j.kind()))
        } else if source is Err {
            Err(source->Err_0)
        } else if contract is Err {
            Err(contract->Err_0)
        } else if spec is Err {
            Err(spec->Err_0)
        } else if storage is Err {
            Err(storage->Err_0)
        } else if version is Err {
            Err(version->Err_0)
        } else {
            Ok(
                InkContractView {
                    source: source->Ok_0,
                    contract: contract->Ok_0,
                    spec: spec->Ok_0,
                    storage: storage->Ok_0,
                    version: version->Ok_0,
                },
            )
        }
    }

    open spec fn to_json(x: InkContractView) -> JsonModel {
        JsonModel::Object(
            Map::empty()
                .insert("source"@, Source::to_json(x.source))
                .insert("contract"@, Contract::to_json(x.contract))
                .insert("spec"@, Spec::to_json(x.spec))
                .insert("storage"@, Storage::to_json(x.storage))
                .insert("version"@, String::to_json(x.version)),
        )
    }

    fn expects() -> (e: Expected) {
        Expected::Object
    }

    fn from_value(v: &serde_json::Value) -> (r: Result<InkContract, DecodeError>) {
        expect_object(v)?;
        let source = required_member::<Source>(v, "source")?;
        let contract = required_member::<Contract>(v, "contract")?;
        let spec = required_member::<Spec>(v, "spec")?;
        let storage = required_member::<Storage>(v, "storage")?;
        let version = required_member::<String>(v, "version")?;
        Ok(InkContract { source, contract, spec, storage, version })
    }

    fn to_value(&self) -> (v: serde_json::Value) {
        let mut members = object_new();
        insert_member(&mut members, "source", &self.source);
        insert_member(&mut members, "contract", &self.contract);
        insert_member(&mut members, "spec", &self.spec);
        insert_member(&mut members, "storage", &self.storage);
        insert_member(&mut members, "version", &self.version);
        value_object(members)
    }

    proof fn law_round_trip(x: InkContractView) {
        lemma_member_names();
        Source::law_round_trip(x.source);
        Contract::law_round_trip(x.contract);
        Spec::law_round_trip(x.spec);
        Storage::law_round_trip(x.storage);
        String::law_round_trip(x.version);
    }
}

impl RequiredMembers for InkContract {
    /// A path leads to a required member of this object, or through one of
    /// its members to a required member further in.
    open spec fn requires_member(j: JsonModel, path: Seq<PathStep>) -> bool {
        &&& j is Object
        &&& {
            ||| leads_to(path, "source"@)
            ||| leads_to(path, "contract"@)
            ||| leads_to(path, "spec"@)
            ||| leads_to(path, "storage"@)
            ||| leads_to(path, "version"@)
            ||| leads_through::<Source>(j, path, "source"@)
            ||| leads_through::<Contract>(j, path, "contract"@)
            ||| leads_through::<Spec>(j, path, "spec"@)
            ||| leads_through::<Storage>(j, path, "storage"@)
        }
    }

    proof fn law_missing_member(j: JsonModel, path: Seq<PathStep>) {
        lemma_member_names();
        if leads_to(path, "source"@) {
            lemma_missing_here::<Source>(j, path, "source"@);
        } else if leads_to(path, "contract"@) {
            lemma_missing_here::<Contract>(j, path, "contract"@);
        } else if leads_to(path, "spec"@) {
            lemma_missing_here::<Spec>(j, path, "spec"@);
        } else if leads_to(path, "storage"@) {
            lemma_missing_here::<Storage>(j, path, "storage"@);
        } else if leads_to(path, "version"@) {
            lemma_missing_here::<String>(j, path, "version"@);
        } else if leads_through::<Source>(j, path, "source"@) {
            lemma_missing_inside::<Source>(j, path, "source"@);
        } else if leads_through::<Contract>(j, path, "contract"@) {
            lemma_missing_inside::<Contract>(j, path, "contract"@);
        } else if leads_through::<Spec>(j, path, "spec"@) {
            lemma_missing_inside::<Spec>(j, path, "spec"@);
        } else if leads_through::<Storage>(j, path, "storage"@) {
            lemma_missing_inside::<Storage>(j, path, "storage"@);
        }
    }
}

/// The error for a text that is not JSON.
pub open spec fn malformed(fault: SyntaxFault) -> DecodeErrorView {
    DecodeErrorView::MalformedJson {
        line: fault.line,
        column: fault.column,
        message: fault.message,
    }
}

/// What decoding a text yields: the manifest that the parsed document stands
/// for, the reason why it stands for none, or the parser's fault.
pub open spec fn ink_contract_from_text(text: Seq<char>) -> Result<
    InkContractView,
    DecodeErrorView,
> {
    match json_parse(text) {
        Ok(j) => InkContract::from_json(j),
        Err(fault) => Err(malformed(fault)),
    }
}

/// The text that is written for a manifest.
pub open spec fn ink_contract_to_text(x: InkContractView) -> Seq<char> {
    json_text(InkContract::to_json(x))
}

/// Decodes the JSON text of a manifest.
///
/// The text is parsed, and the document is then read member by member. The
/// result is the whole manifest or one error: that the text is not JSON, that
/// a member is absent or of the wrong kind, or that the compiled module is
/// not valid hexadecimal. Members that the schema does not know are passed
/// over.
pub fn decode_ink_contract(json_str: &str) -> (r: Result<InkContract, DecodeError>)
    ensures
        decoded(r) == ink_contract_from_text(json_str@),
{
    match parse_value(json_str) {
        Ok(v) => InkContract::from_value(&v),
        Err(e) => Err(
            DecodeError::MalformedJson {
                line: e.line(),
                column: e.column(),
                message: error_message(&e),
            },
        ),
    }
}

/// Encodes a manifest as compact JSON text.
///
/// Every member is written, an absent value as `null`, and the compiled
/// module as `0x` followed by lower case hexadecimal digits.
pub fn encode_ink_contract(contract: &InkContract) -> (text: String)
    ensures
        text@ == ink_contract_to_text(contract@),
{
    value_to_text(&contract.to_value())
}

/// Decoding the text that was written for a manifest gives the manifest
/// back, provided that the parser reads the printed text back as the document
/// that was printed. That the document itself reads back as the manifest is
/// [`JsonCodec::law_round_trip`], which needs no such proviso.
pub proof fn law_text_round_trip(x: InkContractView)
    ensures
        json_parse(json_text(InkContract::to_json(x))) == Ok::<JsonModel, SyntaxFault>(
            InkContract::to_json(x),
        ) ==> ink_contract_from_text(ink_contract_to_text(x)) == Ok::<
            InkContractView,
            DecodeErrorView,
        >(x),
{
    InkContract::law_round_trip(x);
}

/// The document `j` with `text` as the string of its compiled module. A
/// document without a `source` object is left as it is.
pub open spec fn with_payload(j: JsonModel, text: Seq<char>) -> JsonModel {
    match (j, j.member("source"@)) {
        (JsonModel::Object(top), Some(JsonModel::Object(source))) => JsonModel::Object(
            top.insert(
                "source"@,
                JsonModel::Object(source.insert("wasm"@, JsonModel::String(text))),
            ),
        ),
        _ => j,
    }
}

/// The manifest `x` with `wasm` as its compiled module.
pub open spec fn with_wasm(x: InkContractView, wasm: Seq<u8>) -> InkContractView {
    InkContractView { source: SourceView { wasm, ..x.source }, ..x }
}

/// In a document that stands for a manifest, the string of the compiled
/// module decides the module and nothing else: with another string in its
/// place the document stands for the same manifest with the module that the
/// string stands for, or fails as the string does.
pub proof fn law_payload_decides(j: JsonModel, text: Seq<char>)
    requires
        InkContract::from_json(j) is Ok,
    ensures
        InkContract::from_json(with_payload(j, text)) == (match payload_from_text(text) {
            Ok(wasm) => Ok(with_wasm(InkContract::from_json(j)->Ok_0, wasm)),
            Err(e) => Err(e),
        }),
{
    lemma_member_names();
    let source = j.member("source"@)->0;
    let changed = with_payload(j, text).member("source"@)->0;
    assert(changed == JsonModel::Object(source->Object_0.insert("wasm"@, JsonModel::String(text))));
    assert(changed.member("hash"@) == source.member("hash"@));
    assert(changed.member("language"@) == source.member("language"@));
    assert(changed.member("compiler"@) == source.member("compiler"@));
    assert(changed.member("build_info"@) == source.member("build_info"@));
    assert(with_payload(j, text).member("contract"@) == j.member("contract"@));
    assert(with_payload(j, text).member("spec"@) == j.member("spec"@));
    assert(with_payload(j, text).member("storage"@) == j.member("storage"@));
    assert(with_payload(j, text).member("version"@) == j.member("version"@));
}

/// In a manifest, the compiled module may begin with `0x`, with `0X` or with
/// neither, and its digits may be upper or lower case: two documents that
/// differ in nothing else stand for the same manifest where the number of
/// digits is even, and both fail for the odd length where it is odd.
pub proof fn law_prefix_and_case_in_manifest(
    j: JsonModel,
    p: Seq<char>,
    a: Seq<char>,
    q: Seq<char>,
    b: Seq<char>,
)
    requires
        InkContract::from_json(j) is Ok,
        is_payload_prefix(p),
        is_payload_prefix(q),
        same_digits(a, b),
    ensures
        a.len() % 2 == 0 ==> InkContract::from_json(with_payload(j, p + a)) is Ok
            && InkContract::from_json(with_payload(j, p + a)) == InkContract::from_json(
            with_payload(j, q + b),
        ),
        a.len() % 2 == 1 ==> InkContract::from_json(with_payload(j, p + a)) == Err::<
            InkContractView,
            DecodeErrorView,
        >(DecodeErrorView::InvalidHexPayload { payload: p + a, reason: HexFailure::OddLength })
            && InkContract::from_json(with_payload(j, q + b)) == Err::<
            InkContractView,
            DecodeErrorView,
        >(DecodeErrorView::InvalidHexPayload { payload: q + b, reason: HexFailure::OddLength }),
{
    law_prefix_and_case(p, a, q, b);
    law_payload_decides(j, p + a);
    law_payload_decides(j, q + b);
}

/// A manifest whose compiled module has an odd number of digits after its
/// prefix is refused for that reason.
pub proof fn law_odd_payload_in_manifest(j: JsonModel, text: Seq<char>)
    requires
        InkContract::from_json(j) is Ok,
        payload_digits(encode_utf8(text)).len() % 2 == 1,
    ensures
        InkContract::from_json(with_payload(j, text)) == Err::<InkContractView, DecodeErrorView>(
            DecodeErrorView::InvalidHexPayload { payload: text, reason: HexFailure::OddLength },
        ),
{
    law_odd_length(text);
    law_payload_decides(j, text);
}

/// A manifest whose compiled module is the empty string or a bare prefix is
/// accepted, and its module has no bytes.
pub proof fn law_empty_payload_in_manifest(j: JsonModel, p: Seq<char>)
    requires
        InkContract::from_json(j) is Ok,
        is_payload_prefix(p),
    ensures
        InkContract::from_json(with_payload(j, p)) == Ok::<InkContractView, DecodeErrorView>(
            with_wasm(InkContract::from_json(j)->Ok_0, Seq::empty()),
        ),
{
    law_empty_payload(p);
    law_payload_decides(j, p);
}

} // verus!
