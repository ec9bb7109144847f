//! Decoding and encoding of ink! contract metadata.
//!
//! A contract's metadata, its manifest, is a JSON document that a toolchain
//! writes: where the code comes from, the compiled module, the interface of
//! the contract and the layout of its storage. [`decode_ink_contract`] reads
//! the text of such a document into an [`InkContract`], and
//! [`encode_ink_contract`] writes one back as text.
//!
//! Decoding fails closed. The result is the whole manifest or one
//! [`DecodeError`]: the text is not JSON, a member is absent or of the wrong
//! kind, or the compiled module is not valid hexadecimal.
//!
//! # What is proved
//!
//! The crate is verified with Verus. JSON text is parsed and printed by
//! `serde_json` and hexadecimal digits are read by `hex`; the module [`json`]
//! and the function `hex_decode` in [`payload`] say what is taken from them
//! without proof. Everything between a parsed document and the typed manifest
//! is proved against the functions on [`json::JsonModel`] that each type
//! gives in its [`JsonCodec`]:
//!
//! - every decoder and encoder computes exactly what its type's `from_json`
//!   and `to_json` say;
//! - the document written for a value reads back as that value
//!   ([`JsonCodec::law_round_trip`]);
//! - a document without one of its required members fails with a mismatch
//!   that names the member ([`RequiredMembers::law_missing_member`]);
//! - the prefix and the case of the compiled module's digits do not change
//!   the bytes, an odd number of digits is refused, and an empty payload is
//!   accepted ([`payload`], [`document`]).
//!
//! # The schema
//!
//! The manifest format has variants. This crate reads the one in which the
//! arguments of a constructor are plain strings, those of a message are
//! typed, and a return type or a display name may be left out or be `null`.
//! Members that the schema does not know are passed over.

pub mod codec;
pub mod contract;
pub mod document;
pub mod error;
pub mod interface;
pub mod json;
pub mod manifest;
pub mod members;
pub mod payload;
pub mod source;
pub mod storage;

pub use crate::codec::JsonCodec;
pub use crate::members::RequiredMembers;
pub use crate::document::decode_ink_contract;
pub use crate::document::encode_ink_contract;
pub use crate::error::DecodeError;
pub use crate::error::Expected;
pub use crate::error::HexFailure;
pub use crate::error::PathSegment;
pub use crate::json::JsonKind;
pub use crate::manifest::Arg;
pub use crate::manifest::BuildInfo;
pub use crate::manifest::Constructor;
pub use crate::manifest::Contract;
pub use crate::manifest::InkContract;
pub use crate::manifest::LangError;
pub use crate::manifest::Layout;
pub use crate::manifest::Message;
pub use crate::manifest::ReturnType;
pub use crate::manifest::Root;
pub use crate::manifest::Source;
pub use crate::manifest::Spec;
pub use crate::manifest::Storage;
pub use crate::manifest::Struct;
pub use crate::manifest::WasmOptSettings;
pub use crate::payload::wasm_from_hex;
pub use crate::payload::wasm_to_hex;
pub use crate::payload::HexPayload;
