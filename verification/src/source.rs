//! The JSON form of the build provenance: [`Source`], [`BuildInfo`] and
//! [`WasmOptSettings`].

use crate::codec::expect_object;
use crate::codec::insert_member;
use crate::codec::JsonCodec;
use crate::codec::required;
use crate::codec::required_member;
use crate::error::DecodeError;
use crate::error::DecodeErrorView;
use crate::error::Expected;
use crate::error::mismatch;
use crate::error::PathStep;
use crate::json::JsonModel;
use crate::json::object_insert;
use crate::json::object_new;
use crate::json::value_object;
use crate::json::value_string;
use crate::manifest::BuildInfo;
use crate::manifest::BuildInfoView;
use crate::manifest::lemma_member_names;
use crate::manifest::Source;
use crate::manifest::SourceView;
use crate::manifest::WasmOptSettings;
use crate::manifest::WasmOptSettingsView;
use crate::members::leads_through;
use crate::members::leads_to;
use crate::members::lemma_missing_here;
use crate::members::lemma_missing_inside;
use crate::members::RequiredMembers;
use crate::payload::HexPayload;
use crate::payload::wasm_to_hex;
use vstd::prelude::*;

verus! {

impl JsonCodec for WasmOptSettings {
    open spec fn expected() -> Expected {
        Expected::Object
    }

    /// An object stands for a value where each member does; the first member
    /// that does not, in the order of the fields, gives the error.
    open spec fn from_json(j: JsonModel) -> Result<WasmOptSettingsView, DecodeErrorView> {
        let keep_debug_symbols = required::<bool>(j, "keep_debug_symbols"@);
        let optimization_passes = required::<String>(j, "optimization_passes"@);
        if !(j is Object) {
            Err(mismatch(Expected::Object, j.kind()))
        } else if keep_debug_symbols is Err {
            Err(keep_debug_symbols->Err_0)
        } else if optimization_passes is Err {
            Err(optimization_passes->Err_0)
        } else {
            Ok(
                WasmOptSettingsView {
                    keep_debug_symbols: keep_debug_symbols->Ok_0,
                    optimization_passes: optimization_passes->Ok_0,
                },
            )
        }
    }

    open spec fn to_json(x: WasmOptSettingsView) -> JsonModel {
        JsonModel::Object(
            Map::empty()
                .insert("keep_debug_symbols"@, bool::to_json(x.keep_debug_symbols))
                .insert("optimization_passes"@, String::to_json(x.optimization_passes)),
        )
    }

    fn expects() -> (e: Expected) {
        Expected::Object
    }

    fn from_value(v: &serde_json::Value) -> (r: Result<WasmOptSettings, DecodeError>) {
        expect_object(v)?;
        let keep_debug_symbols = required_member::<bool>(v, "keep_debug_symbols")?;
        let optimization_passes = required_member::<String>(v, "optimization_passes")?;
        Ok(WasmOptSettings { keep_debug_symbols, optimization_passes })
    }

    fn to_value(&self) -> (v: serde_json::Value) {
        let mut members = object_new();
        insert_member(&mut members, "keep_debug_symbols", &self.keep_debug_symbols);
        insert_member(&mut members, "optimization_passes", &self.optimization_passes);
        value_object(members)
    }

    proof fn law_round_trip(x: WasmOptSettingsView) {
        lemma_member_names();
        bool::law_round_trip(x.keep_debug_symbols);
        String::law_round_trip(x.optimization_passes);
    }
}

impl RequiredMembers for WasmOptSettings {
    /// A path leads to a required member of this object, or through one of
    /// its members to a required member further in.
    open spec fn requires_member(j: JsonModel, path: Seq<PathStep>) -> bool {
        &&& j is Object
        &&& {
            ||| leads_to(path, "keep_debug_symbols"@)
            ||| leads_to(path, "optimization_passes"@)
        }
    }

    proof fn law_missing_member(j: JsonModel, path: Seq<PathStep>) {
        lemma_member_names();
        if leads_to(path, "keep_debug_symbols"@) {
            lemma_missing_here::<bool>(j, path, "keep_debug_symbols"@);
        } else if leads_to(path, "optimization_passes"@) {
            lemma_missing_here::<String>(j, path, "optimization_passes"@);
        }
    }
}

impl JsonCodec for BuildInfo {
    open spec fn expected() -> Expected {
        Expected::Object
    }

    /// An object stands for a value where each member does; the first member
    /// that does not, in the order of the fields, gives the error.
    open spec fn from_json(j: JsonModel) -> Result<BuildInfoView, DecodeErrorView> {
        let build_mode = required::<String>(j, "build_mode"@);
        let cargo_contract_version = required::<String>(j, "cargo_contract_version"@);
        let rust_toolchain = required::<String>(j, "rust_toolchain"@);
        let wasm_opt_settings = required::<WasmOptSettings>(j, "wasm_opt_settings"@);
        if !(j is Object) {
            Err(mismatch(Expected::Object, j.kind()))
        } else if build_mode is Err {
            Err(build_mode->Err_0)
        } else if cargo_contract_version is Err {
            Err(cargo_contract_version->Err_0)
        } else if rust_toolchain is Err {
            Err(rust_toolchain->Err_0)
        } else if wasm_opt_settings is Err {
            Err(wasm_opt_settings->Err_0)
        } else {
            Ok(
                BuildInfoView {
                    build_mode: build_mode->Ok_0,
                    cargo_contract_version: cargo_contract_version->Ok_0,
                    rust_toolchain: rust_toolchain->Ok_0,
                    wasm_opt_settings: wasm_opt_settings->Ok_0,
                },
            )
        }
    }

    open spec fn to_json(x: BuildInfoView) -> JsonModel {
        JsonModel::Object(
            Map::empty()
                .insert("build_mode"@, String::to_json(x.build_mode))
                .insert("cargo_contract_version"@, String::to_json(x.cargo_contract_version))
                .insert("rust_toolchain"@, String::to_json(x.rust_toolchain))
                .insert("wasm_opt_settings"@, WasmOptSettings::to_json(x.wasm_opt_settings)),
        )
    }

    fn expects() -> (e: Expected) {
        Expected::Object
    }

    fn from_value(v: &serde_json::Value) -> (r: Result<BuildInfo, DecodeError>) {
        expect_object(v)?;
        let build_mode = required_member::<String>(v, "build_mode")?;
        let cargo_contract_version = required_member::<String>(v, "cargo_contract_version")?;
        let rust_toolchain = required_member::<String>(v, "rust_toolchain")?;
        let wasm_opt_settings = required_member::<WasmOptSettings>(v, "wasm_opt_settings")?;
        Ok(BuildInfo { build_mode, cargo_contract_version, rust_toolchain, wasm_opt_settings })
    }

    fn to_value(&self) -> (v: serde_json::Value) {
        let mut members = object_new();
        insert_member(&mut members, "build_mode", &self.build_mode);
        insert_member(&mut members, "cargo_contract_version", &self.cargo_contract_version);
        insert_member(&mut members, "rust_toolchain", &self.rust_toolchain);
        insert_member(&mut members, "wasm_opt_settings", &self.wasm_opt_settings);
        value_object(members)
    }

    proof fn law_round_trip(x: BuildInfoView) {
        lemma_member_names();
        String::law_round_trip(x.build_mode);
        String::law_round_trip(x.cargo_contract_version);
        String::law_round_trip(x.rust_toolchain);
        WasmOptSettings::law_round_trip(x.wasm_opt_settings);
    }
}

impl RequiredMembers for BuildInfo {
    /// A path leads to a required member of this object, or through one of
    /// its members to a required member further in.
    open spec fn requires_member(j: JsonModel, path: Seq<PathStep>) -> bool {
        &&& j is Object
        &&& {
            ||| leads_to(path, "build_mode"@)
            ||| leads_to(path, "cargo_contract_version"@)
            ||| leads_to(path, "rust_toolchain"@)
            ||| leads_to(path, "wasm_opt_settings"@)
            ||| leads_through::<WasmOptSettings>(j, path, "wasm_opt_settings"@)
        }
    }

    proof fn law_missing_member(j: JsonModel, path: Seq<PathStep>) {
        lemma_member_names();
        if leads_to(path, "build_mode"@) {
            lemma_missing_here::<String>(j, path, "build_mode"@);
        } else if leads_to(path, "cargo_contract_version"@) {
            lemma_missing_here::<String>(j, path, "cargo_contract_version"@);
        } else if leads_to(path, "rust_toolchain"@) {
            lemma_missing_here::<String>(j, path, "rust_toolchain"@);
        } else if leads_to(path, "wasm_opt_settings"@) {
            lemma_missing_here::<WasmOptSettings>(j, path, "wasm_opt_settings"@);
        } else if leads_through::<WasmOptSettings>(j, path, "wasm_opt_settings"@) {
            lemma_missing_inside::<WasmOptSettings>(j, path, "wasm_opt_settings"@);
        }
    }
}

impl JsonCodec for Source {
    open spec fn expected() -> Expected {
        Expected::Object
    }

    /// An object stands for a value where each member does; the first member
    /// that does not, in the order of the fields, gives the error.
    open spec fn from_json(j: JsonModel) -> Result<SourceView, DecodeErrorView> {
        let hash = required::<String>(j, "hash"@);
        let language = required::<String>(j, "language"@);
        let compiler = required::<String>(j, "compiler"@);
        let wasm = required::<HexPayload>(j, "wasm"@);
        let build_info = required::<BuildInfo>(j, "build_info"@);
        if !(j is Object) {
            Err(mismatch(Expected::Object, j.kind()))
        } else if hash is Err {
            Err(hash->Err_0)
        } else if language is Err {
            Err(language->Err_0)
        } else if compiler is Err {
            Err(compiler->Err_0)
        } else if wasm is Err {
            Err(wasm->Err_0)
        } else if build_info is Err {
            Err(build_info->Err_0)
        } else {
            Ok(
                SourceView {
                    hash: hash->Ok_0,
                    language: language->Ok_0,
                    compiler: compiler->Ok_0,
                    wasm: wasm->Ok_0,
                    build_info: build_info->Ok_0,
                },
            )
        }
    }

    open spec fn to_json(x: SourceView) -> JsonModel {
        JsonModel::Object(
            Map::empty()
                .insert("hash"@, String::to_json(x.hash))
                .insert("language"@, String::to_json(x.language))
                .insert("compiler"@, String::to_json(x.compiler))
                .insert("wasm"@, HexPayload::to_json(x.wasm))
                .insert("build_info"@, BuildInfo::to_json(x.build_info)),
        )
    }

    fn expects() -> (e: Expected) {
        Expected::Object
    }

    fn from_value(v: &serde_json::Value) -> (r: Result<Source, DecodeError>) {
        expect_object(v)?;
        let hash = required_member::<String>(v, "hash")?;
        let language = required_member::<String>(v, "language")?;
        let compiler = required_member::<String>(v, "compiler")?;
        let wasm = required_member::<HexPayload>(v, "wasm")?.0;
        let build_info = required_member::<BuildInfo>(v, "build_info")?;
        assert(wasm.deep_view() =~= wasm@);
        Ok(Source { hash, language, compiler, wasm, build_info })
    }

    fn to_value(&self) -> (v: serde_json::Value) {
        let mut members = object_new();
        insert_member(&mut members, "hash", &self.hash);
        insert_member(&mut members, "language", &self.language);
        insert_member(&mut members, "compiler", &self.compiler);
        let module = value_string(wasm_to_hex(self.wasm.as_slice()));
        object_insert(&mut members, "wasm".to_owned(), module);
        assert(self.wasm.deep_view() =~= self.wasm@);
        insert_member(&mut members, "build_info", &self.build_info);
        value_object(members)
    }

    proof fn law_round_trip(x: SourceView) {
        lemma_member_names();
        String::law_round_trip(x.hash);
        String::law_round_trip(x.language);
        String::law_round_trip(x.compiler);
        HexPayload::law_round_trip(x.wasm);
        BuildInfo::law_round_trip(x.build_info);
    }
}

impl RequiredMembers for Source {
    /// A path leads to a required member of this object, or through one of
    /// its members to a required member further in.
    open spec fn requires_member(j: JsonModel, path: Seq<PathStep>) -> bool {
        &&& j is Object
        &&& {
            ||| leads_to(path, "hash"@)
            ||| leads_to(path, "language"@)
            ||| leads_to(path, "compiler"@)
            ||| leads_to(path, "wasm"@)
            ||| leads_to(path, "build_info"@)
            ||| leads_through::<BuildInfo>(j, path, "build_info"@)
        }
    }

    proof fn law_missing_member(j: JsonModel, path: Seq<PathStep>) {
        lemma_member_names();
        if leads_to(path, "hash"@) {
            lemma_missing_here::<String>(j, path, "hash"@);
        } else if leads_to(path, "language"@) {
            lemma_missing_here::<String>(j, path, "language"@);
        } else if leads_to(path, "compiler"@) {
            lemma_missing_here::<String>(j, path, "compiler"@);
        } else if leads_to(path, "wasm"@) {
            lemma_missing_here::<HexPayload>(j, path, "wasm"@);
        } else if leads_to(path, "build_info"@) {
            lemma_missing_here::<BuildInfo>(j, path, "build_info"@);
        } else if leads_through::<BuildInfo>(j, path, "build_info"@) {
            lemma_missing_inside::<BuildInfo>(j, path, "build_info"@);
        }
    }
}

} // verus!
