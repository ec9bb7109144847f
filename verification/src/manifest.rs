//! The contract manifest as typed data.
//!
//! Each type here mirrors one object of the document, field for field. Where
//! the document's name for a member is a reserved word, the field has another
//! name and its documentation gives the member's.
//!
//! Two members may be left out of a document or be `null`: the return type of
//! a constructor or a message, and the display name of a type reference. Every
//! other member is required. The arguments of a constructor are plain strings,
//! those of a message are typed.
//!
//! Beside each type stands its mathematical model, which the contracts of the
//! decoder and the encoder speak of.

use vstd::prelude::*;

verus! {

/// The whole manifest of a contract.
#[derive(Debug, PartialEq, Eq)]
pub struct InkContract {
    pub source: Source,
    pub contract: Contract,
    pub spec: Spec,
    pub storage: Storage,
    /// The version of the manifest format.
    pub version: String,
}

/// The mathematical model of [`InkContract`].
pub struct InkContractView {
    pub source: SourceView,
    pub contract: ContractView,
    pub spec: SpecView,
    pub storage: StorageView,
    pub version: Seq<char>,
}

impl DeepView for InkContract {
    type V = InkContractView;

    open spec fn deep_view(&self) -> InkContractView {
        InkContractView {
            source: self.source.deep_view(),
            contract: self.contract.deep_view(),
            spec: self.spec.deep_view(),
            storage: self.storage.deep_view(),
            version: self.version.deep_view(),
        }
    }
}

impl View for InkContract {
    type V = InkContractView;

    open spec fn view(&self) -> InkContractView {
        self.deep_view()
    }
}

/// Where the contract's code comes from, and the code itself.
#[derive(Debug, PartialEq, Eq)]
pub struct Source {
    pub hash: String,
    pub language: String,
    pub compiler: String,
    /// The compiled module. In a document it is a string of hexadecimal
    /// digits.
    pub wasm: Vec<u8>,
    pub build_info: BuildInfo,
}

/// The mathematical model of [`Source`].
pub struct SourceView {
    pub hash: Seq<char>,
    pub language: Seq<char>,
    pub compiler: Seq<char>,
    pub wasm: Seq<u8>,
    pub build_info: BuildInfoView,
}

impl DeepView for Source {
    type V = SourceView;

    open spec fn deep_view(&self) -> SourceView {
        SourceView {
            hash: self.hash.deep_view(),
            language: self.language.deep_view(),
            compiler: self.compiler.deep_view(),
            wasm: self.wasm.deep_view(),
            build_info: self.build_info.deep_view(),
        }
    }
}

impl View for Source {
    type V = SourceView;

    open spec fn view(&self) -> SourceView {
        self.deep_view()
    }
}

/// How the toolchain built the contract.
#[derive(Debug, PartialEq, Eq)]
pub struct BuildInfo {
    pub build_mode: String,
    pub cargo_contract_version: String,
    pub rust_toolchain: String,
    pub wasm_opt_settings: WasmOptSettings,
}

/// The mathematical model of [`BuildInfo`].
pub struct BuildInfoView {
    pub build_mode: Seq<char>,
    pub cargo_contract_version: Seq<char>,
    pub rust_toolchain: Seq<char>,
    pub wasm_opt_settings: WasmOptSettingsView,
}

impl DeepView for BuildInfo {
    type V = BuildInfoView;

    open spec fn deep_view(&self) -> BuildInfoView {
        BuildInfoView {
            build_mode: self.build_mode.deep_view(),
            cargo_contract_version: self.cargo_contract_version.deep_view(),
            rust_toolchain: self.rust_toolchain.deep_view(),
            wasm_opt_settings: self.wasm_opt_settings.deep_view(),
        }
    }
}

impl View for BuildInfo {
    type V = BuildInfoView;

    open spec fn view(&self) -> BuildInfoView {
        self.deep_view()
    }
}

/// Settings of the binary optimizer.
#[derive(Debug, PartialEq, Eq)]
pub struct WasmOptSettings {
    pub keep_debug_symbols: bool,
    pub optimization_passes: String,
}

/// The mathematical model of [`WasmOptSettings`].
pub struct WasmOptSettingsView {
    pub keep_debug_symbols: bool,
    pub optimization_passes: Seq<char>,
}

impl DeepView for WasmOptSettings {
    type V = WasmOptSettingsView;

    open spec fn deep_view(&self) -> WasmOptSettingsView {
        WasmOptSettingsView {
            keep_debug_symbols: self.keep_debug_symbols.deep_view(),
            optimization_passes: self.optimization_passes.deep_view(),
        }
    }
}

impl View for WasmOptSettings {
    type V = WasmOptSettingsView;

    open spec fn view(&self) -> WasmOptSettingsView {
        self.deep_view()
    }
}

/// The identity of the contract.
#[derive(Debug, PartialEq, Eq)]
pub struct Contract {
    pub name: String,
    pub version: String,
    pub authors: Vec<String>,
}

/// The mathematical model of [`Contract`].
pub struct ContractView {
    pub name: Seq<char>,
    pub version: Seq<char>,
    pub authors: Seq<Seq<char>>,
}

impl DeepView for Contract {
    type V = ContractView;

    open spec fn deep_view(&self) -> ContractView {
        ContractView {
            name: self.name.deep_view(),
            version: self.version.deep_view(),
            authors: self.authors.deep_view(),
        }
    }
}

impl View for Contract {
    type V = ContractView;

    open spec fn view(&self) -> ContractView {
        self.deep_view()
    }
}

/// The interface of the contract.
#[derive(Debug, PartialEq, Eq)]
pub struct Spec {
    pub constructors: Vec<Constructor>,
    pub docs: Vec<String>,
    pub events: Vec<String>,
    pub lang_error: LangError,
    pub messages: Vec<Message>,
}

/// The mathematical model of [`Spec`].
pub struct SpecView {
    pub constructors: Seq<ConstructorView>,
    pub docs: Seq<Seq<char>>,
    pub events: Seq<Seq<char>>,
    pub lang_error: LangErrorView,
    pub messages: Seq<MessageView>,
}

impl DeepView for Spec {
    type V = SpecView;

    open spec fn deep_view(&self) -> SpecView {
        SpecView {
            constructors: self.constructors.deep_view(),
            docs: self.docs.deep_view(),
            events: self.events.deep_view(),
            lang_error: self.lang_error.deep_view(),
            messages: self.messages.deep_view(),
        }
    }
}

impl View for Spec {
    type V = SpecView;

    open spec fn view(&self) -> SpecView {
        self.deep_view()
    }
}

/// An entry point that deploys the contract.
#[derive(Debug, PartialEq, Eq)]
pub struct Constructor {
    pub args: Vec<String>,
    pub docs: Vec<String>,
    pub label: String,
    pub payable: bool,
    /// Absent where the document leaves the member out or gives `null`.
    pub return_type: Option<ReturnType>,
    /// The hexadecimal identifier by which a call is dispatched.
    pub selector: String,
}

/// The mathematical model of [`Constructor`].
pub struct ConstructorView {
    pub args: Seq<Seq<char>>,
    pub docs: Seq<Seq<char>>,
    pub label: Seq<char>,
    pub payable: bool,
    pub return_type: Option<ReturnTypeView>,
    pub selector: Seq<char>,
}

impl DeepView for Constructor {
    type V = ConstructorView;

    open spec fn deep_view(&self) -> ConstructorView {
        ConstructorView {
            args: self.args.deep_view(),
            docs: self.docs.deep_view(),
            label: self.label.deep_view(),
            payable: self.payable.deep_view(),
            return_type: self.return_type.deep_view(),
            selector: self.selector.deep_view(),
        }
    }
}

impl View for Constructor {
    type V = ConstructorView;

    open spec fn view(&self) -> ConstructorView {
        self.deep_view()
    }
}

/// A reference to a type.
#[derive(Debug, PartialEq, Eq)]
pub struct ReturnType {
    /// Absent where the document leaves the member out or gives `null`.
    pub display_name: Option<Vec<String>>,
    /// The member `type`: an index into a registry of types that is kept
    /// elsewhere.
    pub type_id: u8,
}

/// The mathematical model of [`ReturnType`].
pub struct ReturnTypeView {
    pub display_name: Option<Seq<Seq<char>>>,
    pub type_id: u8,
}

impl DeepView for ReturnType {
    type V = ReturnTypeView;

    open spec fn deep_view(&self) -> ReturnTypeView {
        ReturnTypeView {
            display_name: self.display_name.deep_view(),
            type_id: self.type_id.deep_view(),
        }
    }
}

impl View for ReturnType {
    type V = ReturnTypeView;

    open spec fn view(&self) -> ReturnTypeView {
        self.deep_view()
    }
}

/// The type of the language's own errors.
#[derive(Debug, PartialEq, Eq)]
pub struct LangError {
    /// Absent where the document leaves the member out or gives `null`.
    pub display_name: Option<Vec<String>>,
    /// The member `type`: an index into a registry of types that is kept
    /// elsewhere.
    pub type_id: u8,
}

/// The mathematical model of [`LangError`].
pub struct LangErrorView {
    pub display_name: Option<Seq<Seq<char>>>,
    pub type_id: u8,
}

impl DeepView for LangError {
    type V = LangErrorView;

    open spec fn deep_view(&self) -> LangErrorView {
        LangErrorView {
            display_name: self.display_name.deep_view(),
            type_id: self.type_id.deep_view(),
        }
    }
}

impl View for LangError {
    type V = LangErrorView;

    open spec fn view(&self) -> LangErrorView {
        self.deep_view()
    }
}

/// An entry point that calls the contract.
#[derive(Debug, PartialEq, Eq)]
pub struct Message {
    pub args: Vec<Arg>,
    pub docs: Vec<String>,
    pub label: String,
    pub mutates: bool,
    pub payable: bool,
    /// Absent where the document leaves the member out or gives `null`.
    pub return_type: Option<ReturnType>,
    /// The hexadecimal identifier by which a call is dispatched.
    pub selector: String,
}

/// The mathematical model of [`Message`].
pub struct MessageView {
    pub args: Seq<ArgView>,
    pub docs: Seq<Seq<char>>,
    pub label: Seq<char>,
    pub mutates: bool,
    pub payable: bool,
    pub return_type: Option<ReturnTypeView>,
    pub selector: Seq<char>,
}

impl DeepView for Message {
    type V = MessageView;

    open spec fn deep_view(&self) -> MessageView {
        MessageView {
            args: self.args.deep_view(),
            docs: self.docs.deep_view(),
            label: self.label.deep_view(),
            mutates: self.mutates.deep_view(),
            payable: self.payable.deep_view(),
            return_type: self.return_type.deep_view(),
            selector: self.selector.deep_view(),
        }
    }
}

impl View for Message {
    type V = MessageView;

    open spec fn view(&self) -> MessageView {
        self.deep_view()
    }
}

/// A typed parameter of a message.
#[derive(Debug, PartialEq, Eq)]
pub struct Arg {
    pub label: String,
    /// The member `type`: the type of the parameter.
    pub type_ref: ReturnType,
}

/// The mathematical model of [`Arg`].
pub struct ArgView {
    pub label: Seq<char>,
    pub type_ref: ReturnTypeView,
}

impl DeepView for Arg {
    type V = ArgView;

    open spec fn deep_view(&self) -> ArgView {
        ArgView {
            label: self.label.deep_view(),
            type_ref: self.type_ref.deep_view(),
        }
    }
}

impl View for Arg {
    type V = ArgView;

    open spec fn view(&self) -> ArgView {
        self.deep_view()
    }
}

/// The layout of the contract's storage.
#[derive(Debug, PartialEq, Eq)]
pub struct Storage {
    pub root: Root,
}

/// The mathematical model of [`Storage`].
pub struct StorageView {
    pub root: RootView,
}

impl DeepView for Storage {
    type V = StorageView;

    open spec fn deep_view(&self) -> StorageView {
        StorageView {
            root: self.root.deep_view(),
        }
    }
}

impl View for Storage {
    type V = StorageView;

    open spec fn view(&self) -> StorageView {
        self.deep_view()
    }
}

/// The root of the storage layout.
#[derive(Debug, PartialEq, Eq)]
pub struct Root {
    pub layout: Layout,
    pub root_key: String,
}

/// The mathematical model of [`Root`].
pub struct RootView {
    pub layout: LayoutView,
    pub root_key: Seq<char>,
}

impl DeepView for Root {
    type V = RootView;

    open spec fn deep_view(&self) -> RootView {
        RootView {
            layout: self.layout.deep_view(),
            root_key: self.root_key.deep_view(),
        }
    }
}

impl View for Root {
    type V = RootView;

    open spec fn view(&self) -> RootView {
        self.deep_view()
    }
}

/// A layout. Only a struct layout is modelled.
#[derive(Debug, PartialEq, Eq)]
pub struct Layout {
    /// The member `struct`.
    pub structure: Struct,
}

/// The mathematical model of [`Layout`].
pub struct LayoutView {
    pub structure: StructView,
}

impl DeepView for Layout {
    type V = LayoutView;

    open spec fn deep_view(&self) -> LayoutView {
        LayoutView {
            structure: self.structure.deep_view(),
        }
    }
}

impl View for Layout {
    type V = LayoutView;

    open spec fn view(&self) -> LayoutView {
        self.deep_view()
    }
}

/// A struct in the storage layout, of which only the name is kept.
#[derive(Debug, PartialEq, Eq)]
pub struct Struct {
    pub name: String,
}

/// The mathematical model of [`Struct`].
pub struct StructView {
    pub name: Seq<char>,
}

impl DeepView for Struct {
    type V = StructView;

    open spec fn deep_view(&self) -> StructView {
        StructView {
            name: self.name.deep_view(),
        }
    }
}

impl View for Struct {
    type V = StructView;

    open spec fn view(&self) -> StructView {
        self.deep_view()
    }
}

/// The names of the members, by their length and their first character:
/// within one object, no two names agree in both.
pub proof fn lemma_member_names()
    ensures
        "source"@.len() == 6 && "source"@[0] == 's',
        "contract"@.len() == 8 && "contract"@[0] == 'c',
        "spec"@.len() == 4 && "spec"@[0] == 's',
        "storage"@.len() == 7 && "storage"@[0] == 's',
        "version"@.len() == 7 && "version"@[0] == 'v',
        "hash"@.len() == 4 && "hash"@[0] == 'h',
        "language"@.len() == 8 && "language"@[0] == 'l',
        "compiler"@.len() == 8 && "compiler"@[0] == 'c',
        "wasm"@.len() == 4 && "wasm"@[0] == 'w',
        "build_info"@.len() == 10 && "build_info"@[0] == 'b',
        "build_mode"@.len() == 10 && "build_mode"@[0] == 'b',
        "cargo_contract_version"@.len() == 22 && "cargo_contract_version"@[0] == 'c',
        "rust_toolchain"@.len() == 14 && "rust_toolchain"@[0] == 'r',
        "wasm_opt_settings"@.len() == 17 && "wasm_opt_settings"@[0] == 'w',
        "keep_debug_symbols"@.len() == 18 && "keep_debug_symbols"@[0] == 'k',
        "optimization_passes"@.len() == 19 && "optimization_passes"@[0] == 'o',
        "name"@.len() == 4 && "name"@[0] == 'n',
        "authors"@.len() == 7 && "authors"@[0] == 'a',
        "constructors"@.len() == 12 && "constructors"@[0] == 'c',
        "docs"@.len() == 4 && "docs"@[0] == 'd',
        "events"@.len() == 6 && "events"@[0] == 'e',
        "lang_error"@.len() == 10 && "lang_error"@[0] == 'l',
        "messages"@.len() == 8 && "messages"@[0] == 'm',
        "args"@.len() == 4 && "args"@[0] == 'a',
        "label"@.len() == 5 && "label"@[0] == 'l',
        "payable"@.len() == 7 && "payable"@[0] == 'p',
        "mutates"@.len() == 7 && "mutates"@[0] == 'm',
        "return_type"@.len() == 11 && "return_type"@[0] == 'r',
        "selector"@.len() == 8 && "selector"@[0] == 's',
        "display_name"@.len() == 12 && "display_name"@[0] == 'd',
        "type"@.len() == 4 && "type"@[0] == 't',
        "root"@.len() == 4 && "root"@[0] == 'r',
        "layout"@.len() == 6 && "layout"@[0] == 'l',
        "root_key"@.len() == 8 && "root_key"@[0] == 'r',
        "struct"@.len() == 6 && "struct"@[0] == 's',
{
    reveal_strlit("source");
    reveal_strlit("contract");
    reveal_strlit("spec");
    reveal_strlit("storage");
    reveal_strlit("version");
    reveal_strlit("hash");
    reveal_strlit("language");
    reveal_strlit("compiler");
    reveal_strlit("wasm");
    reveal_strlit("build_info");
    reveal_strlit("build_mode");
    reveal_strlit("cargo_contract_version");
    reveal_strlit("rust_toolchain");
    reveal_strlit("wasm_opt_settings");
    reveal_strlit("keep_debug_symbols");
    reveal_strlit("optimization_passes");
    reveal_strlit("name");
    reveal_strlit("authors");
    reveal_strlit("constructors");
    reveal_strlit("docs");
    reveal_strlit("events");
    reveal_strlit("lang_error");
    reveal_strlit("messages");
    reveal_strlit("args");
    reveal_strlit("label");
    reveal_strlit("payable");
    reveal_strlit("mutates");
    reveal_strlit("return_type");
    reveal_strlit("selector");
    reveal_strlit("display_name");
    reveal_strlit("type");
    reveal_strlit("root");
    reveal_strlit("layout");
    reveal_strlit("root_key");
    reveal_strlit("struct");
}

} // verus!
