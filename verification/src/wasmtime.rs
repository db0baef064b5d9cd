//! Runs an update method of a Wasm module in a plain wasmtime engine, with
//! no system API imports.
use vstd::prelude::*;

use crate::wat_parse::wat_binary;
use crate::wat_source::{module_from_source, starts_with_wasm_magic};
use vstd::utf8::valid_utf8;

verus! {

#[verifier::external_type_specification]
#[verifier::external_body]
pub struct ExConfig(::wasmtime::Config);

#[verifier::external_type_specification]
#[verifier::external_body]
pub struct ExEngine(::wasmtime::Engine);

#[verifier::external_type_specification]
#[verifier::external_body]
pub struct ExWasmtimeError(::wasmtime::Error);

/// Why running a method did not get as far as calling it.
#[derive(Clone, Copy, Debug, PartialEq, Eq, Structural)]
pub enum RunError {
    /// The engine could not be built with the default configuration.
    EngineCreation,
    /// The bytes are not a module that the engine accepts.
    ModuleCreation,
    /// The module could not be instantiated without imports.
    Instantiation,
    /// The module exports no function `() -> ()` under the method's name.
    FunctionLookup,
}

impl RunError {
    /// The message that the runner reports for this error.
    pub fn message(&self) -> (res: &'static str)
        ensures
            res@ == run_error_message(*self),
    {
        match self {
            RunError::EngineCreation => "Wasmtime: failed to create engine",
            RunError::ModuleCreation => "Wasmtime: failed to create module",
            RunError::Instantiation => "Wasmtime: failed to instantiate module",
            RunError::FunctionLookup => "Wasmtime: failed to get function",
        }
    }
}

/// The message that the runner reports for `e`.
pub open spec fn run_error_message(e: RunError) -> Seq<char> {
    match e {
        RunError::EngineCreation => "Wasmtime: failed to create engine"@,
        RunError::ModuleCreation => "Wasmtime: failed to create module"@,
        RunError::Instantiation => "Wasmtime: failed to instantiate module"@,
        RunError::FunctionLookup => "Wasmtime: failed to get function"@,
    }
}

/// The prefix under which update methods are exported.
pub open spec fn update_export_prefix() -> Seq<char> {
    "canister_update "@
}

/// The export name of the update method `method`.
pub open spec fn update_export_name(method: Seq<char>) -> Seq<char> {
    update_export_prefix() + method
}

/// The name under which a module exports the update method `method`:
/// `canister_update ` followed by the method's name.
pub fn update_export(method: &str) -> (res: String)
    ensures
        res@ == update_export_name(method@),
{
    let mut name = String::new();
    name.append("canister_update ");
    name.append(method);
    name
}

/// The report of `e` for a run of the update method `method`: the error's
/// message, followed for a failed lookup by `: ` and the export's name.
pub open spec fn run_error_report(e: RunError, method: Seq<char>) -> Seq<char> {
    match e {
        RunError::FunctionLookup => run_error_message(e) + ": "@ + update_export_name(method),
        _ => run_error_message(e),
    }
}

impl RunError {
    /// The report of this error for a run of the update method `method`;
    /// a failed lookup names the export that was looked for.
    pub fn report(&self, method: &str) -> (res: String)
        ensures
            res@ == run_error_report(*self, method@),
    {
        let mut text = String::new();
        text.append(self.message());
        match self {
            RunError::FunctionLookup => {
                text.append(": ");
                let name = update_export(method);
                text.append(name.as_str());
                proof {
                    assert(text@ =~= run_error_report(*self, method@));
                }
            },
            _ => {},
        }
        text
    }
}

/// Trusted: `<wasmtime::Config as Default>::default`, the default engine
/// configuration. Nothing is stated of the value.
#[verifier::external_body]
fn config_default() -> (res: ::wasmtime::Config) {
    ::wasmtime::Config::default()
}

/// Trusted: `wasmtime::Engine::new`, which builds an engine from a
/// configuration or fails when the configuration does not suit the host.
/// Whether it fails depends on the host, so nothing is stated of it.
#[verifier::external_body]
fn engine_new(config: &::wasmtime::Config) -> (res: Result<::wasmtime::Engine, ::wasmtime::Error>) {
    ::wasmtime::Engine::new(config)
}

/// Whether `bytes` begins with the header of a binary core module: the
/// magic number `\0asm` and version 1 as a little-endian `u32`.
pub open spec fn has_module_header(bytes: Seq<u8>) -> bool {
    &&& bytes.len() >= 8
    &&& bytes[0] == 0x00u8
    &&& bytes[1] == 0x61u8
    &&& bytes[2] == 0x73u8
    &&& bytes[3] == 0x6du8
    &&& bytes[4] == 0x01u8
    &&& bytes[5] == 0x00u8
    &&& bytes[6] == 0x00u8
    &&& bytes[7] == 0x00u8
}

/// A name for whether `wasm` is a binary core module that wasmtime's
/// validator accepts (with the features of the default configuration).
pub uninterp spec fn valid_module(wasm: Seq<u8>) -> bool;

/// A name for whether the module `wasm` declares imports.
pub uninterp spec fn declares_imports(wasm: Seq<u8>) -> bool;

/// A name for whether the module `wasm` exports, under `name`, a function
/// that takes no parameters and returns no results.
pub uninterp spec fn exports_unit_func(wasm: Seq<u8>, name: Seq<char>) -> bool;

/// An engine with an empty linker and a store, all three made from that
/// engine, so that the linker, the store and everything compiled or
/// instantiated from them belong together.
#[verifier::external_body]
pub struct WasmStore {
    engine: ::wasmtime::Engine,
    linker: ::wasmtime::Linker<u32>,
    store: ::wasmtime::Store<u32>,
}

#[verifier::external_body]
struct CompiledParts {
    engine: ::wasmtime::Engine,
    linker: ::wasmtime::Linker<u32>,
    store: ::wasmtime::Store<u32>,
    module: ::wasmtime::Module,
}

#[verifier::external_body]
struct InstanceParts {
    store: ::wasmtime::Store<u32>,
    instance: ::wasmtime::Instance,
}

#[verifier::external_body]
struct FuncParts {
    store: ::wasmtime::Store<u32>,
    func: ::wasmtime::TypedFunc<(), ()>,
}

/// A module compiled by the engine of a `WasmStore`, with the bytes it was
/// compiled from.
pub struct CompiledModule {
    parts: CompiledParts,
    wasm: Ghost<Seq<u8>>,
}

/// A module instantiated in the store of its `WasmStore`.
pub struct ModuleInstance {
    parts: InstanceParts,
    wasm: Ghost<Seq<u8>>,
}

#[verifier::external_body]
struct CallParts {
    outcome: Result<(), ::wasmtime::Error>,
}

/// An exported function `() -> ()` of an instance, with its store, the
/// module's bytes and the name under which it was looked up.
pub struct UnitFunc {
    parts: FuncParts,
    wasm: Ghost<Seq<u8>>,
    name: Ghost<Seq<char>>,
}

/// The record that an exported function was called: only `UnitFunc::call`
/// makes one. It holds the call's outcome, a trap included, which the run
/// does not report.
pub struct CalledExport {
    parts: CallParts,
    wasm: Ghost<Seq<u8>>,
    name: Ghost<Seq<char>>,
}

impl UnitFunc {
    /// The bytes of the module that exports the function.
    pub closed spec fn wasm(&self) -> Seq<u8> {
        self.wasm@
    }

    /// The export name under which the function was looked up.
    pub closed spec fn name(&self) -> Seq<char> {
        self.name@
    }
}

impl CalledExport {
    /// The bytes of the module whose export was called.
    pub closed spec fn wasm(&self) -> Seq<u8> {
        self.wasm@
    }

    /// The name of the export that was called.
    pub closed spec fn name(&self) -> Seq<char> {
        self.name@
    }
}

impl CompiledModule {
    /// The bytes the module was compiled from.
    pub closed spec fn wasm(&self) -> Seq<u8> {
        self.wasm@
    }
}

impl ModuleInstance {
    /// The bytes of the instantiated module.
    pub closed spec fn wasm(&self) -> Seq<u8> {
        self.wasm@
    }
}

impl WasmStore {
    /// Trusted: `wasmtime::Linker::new` and `wasmtime::Store::new` (with the
    /// data `4`), both from `engine`, held together with it. Nothing is
    /// stated of the value.
    #[verifier::external_body]
    pub fn new(engine: ::wasmtime::Engine) -> (res: WasmStore) {
        let linker = ::wasmtime::Linker::new(&engine);
        let store = ::wasmtime::Store::new(&engine, 4);
        WasmStore { engine, linker, store }
    }

    /// Trusted: `wasmtime::Module::new` on this store's engine, which
    /// validates and compiles the binary module `bytes` or fails. Without
    /// the `wat` feature the bytes are read as a binary whose first payload
    /// is the header: a wrong magic number, a short input, an unknown
    /// version or a component header is an error, and so is any module that
    /// the validator refuses. So a module is only made from valid bytes
    /// that begin with the header of a core module, and it keeps those
    /// bytes. Whether compiling a valid module succeeds can depend on the
    /// host's processor, so nothing more is stated.
    #[verifier::external_body]
    pub fn compile(self, bytes: &[u8]) -> (res: Result<CompiledModule, ::wasmtime::Error>)
        ensures
            res is Ok ==> has_module_header(bytes@) && valid_module(bytes@),
            res matches Ok(c) ==> c.wasm() == bytes@,
    {
        match ::wasmtime::Module::new(&self.engine, bytes) {
            Ok(module) => Ok(CompiledModule {
                parts: CompiledParts {
                    engine: self.engine,
                    linker: self.linker,
                    store: self.store,
                    module,
                },
                wasm: Ghost(bytes@),
            }),
            Err(e) => Err(e),
        }
    }
}

impl CompiledModule {
    /// Trusted: `wasmtime::Linker::instantiate` with the empty linker, in the
    /// store, both made from the module's engine. An import that the linker
    /// does not define is an error, so a module that declares imports is
    /// never instantiated. Otherwise instantiation can still fail (a trap in
    /// the start function, resources of the host), so nothing more is
    /// stated. The instance keeps the module's bytes.
    #[verifier::external_body]
    pub fn instantiate(self) -> (res: Result<ModuleInstance, ::wasmtime::Error>)
        ensures
            declares_imports(self.wasm()) ==> res is Err,
            res matches Ok(i) ==> i.wasm() == self.wasm(),
    {
        let mut parts = self.parts;
        match parts.linker.instantiate(&mut parts.store, &parts.module) {
            Ok(instance) => Ok(ModuleInstance {
                parts: InstanceParts { store: parts.store, instance },
                wasm: self.wasm,
            }),
            Err(e) => Err(e),
        }
    }
}

impl ModuleInstance {
    /// Trusted: `wasmtime::Instance::get_typed_func::<(), ()>` in the store
    /// that owns the instance: the export `name` as a function of no
    /// parameters and no results, which exists exactly when the module
    /// exports such a function under that name. The function keeps the
    /// module's bytes and the name.
    #[verifier::external_body]
    pub fn get_unit_func(self, name: &str) -> (res: Result<UnitFunc, ::wasmtime::Error>)
        ensures
            res is Ok <==> exports_unit_func(self.wasm(), name@),
            res matches Ok(f) ==> f.wasm() == self.wasm() && f.name() == name@,
    {
        let mut parts = self.parts;
        match parts.instance.get_typed_func::<(), ()>(&mut parts.store, name) {
            Ok(func) => Ok(UnitFunc {
                parts: FuncParts { store: parts.store, func },
                wasm: self.wasm,
                name: Ghost(name@),
            }),
            Err(e) => Err(e),
        }
    }
}

impl UnitFunc {
    /// Trusted: `wasmtime::TypedFunc::call` with no arguments, in the store
    /// that owns the function (which has no async support). It runs the
    /// function once; its outcome, a trap reported as an error, is kept in
    /// the record, of which nothing is stated. A function that loops does
    /// not return.
    #[verifier::external_body]
    pub fn call(self) -> (res: CalledExport)
        ensures
            res.wasm() == self.wasm(),
            res.name() == self.name(),
    {
        let mut parts = self.parts;
        let outcome = parts.func.call(&mut parts.store, ());
        CalledExport { parts: CallParts { outcome }, wasm: self.wasm, name: self.name }
    }
}

/// What holds of a run of `method` on the binary module `wasm`, whatever
/// wasmtime decided: success means a valid core module without imports that
/// exports `canister_update <method>` as a function `() -> ()`, and that
/// this export of this module was called; each error says how far the run
/// got; and once the export is found, the run succeeds.
pub open spec fn binary_run_facts(
    wasm: Seq<u8>,
    method: Seq<char>,
    res: Result<CalledExport, RunError>,
) -> bool {
    let name = update_export_name(method);
    &&& res matches Ok(c) ==> c.wasm() == wasm && c.name() == name
    &&& res is Ok ==> has_module_header(wasm) && valid_module(wasm) && !declares_imports(wasm)
        && exports_unit_func(wasm, name)
    &&& res == Err::<CalledExport, RunError>(RunError::Instantiation) ==> has_module_header(wasm)
        && valid_module(wasm)
    &&& res == Err::<CalledExport, RunError>(RunError::FunctionLookup) ==> has_module_header(wasm)
        && valid_module(wasm) && !declares_imports(wasm) && !exports_unit_func(wasm, name)
    &&& !(has_module_header(wasm) && valid_module(wasm)) ==> (res == Err::<CalledExport, RunError>(
        RunError::EngineCreation,
    ) || res == Err::<CalledExport, RunError>(RunError::ModuleCreation))
    &&& declares_imports(wasm) ==> (res == Err::<CalledExport, RunError>(RunError::EngineCreation) || res
        == Err::<CalledExport, RunError>(RunError::ModuleCreation) || res == Err::<CalledExport, RunError>(
        RunError::Instantiation,
    ))
    &&& !exports_unit_func(wasm, name) ==> res is Err
    &&& (res != Err::<CalledExport, RunError>(RunError::EngineCreation) && res != Err::<CalledExport, RunError>(
        RunError::ModuleCreation,
    ) && res != Err::<CalledExport, RunError>(RunError::Instantiation) && exports_unit_func(wasm, name))
        ==> res is Ok
}

/// Runs the update method `method` of the module file contents `wasm` (a
/// binary, or text that is compiled first) on the engine that engine
/// creation gave, and reports how far it got. A failed engine creation is
/// reported as such and nothing else is; then a module that cannot be made
/// from the contents is reported as a module error.
pub fn run_on_engine(
    engine: Result<::wasmtime::Engine, ::wasmtime::Error>,
    wasm: Vec<u8>,
    method: String,
) -> (res: Result<CalledExport, RunError>)
    ensures
        binary_run_facts(wat_binary(wasm@), method@, res),
        (engine is Ok && !starts_with_wasm_magic(wasm@) && !valid_utf8(wasm@)) ==> res == Err::<
            CalledExport,
            RunError,
        >(RunError::ModuleCreation),
        (engine is Err) <==> (res == Err::<CalledExport, RunError>(RunError::EngineCreation)),
        starts_with_wasm_magic(wasm@) ==> binary_run_facts(wasm@, method@, res),
        (engine is Ok && starts_with_wasm_magic(wasm@) && !(has_module_header(wasm@) && valid_module(
            wasm@,
        ))) ==> res == Err::<CalledExport, RunError>(RunError::ModuleCreation),
{
    let engine = match engine {
        Ok(e) => e,
        Err(_) => {
            return Err(RunError::EngineCreation);
        },
    };
    let binary = match module_from_source(wasm.as_slice()) {
        Ok(b) => b,
        Err(_) => {
            return Err(RunError::ModuleCreation);
        },
    };
    let base = WasmStore::new(engine);
    let compiled = match base.compile(binary.as_slice()) {
        Ok(c) => c,
        Err(_) => {
            return Err(RunError::ModuleCreation);
        },
    };
    let instance = match compiled.instantiate() {
        Ok(i) => i,
        Err(_) => {
            return Err(RunError::Instantiation);
        },
    };
    let function = update_export(method.as_str());
    let func = match instance.get_unit_func(function.as_str()) {
        Ok(f) => f,
        Err(_) => {
            return Err(RunError::FunctionLookup);
        },
    };
    Ok(func.call())
}

/// Builds an engine with the default configuration, then instantiates the
/// module `wasm` (a binary, or text that is compiled first) with no
/// imports and calls its update method `method`, the export `canister_update
/// <method>`, once, with no arguments. The method's own outcome, a trap
/// included, is not reported: success returns the record of the call. An
/// error is returned when the method cannot be reached. The binary is the
/// contents themselves when they begin with `\0asm`, else what the text
/// compiles to.
pub fn run_instance(wasm: Vec<u8>, method: String) -> (res: Result<CalledExport, RunError>)
    ensures
        binary_run_facts(wat_binary(wasm@), method@, res),
        starts_with_wasm_magic(wasm@) ==> binary_run_facts(wasm@, method@, res),
{
    let config = config_default();
    run_on_engine(engine_new(&config), wasm, method)
}

} // verus!
