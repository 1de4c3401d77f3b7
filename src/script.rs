//! Script contexts and the entry points the engine calls into them.
//!
//! A context is created for each discovered script and is, for its whole
//! life, either unloaded (loading failed and every call is a no-op) or loaded
//! (it owns an instance ready for calls). A failed call never unloads it and
//! never reaches the engine's control flow: it comes back as a value.

use vstd::prelude::*;
use wasmer::{Instance, Store, Function, TypedFunction, ExportError};

verus! {

#[verifier::external_type_specification]
#[verifier::external_body]
pub struct ExInstance(Instance);

#[verifier::external_type_specification]
#[verifier::external_body]
pub struct ExStore(Store);

#[verifier::external_type_specification]
#[verifier::external_body]
pub struct ExFunction(Function);

#[verifier::external_type_specification]
#[verifier::external_body]
#[verifier::reject_recursive_types(Args)]
#[verifier::reject_recursive_types(Rets)]
pub struct ExTypedFunction<Args, Rets>(TypedFunction<Args, Rets>);

/// The export the engine calls once per entity and tick.
pub const ON_TICK_EXPORT: &'static str = "onTick";

/// An entity handle of the engine.
#[derive(Clone, Copy, Debug, PartialEq, Eq, Structural)]
pub struct Entity(pub u64);

/// Why a script could not be loaded or called.
#[derive(Clone, Debug)]
pub enum ScriptError {
    /// The module file is missing or is not valid module bytecode.
    Load(String),
    /// The module's imports could not be satisfied, or it exports no memory.
    Instantiation(String),
    /// The module has no export of this name.
    MissingExport(String),
    /// The export is not a function of the expected signature.
    TypeMismatch,
    /// The export is a function of another store than the one given.
    ForeignStore,
    /// The guest faulted while running.
    Trap(String),
}

/// The names of the exports of an instance, fixed when it was instantiated.
pub uninterp spec fn export_names(i: Instance) -> Set<Seq<char>>;

/// The exports of an instance that are functions, by name.
pub uninterp spec fn exported_functions(i: Instance) -> Map<Seq<char>, Function>;

/// The function was made in the store `s`, so that `s` may run it.
pub uninterp spec fn from_store(f: Function, s: Store) -> bool;

/// The function takes one `i64` and returns nothing.
pub uninterp spec fn takes_entity(f: Function) -> bool;

/// The function that a typed function was made from.
pub uninterp spec fn typed_origin(t: TypedFunction<u64, ()>) -> Function;

/// What a call of the export `name` of `i`, run in the store `s`, comes to:
/// a missing export, an export that is not a function or has another
/// signature, a function of another store, or else the guest's own result.
pub open spec fn entry_outcome(i: Instance, s: Store, name: Seq<char>, r: Result<(), ScriptError>) -> bool {
    let fs = exported_functions(i);
    &&& (r matches Err(ScriptError::MissingExport(_))) <==> !export_names(i).contains(name)
    &&& (r matches Err(ScriptError::MissingExport(n)) ==> n@ == name)
    &&& (export_names(i).contains(name) && !fs.contains_key(name) ==> r matches Err(
        ScriptError::TypeMismatch,
    ))
    &&& (fs.contains_key(name) && !from_store(fs[name], s) ==> r matches Err(
        ScriptError::ForeignStore,
    ))
    &&& (fs.contains_key(name) && from_store(fs[name], s) && !takes_entity(fs[name]) ==> r matches Err(
        ScriptError::TypeMismatch,
    ))
    &&& (fs.contains_key(name) && from_store(fs[name], s) && takes_entity(fs[name]) ==> (r is Ok
        || r matches Err(ScriptError::Trap(_))))
}

/// Relies on wasmer::Exports::get_function: an absent export fails with
/// `Missing` carrying the name asked for, and a present export that is not a
/// function fails with `IncompatibleType`.
#[verifier::external_body]
fn export_function(instance: &Instance, name: &str) -> (r: Result<Function, ScriptError>)
    ensures
        r matches Err(ScriptError::MissingExport(_)) <==> !export_names(*instance).contains(name@),
        r matches Err(ScriptError::MissingExport(n)) ==> n@ == name@,
        r matches Err(e) ==> e is MissingExport || e is TypeMismatch,
        r is Ok <==> exported_functions(*instance).contains_key(name@),
        r matches Ok(f) ==> f == exported_functions(*instance)[name@],
{
    instance.exports.get_function(name).cloned().map_err(|e| match e {
        ExportError::IncompatibleType => ScriptError::TypeMismatch,
        ExportError::Missing(n) => ScriptError::MissingExport(n),
    })
}

/// Relies on wasmer::Function::is_from_store: whether the function belongs
/// to the store.
#[verifier::external_body]
fn function_in_store(f: &Function, store: &Store) -> (r: bool)
    ensures
        r == from_store(*f, *store),
{
    f.is_from_store(store)
}

/// Relies on wasmer::Function::typed, which looks the function up in the
/// store (and panics on a function of another store): it fails exactly when
/// the parameters are not `(i64)` or the results not `()`.
#[verifier::external_body]
fn typed_entry(f: &Function, store: &Store) -> (r: Result<TypedFunction<u64, ()>, ScriptError>)
    requires
        from_store(*f, *store),
    ensures
        r is Ok <==> takes_entity(*f),
        r matches Err(e) ==> e is TypeMismatch,
        r matches Ok(t) ==> typed_origin(t) == *f,
{
    f.typed::<u64, ()>(store).map_err(|_| ScriptError::TypeMismatch)
}

/// Relies on wasmer::TypedFunction::call, which looks the function up in the
/// store (and panics on a function of another store): it runs the guest
/// function, and a guest fault comes back as a `RuntimeError`.
#[verifier::external_body]
fn call_typed(f: &TypedFunction<u64, ()>, store: &mut Store, arg: u64)
    -> (r: Result<(), ScriptError>)
    requires
        from_store(typed_origin(*f), *old(store)),
    ensures
        r matches Err(e) ==> e is Trap,
{
    f.call(store, arg).map_err(|e| ScriptError::Trap(e.message()))
}

/// Calls the export `name` of `instance` with one 64-bit argument, in
/// `store`. A function of another store is refused, not run.
pub fn call_entry_point(instance: &Instance, store: &mut Store, name: &str, arg: u64) -> (r: Result<
    (),
    ScriptError,
>)
    ensures
        entry_outcome(*instance, *old(store), name@, r),
{
    let f = match export_function(instance, name) {
        Ok(f) => f,
        Err(e) => return Err(e),
    };
    if !function_in_store(&f, store) {
        return Err(ScriptError::ForeignStore);
    }
    let t = match typed_entry(&f, store) {
        Ok(t) => t,
        Err(e) => return Err(e),
    };
    call_typed(&t, store, arg)
}

/// Calls `onTick(entity)` in `instance`.
pub fn call_on_tick(instance: &Instance, store: &mut Store, ent: Entity) -> (r: Result<
    (),
    ScriptError,
>)
    ensures
        entry_outcome(*instance, *old(store), ON_TICK_EXPORT@, r),
{
    call_entry_point(instance, store, ON_TICK_EXPORT, ent.0)
}

/// The bytes of the file-name extension of script modules, `.wasm`.
pub open spec fn wasm_extension() -> Seq<u8> {
    seq![0x2e, 0x77, 0x61, 0x73, 0x6d]
}

/// A file name ends in `.wasm`.
pub open spec fn is_script_file(name: Seq<u8>) -> bool {
    name.len() >= 5 && name.subrange(name.len() - 5, name.len() as int) == wasm_extension()
}

/// Whether the file named `name` (its bytes) is a script module to load.
pub fn is_script_file_name(name: &[u8]) -> (r: bool)
    ensures
        r == is_script_file(name@),
{
    let n = name.len();
    if n < 5 {
        return false;
    }
    let r = name[n - 5] == 0x2e && name[n - 4] == 0x77 && name[n - 3] == 0x61 && name[n - 2] == 0x73
        && name[n - 1] == 0x6d;
    assert(r == (name@.subrange(n - 5, n as int) =~= wasm_extension()));
    r
}

/// A loaded module's execution store and instance.
pub struct ScriptInstance {
    pub store: Store,
    pub instance: Instance,
}

/// The engine-facing handle of one script: its name, and its instance when
/// loading succeeded.
pub struct ScriptContext {
    pub name: String,
    pub instance: Option<ScriptInstance>,
}

/// What came of asking a context to run one of its entry points.
#[derive(Debug)]
pub enum TickOutcome {
    /// The context has no instance; nothing was called.
    NoInstance,
    /// The entry point was looked up and, when found, called.
    Ran(Result<(), ScriptError>),
}

impl TickOutcome {
    /// Whether guest code ran, so that its captured output is to be drained.
    pub fn guest_ran(&self) -> (r: bool)
        ensures
            r == (self matches TickOutcome::Ran(res) && (res is Ok || res matches Err(
                ScriptError::Trap(_),
            ))),
    {
        match self {
            TickOutcome::Ran(Ok(())) => true,
            TickOutcome::Ran(Err(ScriptError::Trap(_))) => true,
            _ => false,
        }
    }
}

impl ScriptContext {
    /// The context for the script `name`, given the outcome of loading it. A
    /// failed load gives a context without an instance rather than an error.
    pub fn new(name: String, loaded: Result<ScriptInstance, ScriptError>) -> (r: ScriptContext)
        ensures
            r.name == name,
            r.instance is Some <==> loaded is Ok,
            loaded matches Ok(i) ==> r.instance == Some(i),
    {
        match loaded {
            Ok(inst) => ScriptContext { name, instance: Some(inst) },
            Err(_) => ScriptContext { name, instance: None },
        }
    }

    /// Whether the script was loaded.
    pub fn is_loaded(&self) -> (r: bool)
        ensures
            r == self.instance is Some,
    {
        self.instance.is_some()
    }

    /// Calls the export `name` with `arg` when the context holds an
    /// instance. Any failure is handed back; the context stays as it is, so
    /// the engine loop goes on.
    pub fn run_hook(&mut self, name: &str, arg: u64) -> (r: TickOutcome)
        ensures
            old(self).instance is None ==> r is NoInstance,
            old(self).instance matches Some(inst) ==> (r matches TickOutcome::Ran(res) && entry_outcome(
                inst.instance,
                inst.store,
                name@,
                res,
            )),
            final(self).name == old(self).name,
            final(self).instance is Some <==> old(self).instance is Some,
    {
        match &mut self.instance {
            Some(inst) => TickOutcome::Ran(call_entry_point(&inst.instance, &mut inst.store, name, arg)),
            None => TickOutcome::NoInstance,
        }
    }

    /// Calls `onTick(ent)` when the context holds an instance, as `run_hook`
    /// does.
    pub fn run_on_tick(&mut self, ent: Entity) -> (r: TickOutcome)
        ensures
            old(self).instance is None ==> r is NoInstance,
            old(self).instance matches Some(inst) ==> (r matches TickOutcome::Ran(res) && entry_outcome(
                inst.instance,
                inst.store,
                ON_TICK_EXPORT@,
                res,
            )),
            final(self).name == old(self).name,
            final(self).instance is Some <==> old(self).instance is Some,
    {
        self.run_hook(ON_TICK_EXPORT, ent.0)
    }
}

} // verus!
