//! The script engine: one Koto runtime, its load protocol and its calls.
//!
//! Loading compiles the script, runs its top-level code, calls `setup` on a
//! fresh load and `on_load` on every load. Any failure leaves the engine
//! faulted, and a faulted engine makes no further update calls until a load
//! succeeds.

use crate::channel::KotoSender;
use koto::prelude::{Chunk, CompileArgs, KMap, KString, KValue, Koto, KotoSettings};
use koto::Ptr;
use std::path::PathBuf;
use std::time::Duration;
use vstd::prelude::*;

verus! {

#[verifier::external_type_specification]
#[verifier::external_body]
pub struct ExKoto(Koto);

#[verifier::external_type_specification]
#[verifier::external_body]
pub struct ExKValue(KValue);

#[verifier::external_type_specification]
#[verifier::external_body]
pub struct ExKMap(KMap);

#[verifier::external_type_specification]
#[verifier::external_body]
pub struct ExChunk(Chunk);

#[verifier::external_type_specification]
#[verifier::external_body]
pub struct ExKotoError(koto::Error);

#[verifier::external_type_specification]
#[verifier::external_body]
pub struct ExPathBuf(PathBuf);

#[verifier::external_type_specification]
#[verifier::external_body]
#[verifier::reject_recursive_types(T)]
pub struct ExPtr<T: ?Sized>(Ptr<T>);

/// The wall-clock budget of each compile, run or call, in seconds.
pub const EXECUTION_BUDGET_SECS: u64 = 1;

/// The state of the engine.
#[derive(Clone, Copy, Debug, PartialEq, Eq, Structural)]
pub enum ScriptState {
    /// No script has been loaded yet.
    Unloaded,
    /// The last load or call failed; update calls are suppressed until a load succeeds.
    Faulted,
    /// The last load succeeded and no call has failed since.
    Ready,
}

/// The step of a load at which it failed.
#[derive(Clone, Copy, Debug, PartialEq, Eq, Structural)]
pub enum LoadError {
    /// The script did not compile.
    Compile,
    /// Running the script's top-level code raised an error.
    TopLevel,
    /// The exported `setup` function raised an error.
    Setup,
    /// The exported `on_load` function raised an error.
    OnLoad,
}

/// Where a load stands.
#[derive(Clone, Copy, Debug, PartialEq, Eq, Structural)]
pub enum LoadStage {
    Compile,
    TopLevel,
    Setup,
    OnLoad,
    Done,
    Failed(LoadError),
}

/// The stage that follows `stage` once its work has succeeded or failed.
///
/// `setup` is only reached on a fresh load (`reset`); `on_load` is reached on
/// every load whose earlier steps succeeded.
pub open spec fn spec_next_load_stage(stage: LoadStage, succeeded: bool, reset: bool) -> LoadStage {
    match stage {
        LoadStage::Compile => if succeeded {
            LoadStage::TopLevel
        } else {
            LoadStage::Failed(LoadError::Compile)
        },
        LoadStage::TopLevel => if !succeeded {
            LoadStage::Failed(LoadError::TopLevel)
        } else if reset {
            LoadStage::Setup
        } else {
            LoadStage::OnLoad
        },
        LoadStage::Setup => if succeeded {
            LoadStage::OnLoad
        } else {
            LoadStage::Failed(LoadError::Setup)
        },
        LoadStage::OnLoad => if succeeded {
            LoadStage::Done
        } else {
            LoadStage::Failed(LoadError::OnLoad)
        },
        LoadStage::Done => LoadStage::Done,
        LoadStage::Failed(e) => LoadStage::Failed(e),
    }
}

/// Advances the load protocol by one step.
pub fn next_load_stage(stage: LoadStage, succeeded: bool, reset: bool) -> (r: LoadStage)
    ensures
        r == spec_next_load_stage(stage, succeeded, reset),
{
    match stage {
        LoadStage::Compile => if succeeded {
            LoadStage::TopLevel
        } else {
            LoadStage::Failed(LoadError::Compile)
        },
        LoadStage::TopLevel => if !succeeded {
            LoadStage::Failed(LoadError::TopLevel)
        } else if reset {
            LoadStage::Setup
        } else {
            LoadStage::OnLoad
        },
        LoadStage::Setup => if succeeded {
            LoadStage::OnLoad
        } else {
            LoadStage::Failed(LoadError::Setup)
        },
        LoadStage::OnLoad => if succeeded {
            LoadStage::Done
        } else {
            LoadStage::Failed(LoadError::OnLoad)
        },
        LoadStage::Done => LoadStage::Done,
        LoadStage::Failed(e) => LoadStage::Failed(e),
    }
}

/// The stage a load reaches when its steps succeed or fail as `outcomes` says,
/// one outcome per step taken.
pub open spec fn stage_after(outcomes: Seq<bool>, reset: bool) -> LoadStage
    decreases outcomes.len(),
{
    if outcomes.len() == 0 {
        LoadStage::Compile
    } else {
        spec_next_load_stage(stage_after(outcomes.drop_last(), reset), outcomes.last(), reset)
    }
}

/// True for the stages at which a load ends.
pub open spec fn is_finished(stage: LoadStage) -> bool {
    stage == LoadStage::Done || stage is Failed
}

/// What a finished load returns.
pub open spec fn load_result(stage: LoadStage) -> Result<(), LoadError> {
    match stage {
        LoadStage::Failed(e) => Err(e),
        _ => Ok(()),
    }
}

/// The number of steps of a load whose steps all succeed.
pub open spec fn steps_of(reset: bool) -> nat {
    if reset {
        4
    } else {
        3
    }
}

/// The error of a load whose step at position `k` is the first to fail.
pub open spec fn error_at(k: nat, reset: bool) -> LoadError {
    if k == 0 {
        LoadError::Compile
    } else if k == 1 {
        LoadError::TopLevel
    } else if reset && k == 2 {
        LoadError::Setup
    } else {
        LoadError::OnLoad
    }
}

/// The engine state that a finished load leaves behind.
pub open spec fn state_after_load(r: Result<(), LoadError>) -> ScriptState {
    match r {
        Ok(_) => ScriptState::Ready,
        Err(_) => ScriptState::Faulted,
    }
}

/// The load protocol: a load whose first `k` steps succeed and whose next step
/// fails ends with that step's error, and so leaves the engine faulted; a load
/// whose steps all succeed ends ready. A hot reload (`reset` unset) never
/// reaches `setup`, and a load always reaches `on_load` when the steps before
/// it succeed.
pub proof fn lemma_load_protocol(outcomes: Seq<bool>, reset: bool, k: nat)
    requires
        k <= outcomes.len(),
        k <= steps_of(reset),
        forall|i: int| 0 <= i < k ==> #[trigger] outcomes[i],
    ensures
        k < steps_of(reset) && k < outcomes.len() && !outcomes[k as int] ==> stage_after(
            outcomes.take(k + 1int),
            reset,
        ) == LoadStage::Failed(error_at(k, reset)) && state_after_load(
            load_result(stage_after(outcomes.take(k + 1int), reset)),
        ) == ScriptState::Faulted,
        k == steps_of(reset) ==> stage_after(outcomes.take(k as int), reset) == LoadStage::Done,
        !reset ==> stage_after(outcomes.take(k as int), reset) != LoadStage::Setup,
        k == steps_of(reset) - 1 ==> stage_after(outcomes.take(k as int), reset) == LoadStage::OnLoad,
{
    reveal_with_fuel(stage_after, 5);
    assert(outcomes.take(0) =~= Seq::<bool>::empty());
    if k >= 1 {
        assert(outcomes.take(1).drop_last() =~= outcomes.take(0));
    }
    if k >= 2 {
        assert(outcomes.take(2).drop_last() =~= outcomes.take(1));
    }
    if k >= 3 {
        assert(outcomes.take(3).drop_last() =~= outcomes.take(2));
    }
    if k >= 4 {
        assert(outcomes.take(4).drop_last() =~= outcomes.take(3));
    }
    if k < outcomes.len() {
        assert(outcomes.take(k + 1int).drop_last() =~= outcomes.take(k as int));
    }
}

/// What a call of the script's `update` function came to.
#[derive(Clone, Copy, Debug, PartialEq, Eq, Structural)]
pub enum UpdateOutcome {
    /// The engine was not ready, so nothing was called.
    Skipped,
    /// The script exports no `update` function.
    NotExported,
    /// `update` was called and returned.
    Called,
    /// `update` raised an error, or ran over its budget; the engine is now faulted.
    Failed,
}

/// One frame's update of the engine: nothing is called unless the engine is
/// ready, and a failing call faults it.
pub open spec fn update_step(before: ScriptState, outcome: UpdateOutcome, after: ScriptState) -> bool {
    &&& (outcome == UpdateOutcome::Skipped <==> before != ScriptState::Ready)
    &&& after == (if outcome == UpdateOutcome::Failed {
        ScriptState::Faulted
    } else {
        before
    })
}

/// Once an update call fails, the engine stays faulted and every later frame
/// skips the update, for as long as no load happens.
pub proof fn lemma_fault_suppresses_updates(
    states: Seq<ScriptState>,
    outcomes: Seq<UpdateOutcome>,
    k: int,
    j: int,
)
    requires
        states.len() == outcomes.len() + 1,
        forall|i: int|
            0 <= i < outcomes.len() ==> update_step(states[i], #[trigger] outcomes[i], states[i + 1]),
        0 <= k < outcomes.len(),
        outcomes[k] == UpdateOutcome::Failed,
        k < j < outcomes.len(),
    ensures
        states[j] == ScriptState::Faulted,
        outcomes[j] == UpdateOutcome::Skipped,
    decreases j - k,
{
    assert(update_step(states[k], outcomes[k], states[k + 1]));
    if j > k + 1 {
        lemma_fault_suppresses_updates(states, outcomes, k, j - 1);
    }
    assert(update_step(states[j], outcomes[j], states[j + 1]));
}

/// A module path imported while a script ran, reported for dependency tracking.
#[derive(Debug)]
pub struct AddDependency {
    pub path: PathBuf,
}

/// Reports an imported module path on the dependency channel.
///
/// The report is lost only when every receiver has been dropped, that is when
/// nothing tracks dependencies any more; the result says whether it was queued.
pub fn report_dependency(sender: &KotoSender<AddDependency>, path: PathBuf) -> (delivered: bool) {
    sender.send(AddDependency { path })
}

/// The names that the runtime's exports map holds.
pub uninterp spec fn exported_names(k: Koto) -> Set<Seq<char>>;

/// The execution limit, in seconds, that the runtime was built with.
pub uninterp spec fn execution_limit_secs(k: Koto) -> nat;

/// Whether the compiler accepts `script` with the given script path.
pub uninterp spec fn compiles(script: Seq<char>, path: Option<Seq<char>>) -> bool;

/// The view of an optional script path.
pub open spec fn path_view(path: Option<&str>) -> Option<Seq<char>> {
    match path {
        Some(p) => Some(p@),
        None => None,
    }
}

/// Relies on `Koto::with_settings`, with `KotoSettings::with_execution_limit`
/// and `with_module_imported_callback`: a fresh runtime that stops any
/// compile, run or call after `budget_secs` seconds and reports every imported
/// module path (copied with `Path::to_path_buf`) on `sender`.
#[verifier::external_body]
fn new_koto(sender: KotoSender<AddDependency>, budget_secs: u64) -> (r: Koto)
    ensures
        execution_limit_secs(r) == budget_secs,
{
    Koto::with_settings(
        KotoSettings::default().with_execution_limit(Duration::from_secs(budget_secs))
            .with_module_imported_callback(
            move |path| {
                report_dependency(&sender, path.to_path_buf());
            },
        ),
    )
}

/// Relies on `Koto::clear_module_cache`: drops the loader's compiled modules,
/// leaving the exports and the settings alone.
#[verifier::external_body]
fn clear_module_cache(runtime: &mut Koto)
    ensures
        exported_names(*final(runtime)) == exported_names(*old(runtime)),
        execution_limit_secs(*final(runtime)) == execution_limit_secs(*old(runtime)),
{
    runtime.clear_module_cache()
}

/// Relies on `Koto::compile`, which defers to `ModuleLoader::compile_script`
/// and so to `Compiler::compile` on the script and path alone: the compiled
/// chunk, or the compile error. Exports and settings are left alone.
#[verifier::external_body]
fn compile_script(runtime: &mut Koto, script: &str, script_path: Option<&str>) -> (r: Result<
    Ptr<Chunk>,
    koto::Error,
>)
    ensures
        r.is_ok() == compiles(script@, path_view(script_path)),
        exported_names(*final(runtime)) == exported_names(*old(runtime)),
        execution_limit_secs(*final(runtime)) == execution_limit_secs(*old(runtime)),
{
    runtime.compile(
        CompileArgs {
            script,
            script_path: script_path.map(KString::from),
            compiler_settings: Default::default(),
        },
    )
}

/// Relies on `Koto::exports_mut` and `KMap::clear`: forgets every exported value.
#[verifier::external_body]
fn clear_exports(runtime: &mut Koto)
    ensures
        exported_names(*final(runtime)) == Set::<Seq<char>>::empty(),
        execution_limit_secs(*final(runtime)) == execution_limit_secs(*old(runtime)),
{
    runtime.exports_mut().clear()
}

/// Relies on `Koto::run`: runs a compiled chunk's top-level code, which may
/// export values; the settings are left alone.
#[verifier::external_body]
fn run_chunk(runtime: &mut Koto, chunk: Ptr<Chunk>) -> (r: Result<KValue, koto::Error>)
    ensures
        execution_limit_secs(*final(runtime)) == execution_limit_secs(*old(runtime)),
{
    runtime.run(chunk)
}

/// Relies on `Koto::exports` and `KMap::get`: the exported value of that name, if any.
#[verifier::external_body]
fn exported_value(runtime: &Koto, name: &str) -> (r: Option<KValue>)
    ensures
        r.is_some() == exported_names(*runtime).contains(name@),
{
    runtime.exports().get(name)
}

/// Relies on `Koto::call_function`: calls a function value with the
/// arguments; the settings are left alone.
#[verifier::external_body]
fn call_function(runtime: &mut Koto, function: KValue, args: &[KValue]) -> (r: Result<
    KValue,
    koto::Error,
>)
    ensures
        execution_limit_secs(*final(runtime)) == execution_limit_secs(*old(runtime)),
{
    runtime.call_function(function, args)
}

/// Relies on `KValue::Null`: the null value.
#[verifier::external_body]
fn null_value() -> KValue {
    KValue::Null
}

/// Relies on `KMap::default` and `From<KMap> for KValue`: a new, empty map value.
#[verifier::external_body]
fn empty_map_value() -> KValue {
    KMap::default().into()
}

/// Relies on `Clone for KValue` (derived): a new handle to the same value.
#[verifier::external_body]
pub(crate) fn clone_value(value: &KValue) -> (r: KValue)
    ensures
        r == *value,
{
    value.clone()
}

/// The user data that a fresh load keeps after calling `setup`: what `setup`
/// returned, `empty` when the script exports no `setup`, and nothing when
/// `setup` failed.
pub fn user_data_from_setup(setup: Result<Option<KValue>, koto::Error>, empty: KValue) -> (r:
    Option<KValue>)
    ensures
        r == match setup {
            Ok(Some(d)) => Some(d),
            Ok(None) => Some(empty),
            Err(_) => None::<KValue>,
        },
{
    match setup {
        Ok(Some(data)) => Some(data),
        Ok(None) => Some(empty),
        Err(_) => None,
    }
}

/// The arguments of the script's `on_load`: the user data.
pub fn on_load_args(user_data: &KValue) -> (r: Vec<KValue>)
    ensures
        r@ == seq![*user_data],
{
    let mut args: Vec<KValue> = Vec::new();
    args.push(clone_value(user_data));
    args
}

/// The arguments of the script's `update`: the user data and the time.
pub fn update_args(user_data: &KValue, time: KValue) -> (r: Vec<KValue>)
    ensures
        r@ == seq![*user_data, time],
{
    let mut args: Vec<KValue> = Vec::new();
    args.push(clone_value(user_data));
    args.push(time);
    args
}

/// What calling an exported function returns, from what the call returned:
/// the call's value, or its error.
pub fn exported_call_result(call: Result<KValue, koto::Error>) -> (r: Result<
    Option<KValue>,
    koto::Error,
>)
    ensures
        r == match call {
            Ok(v) => Ok::<Option<KValue>, koto::Error>(Some(v)),
            Err(e) => Err::<Option<KValue>, koto::Error>(e),
        },
{
    match call {
        Ok(v) => Ok(Some(v)),
        Err(e) => Err(e),
    }
}

/// The arguments of the script's `on_window_size`: the user data, the width
/// and the height.
pub fn window_size_args(user_data: &KValue, width: KValue, height: KValue) -> (r: Vec<KValue>)
    ensures
        r@ == seq![*user_data, width, height],
{
    let mut args: Vec<KValue> = Vec::new();
    args.push(clone_value(user_data));
    args.push(width);
    args.push(height);
    args
}

/// What a call of `update` came to, from what the call returned.
pub fn update_outcome(call: &Result<Option<KValue>, koto::Error>) -> (r: UpdateOutcome)
    ensures
        r == match call {
            Ok(Some(_)) => UpdateOutcome::Called,
            Ok(None) => UpdateOutcome::NotExported,
            Err(_) => UpdateOutcome::Failed,
        },
{
    match call {
        Ok(Some(_)) => UpdateOutcome::Called,
        Ok(None) => UpdateOutcome::NotExported,
        Err(_) => UpdateOutcome::Failed,
    }
}

/// Relies on `Koto::prelude`: the map of values that every script can see.
#[verifier::external_body]
fn runtime_prelude(runtime: &Koto) -> &KMap {
    runtime.prelude()
}

/// The Koto runtime with its load state and the script's user data.
pub struct KotoRuntime {
    runtime: Koto,
    user_data: KValue,
    state: ScriptState,
}

impl KotoRuntime {
    pub closed spec fn state(&self) -> ScriptState {
        self.state
    }

    pub closed spec fn user_data_value(&self) -> KValue {
        self.user_data
    }

    /// The wall-clock budget, in seconds, that the runtime was built with.
    pub closed spec fn budget(&self) -> nat {
        execution_limit_secs(self.runtime)
    }

    /// The names the current script exports.
    pub closed spec fn exports(&self) -> Set<Seq<char>> {
        exported_names(self.runtime)
    }

    /// A runtime with no script loaded, whose calls have the execution budget
    /// and whose module imports are reported on `add_dependency_sender`.
    pub fn new(add_dependency_sender: KotoSender<AddDependency>) -> (r: KotoRuntime)
        ensures
            r.state() == ScriptState::Unloaded,
            r.budget() == EXECUTION_BUDGET_SECS,
    {
        KotoRuntime {
            runtime: new_koto(add_dependency_sender, EXECUTION_BUDGET_SECS),
            user_data: null_value(),
            state: ScriptState::Unloaded,
        }
    }

    /// The engine's state.
    pub fn script_state(&self) -> (r: ScriptState)
        ensures
            r == self.state(),
    {
        self.state
    }

    /// Returns true if a script has been successfully loaded and has not faulted since.
    pub fn is_ready(&self) -> (r: bool)
        ensures
            r == (self.state() == ScriptState::Ready),
    {
        self.state == ScriptState::Ready
    }

    /// Loads a script: compiles it, runs its top-level code, calls `setup` when
    /// `reset` is set and then `on_load` with the user data.
    ///
    /// On success the engine is ready; on any failure it is faulted and the
    /// failing step is returned. The user data changes only when `setup`
    /// succeeds, to what [`user_data_from_setup`] makes of its result; so a
    /// load that fails before `on_load`, and every load without `reset`,
    /// leaves it as it was. Without `reset`, `setup` is never called.
    pub fn initialize_script(&mut self, script: &str, script_path: Option<&str>, reset: bool) -> (r:
        Result<(), LoadError>)
        ensures
            final(self).state() == state_after_load(r),
            final(self).budget() == old(self).budget(),
            (r == Err::<(), LoadError>(LoadError::Compile)) == !compiles(
                script@,
                path_view(script_path),
            ),
            r == Err::<(), LoadError>(LoadError::Compile)
                ==> final(self).exports() == old(self).exports(),
            r == Err::<(), LoadError>(LoadError::Compile) || r == Err::<(), LoadError>(
                LoadError::TopLevel,
            ) || r == Err::<(), LoadError>(LoadError::Setup)
                ==> final(self).user_data_value() == old(self).user_data_value(),
            !reset ==> final(self).user_data_value() == old(self).user_data_value(),
            !reset ==> r != Err::<(), LoadError>(LoadError::Setup),
            exists|outcomes: Seq<bool>|
                is_finished(#[trigger] stage_after(outcomes, reset)) && r == load_result(
                    stage_after(outcomes, reset),
                ),
    {
        self.state = ScriptState::Faulted;
        clear_module_cache(&mut self.runtime);
        let mut stage = LoadStage::Compile;
        let ghost mut outcomes: Seq<bool> = Seq::empty();
        let chunk = match compile_script(&mut self.runtime, script, script_path) {
            Ok(chunk) => chunk,
            Err(_) => {
                assert(stage_after(seq![false], reset) == LoadStage::Failed(LoadError::Compile))
                    by {
                    reveal_with_fuel(stage_after, 2);
                    assert(seq![false].drop_last() =~= Seq::<bool>::empty());
                }
                return Err(LoadError::Compile);
            },
        };
        stage = next_load_stage(stage, true, reset);
        proof {
            outcomes = outcomes.push(true);
            assert(outcomes.drop_last() =~= Seq::<bool>::empty());
            reveal_with_fuel(stage_after, 2);
            assert(stage == stage_after(outcomes, reset));
        }
        if reset {
            clear_exports(&mut self.runtime);
        }
        let ran = run_chunk(&mut self.runtime, chunk).is_ok();
        stage = next_load_stage(stage, ran, reset);
        proof {
            let prev = outcomes;
            outcomes = outcomes.push(ran);
            assert(outcomes.drop_last() =~= prev);
            assert(stage == stage_after(outcomes, reset));
        }
        if !ran {
            return Err(LoadError::TopLevel);
        }
        if reset {
            let setup = self.run_exported_function("setup", &[]);
            let data = user_data_from_setup(setup, empty_map_value());
            stage = next_load_stage(stage, data.is_some(), reset);
            proof {
                let prev = outcomes;
                outcomes = outcomes.push(data.is_some());
                assert(outcomes.drop_last() =~= prev);
                assert(stage == stage_after(outcomes, reset));
            }
            match data {
                Some(data) => {
                    self.user_data = data;
                },
                None => {
                    self.state = ScriptState::Faulted;
                    return Err(LoadError::Setup);
                },
            }
        }
        let args = on_load_args(&self.user_data);
        let loaded = self.run_exported_function("on_load", args.as_slice()).is_ok();
        stage = next_load_stage(stage, loaded, reset);
        proof {
            let prev = outcomes;
            outcomes = outcomes.push(loaded);
            assert(outcomes.drop_last() =~= prev);
            assert(stage == stage_after(outcomes, reset));
        }
        if !loaded {
            self.state = ScriptState::Faulted;
            return Err(LoadError::OnLoad);
        }
        self.state = ScriptState::Ready;
        Ok(())
    }

    /// Calls the script's `update` with the arguments of [`update_args`]: the
    /// user data and `time`. Nothing is called, and nothing changes, unless
    /// the engine is ready.
    ///
    /// A failing call faults the engine; nothing else changes its state.
    pub fn run_update(&mut self, time: KValue) -> (r: UpdateOutcome)
        ensures
            update_step(old(self).state(), r, final(self).state()),
            old(self).state() != ScriptState::Ready ==> *final(self) == *old(self),
            final(self).user_data_value() == old(self).user_data_value(),
            final(self).budget() == old(self).budget(),
    {
        if self.state != ScriptState::Ready {
            return UpdateOutcome::Skipped;
        }
        let args = update_args(&self.user_data, time);
        let call = self.run_exported_function("update", args.as_slice());
        update_outcome(&call)
    }

    /// Runs a function that the current script exports.
    ///
    /// Returns `Ok(None)` when no such function is exported, which is no
    /// error. A call that fails faults the engine.
    pub fn run_exported_function(&mut self, function_name: &str, args: &[KValue]) -> (r: Result<
        Option<KValue>,
        koto::Error,
    >)
        ensures
            final(self).state() == (if r.is_err() {
                ScriptState::Faulted
            } else {
                old(self).state()
            }),
            final(self).user_data_value() == old(self).user_data_value(),
            final(self).budget() == old(self).budget(),
            !old(self).exports().contains(function_name@) ==> r == Ok::<
                Option<KValue>,
                koto::Error,
            >(None) && *final(self) == *old(self),
            old(self).exports().contains(function_name@) ==> r != Ok::<
                Option<KValue>,
                koto::Error,
            >(None),
    {
        let function = match exported_value(&self.runtime, function_name) {
            Some(function) => function,
            None => {
                return Ok(None);
            },
        };
        let call = call_function(&mut self.runtime, function, args);
        if call.is_err() {
            self.state = ScriptState::Faulted;
        }
        exported_call_result(call)
    }

    /// Calls the script's `on_window_size(user_data, width, height)` when the
    /// engine is ready; returns `None`, changing nothing, when it is not.
    pub fn run_on_window_size(&mut self, width: KValue, height: KValue) -> (r: Option<
        Result<Option<KValue>, koto::Error>,
    >)
        ensures
            r.is_none() <==> old(self).state() != ScriptState::Ready,
            r.is_none() ==> *final(self) == *old(self),
            r.is_some() ==> final(self).state() == (if r->Some_0.is_err() {
                ScriptState::Faulted
            } else {
                ScriptState::Ready
            }),
            final(self).user_data_value() == old(self).user_data_value(),
            final(self).budget() == old(self).budget(),
    {
        if self.state != ScriptState::Ready {
            return None;
        }
        let args = window_size_args(&self.user_data, width, height);
        Some(self.run_exported_function("on_window_size", args.as_slice()))
    }

    /// The Koto runtime's prelude.
    pub fn prelude(&self) -> &KMap {
        runtime_prelude(&self.runtime)
    }

    /// The user data that is being held by the current script.
    pub fn user_data(&self) -> (r: &KValue)
        ensures
            *r == self.user_data_value(),
    {
        &self.user_data
    }
}

} // verus!
