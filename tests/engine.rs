use bevy_koto::channel::koto_channel;
use bevy_koto::runtime::{
    next_load_stage, update_args, update_outcome, user_data_from_setup, AddDependency,
    KotoRuntime, LoadError, LoadStage, ScriptState, UpdateOutcome, EXECUTION_BUDGET_SECS,
};
use bevy_koto::script::{process_load_script, ActiveScript, LoadScript};
use koto::prelude::KValue;

const COUNTING_SCRIPT: &str = "
export setup = ||
  {setups: 1, loads: 0, updates: 0}

export on_load = |data|
  data.loads += 1

export update = |data, time|
  data.updates += 1
";

fn new_runtime() -> KotoRuntime {
    let (sender, _receiver) = koto_channel::<AddDependency>();
    KotoRuntime::new(sender)
}

fn field(runtime: &KotoRuntime, key: &str) -> i64 {
    match runtime.user_data() {
        KValue::Map(map) => match map.get(key) {
            Some(KValue::Number(n)) => i64::from(n),
            other => panic!("unexpected value for {key}: {other:?}"),
        },
        other => panic!("unexpected user data: {other:?}"),
    }
}

#[test]
fn load_stages_follow_the_protocol() {
    assert_eq!(next_load_stage(LoadStage::Compile, true, true), LoadStage::TopLevel);
    assert_eq!(
        next_load_stage(LoadStage::Compile, false, true),
        LoadStage::Failed(LoadError::Compile)
    );
    assert_eq!(next_load_stage(LoadStage::TopLevel, true, true), LoadStage::Setup);
    assert_eq!(next_load_stage(LoadStage::TopLevel, true, false), LoadStage::OnLoad);
    assert_eq!(
        next_load_stage(LoadStage::TopLevel, false, false),
        LoadStage::Failed(LoadError::TopLevel)
    );
    assert_eq!(next_load_stage(LoadStage::Setup, true, true), LoadStage::OnLoad);
    assert_eq!(
        next_load_stage(LoadStage::Setup, false, true),
        LoadStage::Failed(LoadError::Setup)
    );
    assert_eq!(next_load_stage(LoadStage::OnLoad, true, false), LoadStage::Done);
    assert_eq!(
        next_load_stage(LoadStage::OnLoad, false, false),
        LoadStage::Failed(LoadError::OnLoad)
    );
    assert_eq!(next_load_stage(LoadStage::Done, false, false), LoadStage::Done);
}

#[test]
fn new_runtime_is_unloaded() {
    let runtime = new_runtime();
    assert_eq!(runtime.script_state(), ScriptState::Unloaded);
    assert!(!runtime.is_ready());
    assert!(matches!(runtime.user_data(), KValue::Null));
    assert_eq!(EXECUTION_BUDGET_SECS, 1);
}

#[test]
fn setup_result_becomes_user_data() {
    let data = user_data_from_setup(Ok(Some(KValue::from(7.0))), KValue::Null);
    assert!(matches!(data, Some(KValue::Number(n)) if i64::from(n) == 7));
    let data = user_data_from_setup(Ok(None), KValue::from(2.0));
    assert!(matches!(data, Some(KValue::Number(n)) if i64::from(n) == 2));
    let failed = user_data_from_setup(Err(koto::Error::MissingOsModule), KValue::Null);
    assert!(failed.is_none());
}

#[test]
fn update_gets_user_data_then_time() {
    let args = update_args(&KValue::from(1.0), KValue::from(2.0));
    assert_eq!(args.len(), 2);
    assert!(matches!(&args[0], KValue::Number(n) if i64::from(n) == 1));
    assert!(matches!(&args[1], KValue::Number(n) if i64::from(n) == 2));
}

#[test]
fn update_results_map_to_outcomes() {
    assert_eq!(update_outcome(&Ok(Some(KValue::Null))), UpdateOutcome::Called);
    assert_eq!(update_outcome(&Ok(None)), UpdateOutcome::NotExported);
    assert_eq!(
        update_outcome(&Err(koto::Error::MissingOsModule)),
        UpdateOutcome::Failed
    );
}

#[test]
fn failed_top_level_keeps_user_data() {
    let mut runtime = new_runtime();
    assert_eq!(runtime.initialize_script(COUNTING_SCRIPT, None, true), Ok(()));
    assert_eq!(
        runtime.initialize_script("throw 'again'", None, true),
        Err(LoadError::TopLevel)
    );
    assert_eq!(field(&runtime, "loads"), 1);
}

#[test]
fn fresh_load_then_hot_reload_keeps_user_data() {
    let mut runtime = new_runtime();
    assert_eq!(runtime.initialize_script(COUNTING_SCRIPT, None, true), Ok(()));
    assert!(runtime.is_ready());
    assert_eq!(field(&runtime, "setups"), 1);
    assert_eq!(field(&runtime, "loads"), 1);

    for _ in 0..3 {
        assert_eq!(runtime.run_update(KValue::Null), UpdateOutcome::Called);
    }
    assert_eq!(field(&runtime, "updates"), 3);

    // hot reload: setup is not called again, on_load is, with the same data
    assert_eq!(runtime.initialize_script(COUNTING_SCRIPT, None, false), Ok(()));
    assert_eq!(field(&runtime, "setups"), 1);
    assert_eq!(field(&runtime, "loads"), 2);
    assert_eq!(field(&runtime, "updates"), 3);
    assert_eq!(runtime.run_update(KValue::Null), UpdateOutcome::Called);
    assert_eq!(field(&runtime, "updates"), 4);
}

#[test]
fn compile_error_faults_and_keeps_previous_data() {
    let mut runtime = new_runtime();
    assert_eq!(runtime.initialize_script(COUNTING_SCRIPT, None, true), Ok(()));
    assert_eq!(
        runtime.initialize_script("export x = (", None, false),
        Err(LoadError::Compile)
    );
    assert_eq!(runtime.script_state(), ScriptState::Faulted);
    assert_eq!(field(&runtime, "loads"), 1);
    assert_eq!(runtime.run_update(KValue::Null), UpdateOutcome::Skipped);
}

#[test]
fn top_level_error_faults() {
    let mut runtime = new_runtime();
    let result = runtime.initialize_script("throw 'top level failure'", None, true);
    assert_eq!(result, Err(LoadError::TopLevel));
    assert_eq!(runtime.script_state(), ScriptState::Faulted);
}

#[test]
fn setup_error_faults() {
    let mut runtime = new_runtime();
    let script = "
export setup = ||
  throw 'no setup'
";
    assert_eq!(runtime.initialize_script(script, None, true), Err(LoadError::Setup));
    assert_eq!(runtime.script_state(), ScriptState::Faulted);
    assert_eq!(runtime.run_update(KValue::Null), UpdateOutcome::Skipped);
}

#[test]
fn on_load_error_faults() {
    let mut runtime = new_runtime();
    let script = "
export on_load = |data|
  throw 'no load'
";
    assert_eq!(runtime.initialize_script(script, None, true), Err(LoadError::OnLoad));
    assert_eq!(runtime.script_state(), ScriptState::Faulted);
}

#[test]
fn script_without_exports_defaults_to_an_empty_map() {
    let mut runtime = new_runtime();
    assert_eq!(runtime.initialize_script("x = 1", None, true), Ok(()));
    match runtime.user_data() {
        KValue::Map(map) => assert_eq!(map.len(), 0),
        other => panic!("unexpected user data: {other:?}"),
    }
    assert_eq!(runtime.run_update(KValue::Null), UpdateOutcome::NotExported);
    assert!(runtime.is_ready());
}

#[test]
fn missing_exported_function_is_not_an_error() {
    let mut runtime = new_runtime();
    assert_eq!(runtime.initialize_script(COUNTING_SCRIPT, None, true), Ok(()));
    let result = runtime.run_exported_function("on_window_size", &[]);
    assert!(matches!(result, Ok(None)));
    assert!(runtime.is_ready());
}

#[test]
fn failing_exported_call_faults() {
    let mut runtime = new_runtime();
    let script = "
export on_window_size = |data, w, h|
  throw 'bad size'
";
    assert_eq!(runtime.initialize_script(script, None, true), Ok(()));
    let args = [KValue::Null, KValue::Null, KValue::Null];
    assert!(runtime.run_exported_function("on_window_size", &args).is_err());
    assert_eq!(runtime.script_state(), ScriptState::Faulted);
}

#[test]
fn exported_call_returns_its_value() {
    let mut runtime = new_runtime();
    let script = "
export answer = ||
  42
";
    assert_eq!(runtime.initialize_script(script, None, true), Ok(()));
    match runtime.run_exported_function("answer", &[]) {
        Ok(Some(KValue::Number(n))) => assert_eq!(i64::from(n), 42),
        other => panic!("unexpected result: {other:?}"),
    }
}

#[test]
fn update_over_budget_faults_until_next_load() {
    let mut runtime = new_runtime();
    let script = "
export update = |data, time|
  loop
    time = time
";
    assert_eq!(runtime.initialize_script(script, None, true), Ok(()));
    assert_eq!(runtime.run_update(KValue::Null), UpdateOutcome::Failed);
    assert_eq!(runtime.script_state(), ScriptState::Faulted);
    for _ in 0..3 {
        assert_eq!(runtime.run_update(KValue::Null), UpdateOutcome::Skipped);
    }
    assert_eq!(runtime.initialize_script(COUNTING_SCRIPT, None, true), Ok(()));
    assert_eq!(runtime.run_update(KValue::Null), UpdateOutcome::Called);
}

#[test]
fn successful_load_makes_script_active_with_no_dependencies() {
    let mut runtime = new_runtime();
    let mut active = ActiveScript::new();
    active.add_dependency("old_dep.koto".to_string());
    let request = LoadScript::load("main.koto".to_string());
    assert_eq!(
        process_load_script(&mut runtime, &mut active, &request, COUNTING_SCRIPT, None),
        Ok(true)
    );
    assert_eq!(active.script.as_deref(), Some("main.koto"));
    assert!(active.dependencies.is_empty());

    let reload = LoadScript::reload("main.koto".to_string());
    assert_eq!(
        process_load_script(&mut runtime, &mut active, &reload, COUNTING_SCRIPT, None),
        Ok(false)
    );
}

#[test]
fn failed_load_keeps_active_script() {
    let mut runtime = new_runtime();
    let mut active = ActiveScript::new();
    let request = LoadScript::load("main.koto".to_string());
    assert_eq!(
        process_load_script(&mut runtime, &mut active, &request, COUNTING_SCRIPT, None),
        Ok(true)
    );
    active.add_dependency("dep.koto".to_string());
    let broken = LoadScript::reload("broken.koto".to_string());
    assert_eq!(
        process_load_script(&mut runtime, &mut active, &broken, "export x = (", None),
        Err(LoadError::Compile)
    );
    assert_eq!(active.script.as_deref(), Some("main.koto"));
    assert_eq!(active.dependencies, vec!["dep.koto".to_string()]);
}

#[test]
fn changes_to_script_or_dependency_trigger_reload() {
    let mut active = ActiveScript::new();
    assert!(!active.should_reload(&"main.koto".to_string()));
    active.set_loaded("main.koto".to_string());
    active.add_dependency("lib/util.koto".to_string());
    assert!(active.should_reload(&"main.koto".to_string()));
    assert!(active.should_reload(&"lib/util.koto".to_string()));
    assert!(!active.should_reload(&"other.koto".to_string()));
}

#[test]
fn channel_delivers_in_order_and_reports_disconnection() {
    let (sender, receiver) = koto_channel::<u32>();
    let other = sender.clone();
    assert!(sender.send(1));
    assert!(other.send(2));
    assert_eq!(receiver.receive(), Some(1));
    assert_eq!(receiver.receive(), Some(2));
    assert_eq!(receiver.receive(), None);
    drop(receiver);
    assert!(!sender.send(3));
}

#[test]
fn window_size_is_passed_only_when_ready() {
    let mut runtime = new_runtime();
    assert!(runtime
        .run_on_window_size(KValue::from(800.0), KValue::from(600.0))
        .is_none());
    let script = "
export setup = ||
  {width: 0}

export on_window_size = |data, w, h|
  data.width = w + h
";
    assert_eq!(runtime.initialize_script(script, None, true), Ok(()));
    let result = runtime.run_on_window_size(KValue::from(800.0), KValue::from(600.0));
    assert!(matches!(result, Some(Ok(Some(_)))));
    assert_eq!(field(&runtime, "width"), 1400);
}

#[test]
fn missing_window_hook_gives_no_value() {
    let mut runtime = new_runtime();
    assert_eq!(runtime.initialize_script("x = 1", None, true), Ok(()));
    let result = runtime.run_on_window_size(KValue::Null, KValue::Null);
    assert!(matches!(result, Some(Ok(None))));
    assert!(runtime.is_ready());
}
