//! Which script is active, what it depends on, and how load requests are served.

use crate::runtime::{state_after_load, KotoRuntime, LoadError, ScriptState};
use vstd::prelude::*;

verus! {

/// A request to load a script into the runtime.
#[derive(Clone, Debug)]
pub struct LoadScript {
    /// The script's path in the assets folder.
    pub script: String,
    /// True for a fresh load, which calls the script's `setup`; false for a hot reload.
    pub reset: bool,
}

impl LoadScript {
    /// A fresh load of the given script.
    pub fn load(script: String) -> (r: LoadScript)
        ensures
            r.script == script,
            r.reset,
    {
        LoadScript { script, reset: true }
    }

    /// A reload of the given script that keeps the user data and skips `setup`.
    pub fn reload(script: String) -> (r: LoadScript)
        ensures
            r.script == script,
            !r.reset,
    {
        LoadScript { script, reset: false }
    }
}

/// The currently loaded script and the module paths it imported.
#[derive(Debug)]
pub struct ActiveScript {
    pub script: Option<String>,
    pub dependencies: Vec<String>,
}

/// True when `path` is one of `paths`.
pub open spec fn lists_path(paths: Seq<String>, path: Seq<char>) -> bool {
    exists|i: int| 0 <= i < paths.len() && (#[trigger] paths[i])@ == path
}

impl ActiveScript {
    /// True when a change to the asset at `path` calls for a reload: it is the
    /// active script or one of its dependencies.
    pub open spec fn spec_should_reload(self, path: Seq<char>) -> bool {
        match self.script {
            Some(s) => s@ == path || lists_path(self.dependencies@, path),
            None => false,
        }
    }

    /// No script is active.
    pub fn new() -> (r: ActiveScript)
        ensures
            r.script.is_none(),
            r.dependencies@.len() == 0,
    {
        ActiveScript { script: None, dependencies: Vec::new() }
    }

    /// Tells whether a change to the asset at `path` calls for a reload of
    /// the active script.
    pub fn should_reload(&self, path: &String) -> (r: bool)
        ensures
            r == self.spec_should_reload(path@),
    {
        match &self.script {
            None => false,
            Some(s) => {
                if *s == *path {
                    return true;
                }
                let mut i: usize = 0;
                while i < self.dependencies.len()
                    invariant
                        self.script == Some(*s),
                        i <= self.dependencies@.len(),
                        forall|j: int| 0 <= j < i ==> (#[trigger] self.dependencies@[j])@ != path@,
                    decreases self.dependencies@.len() - i,
                {
                    if self.dependencies[i] == *path {
                        assert(lists_path(self.dependencies@, path@)) by {
                            assert(self.dependencies@[i as int]@ == path@);
                        }
                        return true;
                    }
                    i = i + 1;
                }
                false
            },
        }
    }

    /// Records a module path that the active script imported.
    pub fn add_dependency(&mut self, path: String)
        ensures
            final(self).script == old(self).script,
            final(self).dependencies@ == old(self).dependencies@.push(path),
    {
        self.dependencies.push(path);
    }

    /// Makes `script` the active script, with its dependencies to be
    /// collected afresh.
    pub fn set_loaded(&mut self, script: String)
        ensures
            final(self).script == Some(script),
            final(self).dependencies@.len() == 0,
    {
        self.script = Some(script);
        self.dependencies = Vec::new();
    }
}

/// Serves one load request with the script's source text and full path.
///
/// On success the requested script becomes the active one, with an empty
/// dependency set, and the result tells whether this was a fresh load (after
/// which the host resets the script clock and announces the load). On
/// failure the engine is faulted and the active script, with its
/// dependencies, is kept.
pub fn process_load_script(
    koto: &mut KotoRuntime,
    active: &mut ActiveScript,
    request: &LoadScript,
    source: &str,
    full_path: Option<&str>,
) -> (r: Result<bool, LoadError>)
    ensures
        final(koto).state() == state_after_load(
            match r {
                Ok(_) => Ok(()),
                Err(e) => Err(e),
            },
        ),
        r.is_ok() ==> r == Ok::<bool, LoadError>(request.reset) && final(active).script == Some(
            request.script,
        ) && final(active).dependencies@.len() == 0,
        r.is_err() ==> *final(active) == *old(active),
        r.is_err() ==> final(koto).state() == ScriptState::Faulted,
        !request.reset ==> final(koto).user_data_value() == old(koto).user_data_value(),
{
    match koto.initialize_script(source, full_path, request.reset) {
        Ok(()) => {
            active.set_loaded(request.script.clone());
            Ok(request.reset)
        },
        Err(e) => Err(e),
    }
}

} // verus!
