//! The engine process supervisor: a state machine over `Idle` and
//! `Running` that decides every lifecycle transition and yields the
//! process actions the caller performs.

use vstd::prelude::*;
use vstd::string::StringExecFns;
use crate::errors::CoreConfigError;
use crate::proxy::ProxyTrait;

verus! {

/// One process action a supervisor asks its caller to perform.
#[derive(Debug, Clone)]
pub enum CoreAction {
    /// Spawn the program with the given arguments, capturing its output.
    Spawn { program: String, args: Vec<String> },
    /// Kill the running child process.
    Kill,
    /// Run the program once with the given arguments and collect what it
    /// prints.
    Probe { program: String, args: Vec<String> },
    /// Nothing to do.
    Nothing,
}

/// The supervisor of one engine binary: its path and whether a child
/// process is considered running.
#[derive(Debug)]
pub struct Core {
    path: String,
    child_running: bool,
}

/// Builds an idle supervisor over the given engine binary.
pub fn init(path: &str) -> (r: Core)
    ensures
        !r.is_running(),
        r.program() == path@,
{
    Core { path: String::from_str(path), child_running: false }
}

impl Core {
    /// Whether a child process is considered running, as an observable
    /// value.
    pub fn running(&self) -> (r: bool)
        ensures
            r == self.is_running(),
    {
        self.child_running
    }

    /// Records that the child process is gone: the spawn failed, or the
    /// process ended outside the supervisor's control.
    pub fn mark_stopped(&mut self)
        ensures
            !final(self).is_running(),
            final(self).program() == old(self).program(),
    {
        self.child_running = false;
    }

    /// Folds the outcome of a spawn attempt: on success the supervisor
    /// stays as it was; on failure it returns to `Idle` and reports the
    /// launch failure with the caller's detail and code `-1`.
    pub fn spawn_result(&mut self, error: Option<String>) -> (r: Result<(), CoreConfigError>)
        ensures
            final(self).program() == old(self).program(),
            error is None ==> r is Ok && final(self).is_running() == old(self).is_running(),
            error matches Some(m) ==> !final(self).is_running() && (r matches Err(e) && e.msg@
                == m@ && e.code == -1),
    {
        match error {
            None => Ok(()),
            Some(m) => {
                self.child_running = false;
                Err(CoreConfigError { msg: m, code: -1 })
            },
        }
    }

    /// Folds the outcome of a version probe into a result: the collected
    /// output, or the probe failure with its fixed message and code `-1`.
    pub fn version_result(&self, output: Option<String>) -> (r: Result<String, CoreConfigError>)
        ensures
            output matches Some(s) ==> (r matches Ok(t) && t@ == s@),
            output is None ==> (r matches Err(e) && e.msg@ == "failed to run command"@ && e.code
                == -1),
    {
        match output {
            Some(s) => Ok(s),
            None => Err(
                CoreConfigError { msg: String::from_str("failed to run command"), code: -1 },
            ),
        }
    }
}

fn spawn_action(path: &String) -> (act: CoreAction)
    ensures
        act matches CoreAction::Spawn { program, args } && program@ == path@ && args@.len() == 2
            && args@[0]@ == "-config"@ && args@[1]@ == "connection.json"@,
{
    let mut args: Vec<String> = Vec::new();
    args.push(String::from_str("-config"));
    args.push(String::from_str("connection.json"));
    CoreAction::Spawn { program: path.clone(), args }
}

impl ProxyTrait for Core {
    closed spec fn is_running(&self) -> bool {
        self.child_running
    }

    closed spec fn program(&self) -> Seq<char> {
        self.path@
    }

    fn start(&mut self) -> (act: CoreAction) {
        self.child_running = true;
        spawn_action(&self.path)
    }

    /// On an idle supervisor this is a no-op: the whole value is left as
    /// it was.
    fn stop(&mut self) -> (act: CoreAction)
        ensures
            !old(self).is_running() ==> *final(self) == *old(self),
    {
        if self.child_running {
            self.child_running = false;
            CoreAction::Kill
        } else {
            CoreAction::Nothing
        }
    }

    fn restart(&mut self) -> (acts: (CoreAction, CoreAction)) {
        let first = self.stop();
        let second = self.start();
        (first, second)
    }

    fn check_version(&self) -> (act: CoreAction) {
        let mut args: Vec<String> = Vec::new();
        args.push(String::from_str("-version"));
        CoreAction::Probe { program: self.path.clone(), args }
    }

    fn poll_output(&self) -> (drain: bool) {
        self.child_running
    }
}

} // verus!
