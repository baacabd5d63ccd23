//! Runner definitions and the script-execution interface.
//!
//! A runner is an opaque external process controlled through three shell
//! command strings. The library never spawns a shell itself: it hands the
//! embedding program a [`ScriptCall`] describing exactly which command to run
//! and which model selector to place in the environment, and takes the
//! captured [`ShellOutput`] back.

use vstd::prelude::*;

use crate::models::{clone_opt_string, opt_str_list_view, opt_str_view, ActiveRunner};

verus! {

/// A runner definition: the address it serves once active, its advertised
/// capabilities, and the three control scripts.
pub struct Runner {
    pub url: String,
    pub provides: Option<Vec<String>>,
    pub start_script: String,
    pub stop_script: String,
    pub check_script: String,
}

/// Mathematical value of a [`Runner`] definition.
pub ghost struct RunnerDefView {
    pub url: Seq<char>,
    pub provides: Option<Seq<Seq<char>>>,
    pub start_script: Seq<char>,
    pub stop_script: Seq<char>,
    pub check_script: Seq<char>,
}

impl View for Runner {
    type V = RunnerDefView;

    open spec fn view(&self) -> RunnerDefView {
        RunnerDefView {
            url: self.url@,
            provides: opt_str_list_view(self.provides),
            start_script: self.start_script@,
            stop_script: self.stop_script@,
            check_script: self.check_script@,
        }
    }
}

/// A request to run one shell command: the command string and the optional
/// model selector to expose to it as the `MODEL` environment variable.
pub struct ScriptCall {
    pub script: String,
    pub model: Option<String>,
}

/// Mathematical value of a [`ScriptCall`].
pub ghost struct ScriptCallView {
    pub script: Seq<char>,
    pub model: Option<Seq<char>>,
}

impl View for ScriptCall {
    type V = ScriptCallView;

    open spec fn view(&self) -> ScriptCallView {
        ScriptCallView { script: self.script@, model: opt_str_view(self.model) }
    }
}

/// What one script invocation reported: whether it exited successfully, and
/// both captured output streams.
pub struct ShellOutput {
    pub success: bool,
    pub stdout: String,
    pub stderr: String,
}

impl ScriptCall {
    /// The environment overlay of this call: `MODEL` is set exactly when a
    /// model selector is present, and nothing else is injected.
    pub fn environment(&self) -> (r: Vec<(String, String)>)
        ensures
            match self@.model {
                Option::Some(m) => r@.len() == 1 && r@[0].0@ == "MODEL"@ && r@[0].1@ == m,
                Option::None => r@.len() == 0,
            },
    {
        let mut r: Vec<(String, String)> = Vec::new();
        match &self.model {
            Option::Some(m) => {
                r.push(("MODEL".to_owned(), m.clone()));
            },
            Option::None => {},
        }
        r
    }
}

impl Runner {
    /// The call that starts this runner on behalf of `me`.
    pub fn start_call(&self, me: &ActiveRunner) -> (r: ScriptCall)
        ensures
            r@.script == self@.start_script,
            r@.model == me@.model,
    {
        ScriptCall { script: self.start_script.clone(), model: clone_opt_string(&me.model) }
    }

    /// The call that stops this runner on behalf of `me`.
    pub fn stop_call(&self, me: &ActiveRunner) -> (r: ScriptCall)
        ensures
            r@.script == self@.stop_script,
            r@.model == me@.model,
    {
        ScriptCall { script: self.stop_script.clone(), model: clone_opt_string(&me.model) }
    }

    /// The liveness probe for this runner; no model selector is passed.
    pub fn check_call(&self) -> (r: ScriptCall)
        ensures
            r@.script == self@.check_script,
            r@.model is None,
    {
        ScriptCall { script: self.check_script.clone(), model: Option::None }
    }
}

impl ShellOutput {
    /// Classifies an invocation: exit status alone decides success, and a
    /// failure carries the captured stderr as its diagnostic. Output content
    /// is never inspected.
    pub fn classify(&self) -> (r: Result<(), String>)
        ensures
            self.success <==> r is Ok,
            r matches Err(msg) ==> msg@ == self.stderr@,
    {
        if self.success {
            Result::Ok(())
        } else {
            Result::Err(self.stderr.clone())
        }
    }
}

} // verus!
