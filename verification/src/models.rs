//! Value types shared between the switch controller and its callers.

use vstd::prelude::*;

verus! {

/// Mathematical value of an optional string.
pub open spec fn opt_str_view(o: Option<String>) -> Option<Seq<char>> {
    match o {
        Option::Some(s) => Option::Some(s@),
        Option::None => Option::None,
    }
}

/// Mathematical value of an optional list of strings.
pub open spec fn opt_str_list_view(o: Option<Vec<String>>) -> Option<Seq<Seq<char>>> {
    match o {
        Option::Some(v) => Option::Some(v@.map_values(|s: String| s@)),
        Option::None => Option::None,
    }
}

/// Clones an optional string; the copy is the same value.
pub fn clone_opt_string(o: &Option<String>) -> (r: Option<String>)
    ensures
        r == *o,
{
    match o {
        Option::Some(s) => Option::Some(s.clone()),
        Option::None => Option::None,
    }
}

/// Clones a list of strings; the copy holds the same values.
pub fn clone_string_vec(v: &Vec<String>) -> (r: Vec<String>)
    ensures
        r@ == v@,
{
    let mut r: Vec<String> = Vec::new();
    let mut i: usize = 0;
    while i < v.len()
        invariant
            i <= v.len(),
            r@ =~= v@.subrange(0, i as int),
        decreases v.len() - i,
    {
        r.push(v[i].clone());
        i += 1;
    }
    proof {
        assert(r@ =~= v@);
    }
    r
}

/// Clones an optional list of strings; the copy holds the same values.
pub fn clone_opt_string_vec(o: &Option<Vec<String>>) -> (r: Option<Vec<String>>)
    ensures
        opt_str_list_view(r) == opt_str_list_view(*o),
{
    match o {
        Option::Some(v) => Option::Some(clone_string_vec(v)),
        Option::None => Option::None,
    }
}

/// The single piece of mutable shared state: which runner is live, and an
/// optional model selector further configuring it.
pub struct ActiveRunner {
    pub name: String,
    pub model: Option<String>,
}

/// Mathematical value of an [`ActiveRunner`].
pub ghost struct ActiveRunnerView {
    pub name: Seq<char>,
    pub model: Option<Seq<char>>,
}

impl View for ActiveRunner {
    type V = ActiveRunnerView;

    open spec fn view(&self) -> ActiveRunnerView {
        ActiveRunnerView { name: self.name@, model: opt_str_view(self.model) }
    }
}

impl Clone for ActiveRunner {
    fn clone(&self) -> (r: Self)
        ensures
            r == *self,
    {
        ActiveRunner {
            name: self.name.clone(),
            model: match &self.model {
                Option::Some(m) => Option::Some(m.clone()),
                Option::None => Option::None,
            },
        }
    }
}

/// The outward view of a runner definition: address and advertised
/// capabilities, with the script strings deliberately left out.
pub struct Runner {
    pub provides: Option<Vec<String>>,
    pub url: String,
}

/// Mathematical value of a [`Runner`] view.
pub ghost struct RunnerView {
    pub provides: Option<Seq<Seq<char>>>,
    pub url: Seq<char>,
}

impl View for Runner {
    type V = RunnerView;

    open spec fn view(&self) -> RunnerView {
        RunnerView { provides: opt_str_list_view(self.provides), url: self.url@ }
    }
}

/// One named entry of the read-only runner listing.
pub struct RunnerEntry {
    pub name: String,
    pub runner: Runner,
}

/// Read-only snapshot returned by the controller: every known runner under its
/// name, plus the currently active value.
pub struct RunnerResponse {
    pub runners: Vec<RunnerEntry>,
    pub active: ActiveRunner,
}

/// Which of the two scripts of a switch failed.
#[derive(Debug)]
pub enum SwitchStage {
    Stop,
    Start,
}

/// Failure of a switch request, reported to the caller.
#[derive(Debug)]
pub enum SwitchError {
    /// The requested target name matches no known runner; state is untouched.
    RunnerNotFound,
    /// The stage's script exited nonzero; `msg` carries its captured stderr.
    ScriptFailed { stage: SwitchStage, msg: String },
}

/// Outcome of a switch request as handed to the transport layer.
pub enum SwitchResponse {
    Switched(ActiveRunner),
    RunnerNotFound,
    SwitchingFailed { msg: String },
    InvalidModel,
}

impl SwitchError {
    /// The transport mapping of a failure: an unknown target reports not-found,
    /// a failed script reports the switch as failed with its diagnostic text.
    pub fn to_response(self) -> (r: SwitchResponse)
        ensures
            self is RunnerNotFound <==> r is RunnerNotFound,
            (self matches SwitchError::ScriptFailed { msg, .. } ==> (r matches
                SwitchResponse::SwitchingFailed { msg: m } && m == msg)),
    {
        match self {
            SwitchError::RunnerNotFound => SwitchResponse::RunnerNotFound,
            SwitchError::ScriptFailed { stage: _, msg } => SwitchResponse::SwitchingFailed { msg },
        }
    }
}

impl SwitchResponse {
    /// The HTTP status code each outcome is reported under.
    pub fn status_code(&self) -> (r: u16)
        ensures
            self is Switched ==> r == 200,
            self is RunnerNotFound ==> r == 404,
            self is SwitchingFailed ==> r == 500,
            self is InvalidModel ==> r == 400,
    {
        match self {
            SwitchResponse::Switched(_) => 200,
            SwitchResponse::RunnerNotFound => 404,
            SwitchResponse::SwitchingFailed { .. } => 500,
            SwitchResponse::InvalidModel => 400,
        }
    }
}

} // verus!
