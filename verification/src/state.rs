//! The states of a build or a job.

use crate::codec::FromJson;
use crate::json::{as_str, Json};
use crate::text::same;
use serde_json::Value;
use vstd::prelude::*;

verus! {

/// The state of a build or a job.
#[derive(Debug, Clone, Copy, PartialEq, Eq, Structural)]
pub enum State {
    /// Workload was received and machine is booting
    Received,
    /// Workload was created but not yet started
    Created,
    /// Workload was started but has not completed
    Started,
    /// Workload started but was canceled
    Canceled,
    /// Workload completed with a successful exit status
    Passed,
    /// Workload completed with a failure exit status
    Failed,
    /// Travis build errored
    Errored,
}

impl View for State {
    type V = State;

    open spec fn view(&self) -> State {
        *self
    }
}

impl State {
    /// The state's name, in lower case.
    pub open spec fn name(self) -> Seq<char> {
        match self {
            State::Received => "received"@,
            State::Created => "created"@,
            State::Started => "started"@,
            State::Canceled => "canceled"@,
            State::Passed => "passed"@,
            State::Failed => "failed"@,
            State::Errored => "errored"@,
        }
    }

    /// The state with the given name, if there is one.
    pub open spec fn named(name: Seq<char>) -> Option<State> {
        if name == "received"@ {
            Some(State::Received)
        } else if name == "created"@ {
            Some(State::Created)
        } else if name == "started"@ {
            Some(State::Started)
        } else if name == "canceled"@ {
            Some(State::Canceled)
        } else if name == "passed"@ {
            Some(State::Passed)
        } else if name == "failed"@ {
            Some(State::Failed)
        } else if name == "errored"@ {
            Some(State::Errored)
        } else {
            None
        }
    }

    /// The state's name, in lower case.
    pub fn as_str(&self) -> (s: &'static str)
        ensures
            s@ == self.name(),
    {
        match self {
            State::Received => "received",
            State::Created => "created",
            State::Started => "started",
            State::Canceled => "canceled",
            State::Passed => "passed",
            State::Failed => "failed",
            State::Errored => "errored",
        }
    }

    /// The state's name, in lower case.
    pub fn to_string(&self) -> (s: String)
        ensures
            s@ == self.name(),
    {
        self.as_str().to_owned()
    }

    /// The state with the given name, if there is one.
    pub fn from_name(name: &str) -> (r: Option<State>)
        ensures
            r == State::named(name@),
    {
        if same(name, "received") {
            Some(State::Received)
        } else if same(name, "created") {
            Some(State::Created)
        } else if same(name, "started") {
            Some(State::Started)
        } else if same(name, "canceled") {
            Some(State::Canceled)
        } else if same(name, "passed") {
            Some(State::Passed)
        } else if same(name, "failed") {
            Some(State::Failed)
        } else if same(name, "errored") {
            Some(State::Errored)
        } else {
            None
        }
    }

    /// Every state is found again by its name.
    pub proof fn lemma_named_by_name(self)
        ensures
            State::named(self.name()) == Some(self),
    {
        reveal_strlit("received");
        reveal_strlit("created");
        reveal_strlit("started");
        reveal_strlit("canceled");
        reveal_strlit("passed");
        reveal_strlit("failed");
        reveal_strlit("errored");
        assert("received"@.len() == 8);
        assert("created"@.len() == 7);
        assert("started"@.len() == 7);
        assert("canceled"@.len() == 8);
        assert("passed"@.len() == 6);
        assert("failed"@.len() == 6);
        assert("errored"@.len() == 7);
        assert("received"@[0] == 'r');
        assert("created"@[0] == 'c');
        assert("started"@[0] == 's');
        assert("canceled"@[0] == 'c');
        assert("canceled"@[1] == 'a');
        assert("created"@[1] == 'r');
        assert("passed"@[0] == 'p');
        assert("failed"@[0] == 'f');
        assert("errored"@[0] == 'e');
    }
}

impl FromJson for State {
    open spec fn decoded(json: Json) -> Option<State> {
        match json {
            Json::Text(name) => State::named(name),
            _ => None,
        }
    }

    fn from_json(value: &Value) -> (r: Option<State>) {
        State::from_name(as_str(value)?)
    }
}

} // verus!
