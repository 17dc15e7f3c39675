//! The application state and its controller: a two-state machine driven by
//! two events, with at most one side-effecting command per step.

use vstd::prelude::*;
use crate::Item;

verus! {

/// The complete in-memory state: an optional ordered sequence of items.
/// Absent until a fetch completes; replaced wholesale on each completion.
#[derive(Debug, Clone)]
pub struct Model {
    pub items: Option<Vec<Item>>,
}

impl Default for Model {
    /// The initial state: no fetch has completed yet.
    fn default() -> (m: Model)
        ensures
            m@ is None,
    {
        Model { items: None }
    }
}

impl View for Model {
    type V = Option<Seq<Item>>;

    open spec fn view(&self) -> Option<Seq<Item>> {
        match self.items {
            Some(v) => Some(v@),
            None => None,
        }
    }
}

impl Model {
    /// State invariant: items are absent, or at most ten are present
    /// (the response is truncated before storage).
    pub open spec fn wf(&self) -> bool {
        match self@ {
            Some(items) => items.len() <= 10,
            None => true,
        }
    }
}

/// An event the controller can receive: either the startup trigger or the
/// completion of a fetch, carrying the shaped items.
#[derive(Debug, Clone, PartialEq)]
pub enum Msg {
    Fetching,
    Fetched(Vec<Item>),
}

/// The one side effect a step can request: issue the asynchronous request.
#[derive(Debug, Clone, Copy, PartialEq, Eq, Structural)]
pub enum Cmd {
    Fetch,
}

/// Startup: the initial (empty) state, and the event that is synthesized
/// automatically to begin the one fetch.
pub fn init() -> (r: (Model, Msg))
    ensures
        r.0@ is None,
        r.1 == Msg::Fetching,
{
    (Model { items: None }, Msg::Fetching)
}

/// One controller step: given an event and the current state, produce the
/// next state and zero or one commands. `Fetching` leaves the state as it
/// was and requests the network call; `Fetched` stores the payload.
pub fn update(msg: Msg, model: &mut Model) -> (cmd: Option<Cmd>)
    ensures
        match msg {
            Msg::Fetching => final(model)@ == old(model)@ && cmd == Some(Cmd::Fetch),
            Msg::Fetched(items) => final(model)@ == Some(items@) && cmd is None,
        },
{
    match msg {
        Msg::Fetching => Some(Cmd::Fetch),
        Msg::Fetched(items) => {
            model.items = Some(items);
            None
        }
    }
}

} // verus!
