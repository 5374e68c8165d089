//! The per-connection protocol logic: what a freshly accepted client is sent
//! first, and how one inbound command drives the state store, the command
//! translator and the radio dispatch queue.

use vstd::prelude::*;

use crate::config::Light;
use crate::dispatcher::RadioDispatcher;
use crate::protocol::{merge_state, Command, Response, ResponseType, State};
use crate::store::StateStore;
use crate::translate::{translate_spec, update_light, LightCommand};

verus! {

/// Builds the `ok` acknowledgement of a processed command.
pub fn ok_response() -> (r: Response)
    ensures
        r.response == ResponseType::OK,
        r.error is None,
        r.state is None,
{
    Response { response: ResponseType::OK, error: None, state: None }
}

/// Builds an `err` response carrying a message.
pub fn err_response(message: String) -> (r: Response)
    ensures
        r.response == ResponseType::Error,
        r.error == Some(message),
        r.state is None,
{
    Response { response: ResponseType::Error, error: Some(message), state: None }
}

/// Builds the `state` response carrying a full snapshot.
pub fn state_response(snapshot: Vec<State>) -> (r: Response)
    ensures
        r.response == ResponseType::State,
        r.error is None,
        r.state == Some(snapshot),
{
    Response { response: ResponseType::State, error: None, state: Some(snapshot) }
}

/// The greeting owed to every new connection: a `state` response holding the
/// full snapshot of every light merged so far.
pub fn hello_response(store: &StateStore) -> (r: Response)
    ensures
        r.response == ResponseType::State,
        r.error is None,
        r.state matches Some(v) && v@ == store@,
{
    state_response(store.snapshot())
}

/// The store contents after one inbound command: the addressed light merged
/// with the patch, every other light untouched; an out-of-range index
/// changes nothing.
pub open spec fn store_after(states: Seq<State>, cmd: Command) -> Seq<State> {
    if (cmd.idx as int) < states.len() {
        states.update(cmd.idx as int, merge_state(states[cmd.idx as int], cmd.state))
    } else {
        states
    }
}

/// What one inbound command puts on the dispatch queue: the merged state's
/// translation, routed to the addressed light's radio address, or nothing if
/// the index is out of range or the merged state is still incomplete.
pub open spec fn command_effect(states: Seq<State>, lights: Seq<Light>, cmd: Command) -> Option<
    (u16, LightCommand),
> {
    if (cmd.idx as int) < states.len() && states.len() == lights.len() {
        match translate_spec(store_after(states, cmd)[cmd.idx as int]) {
            Some(c) => Some((lights[cmd.idx as int].address, c)),
            None => None,
        }
    } else {
        None
    }
}

/// Processes one inbound command: merges the patch into the store, and if
/// the merged state now translates to a radio command, enqueues it for the
/// addressed light. Replies `ok` exactly when the index addressed a
/// configured light and `err` otherwise, in which case nothing changes.
pub fn handle_command(
    lights: &Vec<Light>,
    store: &mut StateStore,
    dispatcher: &mut RadioDispatcher,
    cmd: &Command,
) -> (r: Response)
    requires
        old(store)@.len() == lights@.len(),
    ensures
        final(store)@ == store_after(old(store)@, *cmd),
        final(dispatcher).transmitted() == old(dispatcher).transmitted(),
        match command_effect(old(store)@, lights@, *cmd) {
            Some(e) => final(dispatcher).queued() == old(dispatcher).queued().push(e),
            None => final(dispatcher).queued() == old(dispatcher).queued(),
        },
        (cmd.idx as int) < lights@.len() ==> (r.response == ResponseType::OK && r.error is None
            && r.state is None),
        (cmd.idx as int) >= lights@.len() ==> (r.response == ResponseType::Error
            && r.error is Some && r.state is None),
{
    let idx = cmd.idx as usize;
    match store.merge(idx, &cmd.state) {
        Ok(_) => {
            let merged = store.get(idx);
            if let Some(light_cmd) = update_light(&merged) {
                dispatcher.enqueue(lights[idx].address, light_cmd);
            }
            ok_response()
        },
        Err(e) => err_response(e.message()),
    }
}

/// The response-ordering state of one client connection: whether the
/// greeting has gone out, and (as ghost history) every response written so
/// far, oldest first.
pub struct Session {
    greeted: bool,
    log: Ghost<Seq<Response>>,
}

impl Session {
    /// Every response this connection has produced, in order.
    pub closed spec fn sent(self) -> Seq<Response> {
        self.log@
    }

    /// Whether the connection has been greeted with the snapshot.
    pub closed spec fn started(self) -> bool {
        self.greeted
    }

    /// The connection discipline: the first response, and only the first, is
    /// the full `state` snapshot; nothing else goes out before it.
    pub open spec fn wf(self) -> bool {
        &&& self.started() <==> self.sent().len() >= 1
        &&& forall|i: int|
            0 <= i < self.sent().len() ==> ((self.sent()[i].response == ResponseType::State) <==> i
                == 0)
    }

    /// Opens the bookkeeping for a newly accepted connection.
    pub fn new() -> (s: Session)
        ensures
            s.wf(),
            !s.started(),
            s.sent() == Seq::<Response>::empty(),
    {
        Session { greeted: false, log: Ghost(Seq::empty()) }
    }

    /// Sends the mandatory first response: the full snapshot of every light,
    /// reflecting all updates merged before this connection was accepted.
    pub fn greet(&mut self, store: &StateStore) -> (r: Response)
        requires
            !old(self).started(),
            old(self).wf(),
        ensures
            final(self).wf(),
            final(self).started(),
            r.response == ResponseType::State,
            r.error is None,
            r.state matches Some(v) && v@ == store@,
            final(self).sent() == old(self).sent().push(r),
    {
        let r = hello_response(store);
        self.greeted = true;
        proof {
            self.log@ = self.log@.push(r);
        }
        r
    }

    /// Processes one inbound line on a greeted connection, exactly as
    /// `handle_command`, and records the `ok` or `err` reply — never another
    /// snapshot — in the response history.
    pub fn handle_line(
        &mut self,
        lights: &Vec<Light>,
        store: &mut StateStore,
        dispatcher: &mut RadioDispatcher,
        cmd: &Command,
    ) -> (r: Response)
        requires
            old(self).started(),
            old(self).wf(),
            old(store)@.len() == lights@.len(),
        ensures
            final(self).wf(),
            final(self).started(),
            final(self).sent() == old(self).sent().push(r),
            r.response != ResponseType::State,
            final(store)@ == store_after(old(store)@, *cmd),
            final(dispatcher).transmitted() == old(dispatcher).transmitted(),
            match command_effect(old(store)@, lights@, *cmd) {
                Some(e) => final(dispatcher).queued() == old(dispatcher).queued().push(e),
                None => final(dispatcher).queued() == old(dispatcher).queued(),
            },
            (cmd.idx as int) < lights@.len() ==> (r.response == ResponseType::OK && r.error is None
                && r.state is None),
            (cmd.idx as int) >= lights@.len() ==> (r.response == ResponseType::Error
                && r.error is Some && r.state is None),
    {
        let r = handle_command(lights, store, dispatcher, cmd);
        proof {
            self.log@ = self.log@.push(r);
        }
        r
    }
}

/// The connection-ordering law: a client always receives the full `state`
/// response first — every `ok` or `err` reply comes strictly after it, and
/// no later response is ever another snapshot push.
pub proof fn lemma_state_response_first(s: Session)
    requires
        s.wf(),
        s.sent().len() > 0,
    ensures
        s.sent()[0].response == ResponseType::State,
        forall|i: int| 1 <= i < s.sent().len() ==> s.sent()[i].response != ResponseType::State,
{
}

} // verus!
