//! The user's side of remote runs: numbering each run request and recording
//! the result kind asked for, so results can be handed back in that kind.
use vstd::prelude::*;
use std::collections::HashMap;
use crate::output::{kind_code, kind_of_name, output_kind, OutputKind};
use crate::protocol::{user_close, user_run, Body, Outgoing, RunCodePayload};
use crate::tasks::kind_for;

verus! {

broadcast use vstd::std_specs::hash::group_hash_axioms;

/// Why a run request was refused.
#[derive(Clone, Copy, Debug, PartialEq, Eq, Structural)]
pub enum RunCodeError {
    /// The requested result type is not one of the supported names.
    UnsupportedOutputType,
}

/// An accepted run request: its operator id and the message to send.
pub struct RunRequest {
    pub op_id: u64,
    pub message: Outgoing,
}

/// A user session: the event id under which its runs are sent, the ids of the
/// runs requested so far and the result type asked for each.
pub struct OcUser {
    task_array: Vec<u64>,
    run_code_event: u64,
    op_id: u64,
    expect_results: HashMap<u64, String>,
}

impl OcUser {
    /// Ids of the runs requested so far, in order.
    pub closed spec fn tasks(&self) -> Seq<u64> {
        self.task_array@
    }

    /// The event id of the session.
    pub closed spec fn event_id(&self) -> u64 {
        self.run_code_event
    }

    /// The id the next run will get.
    pub closed spec fn next_op(&self) -> u64 {
        self.op_id
    }

    /// The result type asked for each run id.
    pub closed spec fn expected(&self) -> Map<u64, String> {
        self.expect_results@
    }

    /// Runs are numbered from 0 in order of request, and every run has its
    /// result type recorded.
    pub open spec fn wf(&self) -> bool {
        &&& self.tasks() == Seq::new(self.next_op() as nat, |i: int| i as u64)
        &&& self.expected().dom() == Set::new(|k: u64| k < self.next_op())
    }

    /// A session under event id `run_code_event` with no runs yet.
    pub fn new(run_code_event: u64) -> (u: OcUser)
        ensures
            u.wf(),
            u.event_id() == run_code_event,
            u.next_op() == 0,
            u.expected() == Map::<u64, String>::empty(),
    {
        let u = OcUser {
            task_array: Vec::new(),
            run_code_event,
            op_id: 0,
            expect_results: HashMap::new(),
        };
        assert(u.tasks() =~= Seq::new(0, |i: int| i as u64));
        assert(u.expected().dom() =~= Set::new(|k: u64| k < 0));
        u
    }

    /// Requests a run of `call_func` on the arguments `args` (already written
    /// as JSON) with a result of type `output`. An unsupported type is refused
    /// and changes nothing; otherwise the run gets the next id, its type is
    /// recorded, and the run message is returned to be sent.
    pub fn run_code(&mut self, call_func: String, args: String, output: String) -> (r: Result<
        RunRequest,
        RunCodeError,
    >)
        requires
            old(self).wf(),
            old(self).next_op() < u64::MAX,
        ensures
            final(self).wf(),
            final(self).event_id() == old(self).event_id(),
            match kind_of_name(output@) {
                None => {
                    &&& r == Err::<RunRequest, RunCodeError>(RunCodeError::UnsupportedOutputType)
                    &&& final(self).next_op() == old(self).next_op()
                    &&& final(self).expected() == old(self).expected()
                },
                Some(k) => {
                    &&& r is Ok
                    &&& r->Ok_0.op_id == old(self).next_op()
                    &&& r->Ok_0.message.route@ == "user/run"@
                    &&& r->Ok_0.message.event_id == old(self).event_id()
                    &&& r->Ok_0.message.op_id == old(self).next_op()
                    &&& r->Ok_0.message.body == Body::RunCode(
                        RunCodePayload { func: call_func, output: kind_code(k) },
                    )
                    &&& r->Ok_0.message.big_payload == Some(args)
                    &&& final(self).next_op() == old(self).next_op() + 1
                    &&& final(self).expected() == old(self).expected().insert(
                        old(self).next_op(),
                        output,
                    )
                },
            },
    {
        let kind = match output_kind(output.as_str()) {
            Some(k) => k,
            None => {
                return Err(RunCodeError::UnsupportedOutputType);
            },
        };
        let id = self.op_id;
        let message = user_run(self.run_code_event, id, call_func, args, kind.code());
        self.task_array.push(id);
        self.expect_results.insert(id, output);
        self.op_id = id + 1;
        assert(self.tasks() =~= Seq::new(self.op_id as nat, |i: int| i as u64));
        assert(self.expected().dom() =~= Set::new(|k: u64| k < self.op_id));
        Ok(RunRequest { op_id: id, message })
    }

    /// The result type asked for each run id, to read results back with.
    pub fn expect_results(&self) -> (m: &HashMap<u64, String>)
        ensures
            m@ == self.expected(),
    {
        &self.expect_results
    }

    /// The ids of the runs requested so far.
    pub fn task_array(&self) -> (v: &Vec<u64>)
        ensures
            v@ == self.tasks(),
    {
        &self.task_array
    }

    /// The id the next run will get.
    pub fn op_id(&self) -> (n: u64)
        ensures
            n == self.next_op(),
    {
        self.op_id
    }

    /// The event id of the session.
    pub fn run_code_event(&self) -> (e: u64)
        ensures
            e == self.event_id(),
    {
        self.run_code_event
    }

    /// The message that ends the session.
    pub fn close(&self) -> (m: Outgoing)
        ensures
            m.route@ == "user/close"@,
            m.event_id == self.event_id(),
            m.op_id == 0,
            m.body matches Body::Text(t) && t@ == Seq::<char>::empty(),
            m.big_payload is None,
    {
        user_close(self.run_code_event)
    }
}

/// Runs are numbered 0, 1, 2, ... in order of request: the ids handed out so
/// far are exactly the numbers below the next id, each once, and each has its
/// result type recorded.
pub proof fn lemma_run_ids_are_sequential(u: OcUser, i: int)
    requires
        u.wf(),
        0 <= i < u.next_op(),
    ensures
        u.tasks().len() == u.next_op(),
        u.tasks()[i] == i,
        u.expected().contains_key(i as u64),
        !u.expected().contains_key(u.next_op()),
{
    assert(Set::new(|k: u64| k < u.next_op()).contains(i as u64));
}

/// A result comes back in the kind the run asked for: after an accepted run
/// request, the kind recorded for its id is the kind whose code the request
/// carries, and earlier runs keep theirs.
pub proof fn lemma_run_result_kind(
    expected: Map<u64, String>,
    id: u64,
    output: String,
    k: OutputKind,
    other: u64,
)
    requires
        kind_of_name(output@) == Some(k),
        other != id,
    ensures
        kind_for(expected.insert(id, output), id) == Some(k),
        kind_for(expected.insert(id, output), other) == kind_for(expected, other),
{
}

} // verus!
