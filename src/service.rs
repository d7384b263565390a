//! Service calls: how one response, or its absence, is classified, and the
//! fan-out over every reachable instance of a service, where each instance
//! is called and reported on independently of the others.

use vstd::prelude::*;

verus! {

/// The terminal outcome of one call to one instance.
#[derive(Debug, Clone, Copy, PartialEq, Eq, Structural)]
pub enum CallState {
    /// The server ran the method and answered with success.
    Executed,
    /// The server answered, but the method failed.
    Failed,
    /// No answer came within the timeout.
    Timeouted,
}

/// Identifies one server entity.
#[derive(Debug, Clone)]
pub struct ServiceIdentity {
    pub entity_id: u64,
    pub process_id: i32,
    pub host_name: String,
}

/// The server that produced a response.
#[derive(Debug, Clone)]
pub struct ServerId {
    pub service_id: ServiceIdentity,
}

/// The payload of a call.
#[derive(Debug, Clone)]
pub struct ServiceRequest {
    pub payload: Vec<u8>,
}

/// What a server sent back for one call.
#[derive(Debug, Clone)]
pub struct ServiceResponse {
    pub success: bool,
    pub payload: Vec<u8>,
    pub error_msg: Option<String>,
    pub server_id: ServerId,
}

/// The state of a call, from its response or the absence of one.
pub open spec fn state_of(r: Option<ServiceResponse>) -> CallState {
    match r {
        None => CallState::Timeouted,
        Some(s) => if s.success {
            CallState::Executed
        } else {
            CallState::Failed
        },
    }
}

/// Classifies a call by its response: no response is a timeout.
pub fn classify(r: &Option<ServiceResponse>) -> (s: CallState)
    ensures
        s == state_of(*r),
{
    match r {
        None => CallState::Timeouted,
        Some(resp) => if resp.success {
            CallState::Executed
        } else {
            CallState::Failed
        },
    }
}

/// The text reported with a failure: the server's message, or `Unknown`
/// where it sent none or an empty one.
pub open spec fn failure_text(e: Option<String>) -> Seq<char> {
    match e {
        Some(m) => if m@.len() > 0 {
            m@
        } else {
            "Unknown"@
        },
        None => "Unknown"@,
    }
}

/// The outcome of one call, as reported to the caller.
#[derive(Debug, Clone)]
pub enum CallOutcome {
    Executed { payload: Vec<u8>, entity_id: u64 },
    Failed { error_msg: String, entity_id: u64 },
    Timeouted,
}

impl View for CallOutcome {
    type V = (CallState, Seq<u8>, Seq<char>, u64);

    open spec fn view(&self) -> Self::V {
        match self {
            CallOutcome::Executed { payload, entity_id } => (
                CallState::Executed,
                payload@,
                Seq::empty(),
                *entity_id,
            ),
            CallOutcome::Failed { error_msg, entity_id } => (
                CallState::Failed,
                Seq::empty(),
                error_msg@,
                *entity_id,
            ),
            CallOutcome::Timeouted => (CallState::Timeouted, Seq::empty(), Seq::empty(), 0),
        }
    }
}

/// The outcome that a response, or its absence, stands for.
pub open spec fn expected_outcome(r: Option<ServiceResponse>) -> (CallState, Seq<u8>, Seq<char>, u64) {
    match r {
        None => (CallState::Timeouted, Seq::empty(), Seq::empty(), 0),
        Some(s) => if s.success {
            (CallState::Executed, s.payload@, Seq::empty(), s.server_id.service_id.entity_id)
        } else {
            (
                CallState::Failed,
                Seq::empty(),
                failure_text(s.error_msg),
                s.server_id.service_id.entity_id,
            )
        },
    }
}

/// Turns a response, or its absence, into the outcome reported for it.
pub fn outcome_of(r: Option<ServiceResponse>) -> (o: CallOutcome)
    ensures
        o@ == expected_outcome(r),
        o@.0 == state_of(r),
{
    match r {
        None => CallOutcome::Timeouted,
        Some(s) => {
            let id = s.server_id.service_id.entity_id;
            if s.success {
                CallOutcome::Executed { payload: s.payload, entity_id: id }
            } else {
                let text = match s.error_msg {
                    Some(m) => if m.as_str().unicode_len() > 0 {
                        m
                    } else {
                        "Unknown".to_string()
                    },
                    None => "Unknown".to_string(),
                };
                CallOutcome::Failed { error_msg: text, entity_id: id }
            }
        },
    }
}

/// The outcomes of a fan-out whose calls got the responses `rs`, in order.
pub open spec fn fan_out_outcomes(rs: Seq<Option<ServiceResponse>>) -> Seq<
    (CallState, Seq<u8>, Seq<char>, u64),
> {
    rs.map_values(|r: Option<ServiceResponse>| expected_outcome(r))
}

/// One round of calls over a snapshot of `instance_count` instances: the
/// instance to call next, and the outcomes reported so far.
pub struct FanOut {
    instance_count: usize,
    outcomes: Vec<CallOutcome>,
}

impl FanOut {
    /// No more outcomes than instances.
    pub closed spec fn wf(&self) -> bool {
        self.outcomes.len() <= self.instance_count
    }

    /// The number of instances in the snapshot.
    pub closed spec fn count(&self) -> nat {
        self.instance_count as nat
    }

    /// The outcomes reported so far, one per instance called.
    pub closed spec fn reported(&self) -> Seq<(CallState, Seq<u8>, Seq<char>, u64)> {
        self.outcomes@.map_values(|o: CallOutcome| o@)
    }

    /// A round over `instance_count` instances, none called yet.
    pub fn new(instance_count: usize) -> (r: FanOut)
        ensures
            r.wf(),
            r.count() == instance_count,
            r.reported() == Seq::<(CallState, Seq<u8>, Seq<char>, u64)>::empty(),
    {
        let r = FanOut { instance_count, outcomes: Vec::new() };
        assert(r.reported() =~= Seq::empty());
        r
    }

    /// The instance to call next: the first one not yet called, whatever
    /// the earlier calls gave; none once every instance has been called.
    pub fn next_call(&self) -> (r: Option<usize>)
        requires
            self.wf(),
        ensures
            r == if self.reported().len() < self.count() {
                Some(self.reported().len() as usize)
            } else {
                None::<usize>
            },
    {
        if self.outcomes.len() < self.instance_count {
            Some(self.outcomes.len())
        } else {
            None
        }
    }

    /// Records what the call to the current instance gave.
    pub fn record(&mut self, r: Option<ServiceResponse>)
        requires
            old(self).wf(),
            old(self).reported().len() < old(self).count(),
        ensures
            final(self).wf(),
            final(self).count() == old(self).count(),
            final(self).reported() == old(self).reported().push(expected_outcome(r)),
    {
        let o = outcome_of(r);
        self.outcomes.push(o);
        assert(self.reported() =~= old(self).reported().push(expected_outcome(r)));
    }

    /// Whether every instance has been called.
    pub fn is_done(&self) -> (r: bool)
        requires
            self.wf(),
        ensures
            r == (self.reported().len() == self.count()),
    {
        self.outcomes.len() == self.instance_count
    }

    /// The outcomes, one per instance called, in calling order.
    pub fn into_outcomes(self) -> (r: Vec<CallOutcome>)
        ensures
            r@.map_values(|o: CallOutcome| o@) == self.reported(),
    {
        self.outcomes
    }
}

/// Outcomes for responses that were all gathered already, one per instance.
pub fn collect_outcomes(rs: Vec<Option<ServiceResponse>>) -> (r: Vec<CallOutcome>)
    ensures
        r@.map_values(|o: CallOutcome| o@) == fan_out_outcomes(rs@),
{
    let ghost all = rs@;
    let mut rest = rs;
    let mut fan = FanOut::new(rest.len());
    while rest.len() > 0
        invariant
            fan.wf(),
            fan.count() == all.len(),
            fan.reported().len() + rest@.len() == all.len(),
            rest@ == all.subrange(fan.reported().len() as int, all.len() as int),
            fan.reported() == fan_out_outcomes(all.subrange(0, fan.reported().len() as int)),
        decreases rest@.len(),
    {
        let ghost k = fan.reported().len() as int;
        let r = rest.remove(0);
        assert(r == all[k]);
        fan.record(r);
        assert(all.subrange(0, k + 1) =~= all.subrange(0, k).push(all[k]));
        assert(fan_out_outcomes(all.subrange(0, k + 1)) =~= fan_out_outcomes(all.subrange(0, k)).push(expected_outcome(all[k])));
        assert(rest@ =~= all.subrange(k + 1, all.len() as int));
    }
    assert(all.subrange(0, all.len() as int) =~= all);
    fan.into_outcomes()
}

/// Fan-out independence: the outcome reported for each instance is the one
/// its own response stands for, whatever the other instances gave; a failed
/// or timed-out call leaves the others' outcomes as they are.
pub proof fn lemma_fan_out_independent(rs: Seq<Option<ServiceResponse>>, i: int, other: Option<ServiceResponse>, j: int)
    requires
        0 <= i < rs.len(),
        0 <= j < rs.len(),
        j != i,
    ensures
        fan_out_outcomes(rs).len() == rs.len(),
        fan_out_outcomes(rs)[i] == expected_outcome(rs[i]),
        fan_out_outcomes(rs.update(j, other))[i] == fan_out_outcomes(rs)[i],
{
}

} // verus!
