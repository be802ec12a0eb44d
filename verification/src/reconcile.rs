//! One reconciliation run for one desired record: the planned calls, how far
//! they have gone, and how each provider response moves the run forward.
//! The embedding program sends the pending request and reports back the
//! response; every decision in between is made and proved here.

use vstd::prelude::*;
use crate::client::{
    HttpRequest, HttpRequestV, create_request, create_request_spec, delete_request,
    delete_request_spec, update_request, update_request_spec,
};
use crate::errors::{DdnsError, DdnsErrorV};
use crate::plan::{CallV, ProviderCall, UpsertMode, calls_view, plan_calls, plan_spec};
use crate::records::{DesiredRecord, ExistingRecord, snapshot_view};

verus! {

/// Why a run stopped short: the error — the transport failed outright, or
/// the provider answered with a non-200 status, whose body is kept verbatim
/// for diagnostics — together with the call that failed, so an operator can
/// see exactly what was left undone.
pub struct RunFailure {
    pub error: DdnsError,
    pub call: ProviderCall,
}

/// Mathematical image of a `RunFailure`.
pub struct RunFailureV {
    pub error: DdnsErrorV,
    pub call: CallV,
}

impl View for RunFailure {
    type V = RunFailureV;

    open spec fn view(&self) -> RunFailureV {
        RunFailureV { error: self.error@, call: self.call@ }
    }
}

/// The state of one run: the planned calls, the index of the next one to
/// issue, and the failure that stopped the run, if one did.
pub struct Reconciliation {
    pub domain: String,
    pub credential: String,
    pub calls: Vec<ProviderCall>,
    pub next: usize,
    pub failure: Option<RunFailure>,
}

/// Mathematical image of a `Reconciliation`.
pub struct ReconciliationV {
    pub domain: Seq<char>,
    pub credential: Seq<char>,
    pub calls: Seq<CallV>,
    pub next: int,
    pub failure: Option<RunFailureV>,
}

impl View for Reconciliation {
    type V = ReconciliationV;

    open spec fn view(&self) -> ReconciliationV {
        ReconciliationV {
            domain: self.domain@,
            credential: self.credential@,
            calls: calls_view(self.calls@),
            next: self.next as int,
            failure: match self.failure {
                Some(f) => Some(f@),
                None => None,
            },
        }
    }
}

/// The call a run still owes the provider: the next planned one, unless the
/// run has failed or every call is done.
pub open spec fn pending_call(v: ReconciliationV) -> Option<CallV> {
    if v.failure is None && v.next < v.calls.len() {
        Some(v.calls[v.next])
    } else {
        None
    }
}

/// The request that carries a call, under the run's domain and credential.
pub open spec fn request_for_call(v: ReconciliationV, c: CallV) -> HttpRequestV {
    match c {
        CallV::Create { desired } => create_request_spec(v.domain, v.credential, desired),
        CallV::Update { id, desired } => update_request_spec(v.domain, v.credential, id, desired),
        CallV::Delete { id } => delete_request_spec(v.domain, v.credential, id),
    }
}

/// How a provider response moves the run forward: a 200 completes the
/// pending call; anything else stops the run with an `Api` failure carrying
/// the status, the verbatim body, and the call that failed.
pub open spec fn step_response(v: ReconciliationV, status: u16, body: Seq<char>) ->
    ReconciliationV {
    if status == 200 {
        ReconciliationV { next: v.next + 1, ..v }
    } else {
        ReconciliationV {
            failure: Some(
                RunFailureV { error: DdnsErrorV::Api { status, body }, call: v.calls[v.next] },
            ),
            ..v
        }
    }
}

/// How a transport failure stops the run.
pub open spec fn step_transport_failure(v: ReconciliationV) -> ReconciliationV {
    ReconciliationV {
        failure: Some(RunFailureV { error: DdnsErrorV::Transport, call: v.calls[v.next] }),
        ..v
    }
}

/// A failed run never owes another call, and an `Api` failure keeps the
/// provider's response verbatim: once a mutating call is answered with a
/// non-200 status, no further call is made for this desired record, and the
/// failure carries the original status, body and call.
pub proof fn lemma_failure_halts_run(v: ReconciliationV, status: u16, body: Seq<char>)
    requires
        status != 200,
        pending_call(v) is Some,
    ensures
        pending_call(step_response(v, status, body)) is None,
        step_response(v, status, body).failure == Some(
            RunFailureV {
                error: DdnsErrorV::Api { status, body },
                call: pending_call(v).unwrap(),
            },
        ),
{
}

impl Reconciliation {
    /// The structural invariant: the run never points past its plan.
    pub open spec fn wf(&self) -> bool {
        self@.next <= self@.calls.len()
    }

    /// Begins a run: plans the calls for `desired` against the snapshot
    /// under `mode`, with nothing issued yet.
    pub fn begin(
        domain: &str,
        credential: &str,
        records: &Vec<ExistingRecord>,
        desired: &DesiredRecord,
        mode: UpsertMode,
    ) -> (r: Reconciliation)
        ensures
            r.wf(),
            r@.domain == domain@,
            r@.credential == credential@,
            r@.calls == plan_spec(snapshot_view(records@), desired@, mode),
            r@.next == 0,
            r@.failure is None,
    {
        Reconciliation {
            domain: domain.to_owned(),
            credential: credential.to_owned(),
            calls: plan_calls(records, desired, mode),
            next: 0,
            failure: None,
        }
    }

    /// The request the run still owes, or `None` once the run has finished
    /// or failed.
    pub fn next_request(&self) -> (r: Option<HttpRequest>)
        requires
            self.wf(),
        ensures
            match pending_call(self@) {
                Some(c) => r matches Some(req) && req@ == request_for_call(self@, c),
                None => r is None,
            },
    {
        if self.failure.is_some() || self.next >= self.calls.len() {
            return None;
        }
        let req = match &self.calls[self.next] {
            ProviderCall::Create { desired } => create_request(
                self.domain.as_str(),
                self.credential.as_str(),
                desired,
            ),
            ProviderCall::Update { id, desired } => update_request(
                self.domain.as_str(),
                self.credential.as_str(),
                *id,
                desired,
            ),
            ProviderCall::Delete { id } => delete_request(
                self.domain.as_str(),
                self.credential.as_str(),
                *id,
            ),
        };
        Some(req)
    }

    /// Reports the provider's response to the pending call.
    pub fn record_response(&mut self, status: u16, body: String)
        requires
            old(self).wf(),
            pending_call(old(self)@) is Some,
        ensures
            final(self).wf(),
            final(self)@ == step_response(old(self)@, status, body@),
    {
        if status == 200 {
            let n = self.calls.len();
            proof {
                assert(self@.calls.len() == self.calls@.len());
                assert(self.next < n);
            }
            self.next = self.next + 1;
        } else {
            let call = self.pending_call_copy();
            self.failure = Some(RunFailure { error: DdnsError::Api { status, body }, call });
        }
    }

    /// Reports that the transport failed before the pending call was
    /// answered.
    pub fn record_transport_failure(&mut self)
        requires
            old(self).wf(),
            pending_call(old(self)@) is Some,
        ensures
            final(self).wf(),
            final(self)@ == step_transport_failure(old(self)@),
    {
        let call = self.pending_call_copy();
        self.failure = Some(RunFailure { error: DdnsError::Transport, call });
    }

    /// An exact copy of the pending call, so a failure can carry the call
    /// that was being made.
    fn pending_call_copy(&self) -> (r: ProviderCall)
        requires
            self.wf(),
            pending_call(self@) is Some,
        ensures
            r@ == pending_call(self@).unwrap(),
    {
        match &self.calls[self.next] {
            ProviderCall::Create { desired } => (ProviderCall::Create {
                desired: desired.duplicate(),
            }),
            ProviderCall::Update { id, desired } => (ProviderCall::Update {
                id: *id,
                desired: desired.duplicate(),
            }),
            ProviderCall::Delete { id } => ProviderCall::Delete { id: *id },
        }
    }

    /// Whether every planned call has been answered with a 200.
    pub fn succeeded(&self) -> (b: bool)
        requires
            self.wf(),
        ensures
            b == (self@.failure is None && self@.next == self@.calls.len()),
    {
        self.failure.is_none() && self.next == self.calls.len()
    }
}

} // verus!
