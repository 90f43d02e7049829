//! The run machine: sequences one reconciliation run over the declared
//! records, strictly in declaration order. The caller performs each pending
//! HTTP operation and feeds its outcome back; every decision in between is
//! made here. Any failure halts the run with later records untouched.

use vstd::prelude::*;
use crate::errors::DdnsError;
use crate::errors::DdnsErrorV;
use crate::probe::clean_probe_body;
use crate::provider::ListEnvelope;
use crate::provider::ListEnvelopeV;
use crate::provider::RecordEnvelope;
use crate::provider::RecordEnvelopeV;
use crate::provider::spec_interpret_list;
use crate::provider::spec_interpret_single;
use crate::provider::interpret_list;
use crate::provider::interpret_single;
use crate::reconcile::Action;
use crate::reconcile::ActionV;
use crate::reconcile::Decision;
use crate::reconcile::DecisionV;
use crate::reconcile::decide;
use crate::reconcile::spec_decide;
use crate::records::Family;
use crate::records::RecordConfig;
use crate::records::RecordConfigV;
use crate::records::RecordPayload;
use crate::records::RecordPayloadV;
use crate::text::spec_trim;

verus! {

/// Where the machine stands within the current record.
pub enum Phase {
    /// The public IP of the record's family must be probed.
    Probe,
    /// The provider's listing for (name, type) must be fetched; `observed`
    /// is the probed IP.
    List { observed: String },
    /// The decided mutation must be sent to the provider.
    Mutate { action: Action },
    /// Every record was reconciled.
    Done,
    /// The run halted on this error.
    Failed { error: DdnsError },
}

/// Ghost model of a `Phase`.
pub ghost enum PhaseV {
    Probe,
    List { observed: Seq<char> },
    Mutate { action: ActionV },
    Done,
    Failed { error: DdnsErrorV },
}

impl View for Phase {
    type V = PhaseV;

    open spec fn view(&self) -> PhaseV {
        match self {
            Phase::Probe => PhaseV::Probe,
            Phase::List { observed } => PhaseV::List { observed: observed@ },
            Phase::Mutate { action } => PhaseV::Mutate { action: action@ },
            Phase::Done => PhaseV::Done,
            Phase::Failed { error } => PhaseV::Failed { error: error@ },
        }
    }
}

/// Ghost model of a `Reconciler`.
pub ghost struct ReconcilerV {
    pub specs: Seq<RecordConfigV>,
    pub idx: int,
    pub phase: PhaseV,
}

impl ReconcilerV {
    /// The machine's invariant: the index stays within the declared
    /// records, points at a real record while one is in progress, and is
    /// past them all exactly when the run is done.
    pub open spec fn wf(self) -> bool {
        0 <= self.idx <= self.specs.len() && match self.phase {
            PhaseV::Probe => self.idx < self.specs.len(),
            PhaseV::List { .. } => self.idx < self.specs.len(),
            PhaseV::Mutate { .. } => self.idx < self.specs.len(),
            PhaseV::Done => self.idx == self.specs.len(),
            PhaseV::Failed { .. } => true,
        }
    }
}

/// Halting: the phase becomes `Failed` and the index freezes.
pub open spec fn fail_state(st: ReconcilerV, e: DdnsErrorV) -> ReconcilerV {
    ReconcilerV { phase: PhaseV::Failed { error: e }, ..st }
}

/// Moving to the next record, or to `Done` past the last one.
pub open spec fn advance_state(st: ReconcilerV) -> ReconcilerV {
    ReconcilerV {
        idx: st.idx + 1,
        phase: if st.idx + 1 == st.specs.len() {
            PhaseV::Done
        } else {
            PhaseV::Probe
        },
        ..st
    }
}

/// What a probe outcome does to the machine: a transport failure halts;
/// otherwise the body is trimmed, an empty result halts, and a non-empty
/// one becomes the observed IP awaiting the listing.
pub open spec fn spec_probe_step(st: ReconcilerV, outcome: Result<Seq<char>, Seq<char>>) -> ReconcilerV {
    match outcome {
        Err(m) => fail_state(st, DdnsErrorV::ProbeTransport(m)),
        Ok(body) => {
            let w = spec_trim(body);
            if w.len() == 0 {
                fail_state(st, DdnsErrorV::EmptyResponse)
            } else {
                ReconcilerV { phase: PhaseV::List { observed: w }, ..st }
            }
        },
    }
}

/// What a list outcome does to the machine: a transport failure or a
/// refused envelope halts; an accepted listing goes through the decision
/// table, which either advances past an up-to-date record, schedules the
/// decided mutation, or halts.
pub open spec fn spec_list_step(st: ReconcilerV, outcome: Result<ListEnvelopeV, Seq<char>>) -> ReconcilerV {
    match st.phase {
        PhaseV::List { observed } => match outcome {
            Err(m) => fail_state(st, DdnsErrorV::ProviderTransport(m)),
            Ok(env) => match spec_interpret_list(env) {
                Err(e) => fail_state(st, e),
                Ok(records) => match spec_decide(st.specs[st.idx], observed, records) {
                    Err(e) => fail_state(st, e),
                    Ok(DecisionV::UpToDate) => advance_state(st),
                    Ok(DecisionV::Apply(a)) => ReconcilerV {
                        phase: PhaseV::Mutate { action: a },
                        ..st
                    },
                },
            },
        },
        _ => st,
    }
}

/// What a mutation outcome does to the machine: a transport failure or a
/// refused envelope halts; an accepted one finishes the record.
pub open spec fn spec_mutate_step(st: ReconcilerV, outcome: Result<RecordEnvelopeV, Seq<char>>) -> ReconcilerV {
    match outcome {
        Err(m) => fail_state(st, DdnsErrorV::ProviderTransport(m)),
        Ok(env) => match spec_interpret_single(env) {
            Err(e) => fail_state(st, e),
            Ok(_) => advance_state(st),
        },
    }
}

/// Ghost model of a probe outcome handed to the machine.
pub open spec fn body_outcome_view(outcome: Result<String, String>) -> Result<Seq<char>, Seq<char>> {
    match outcome {
        Ok(s) => Ok(s@),
        Err(m) => Err(m@),
    }
}

/// Ghost model of a list outcome handed to the machine.
pub open spec fn list_outcome_view(outcome: Result<ListEnvelope, String>) -> Result<
    ListEnvelopeV,
    Seq<char>,
> {
    match outcome {
        Ok(env) => Ok(env@),
        Err(m) => Err(m@),
    }
}

/// Ghost model of a mutation outcome handed to the machine.
pub open spec fn record_outcome_view(outcome: Result<RecordEnvelope, String>) -> Result<
    RecordEnvelopeV,
    Seq<char>,
> {
    match outcome {
        Ok(env) => Ok(env@),
        Err(m) => Err(m@),
    }
}

/// The operation the caller must perform next.
pub enum Op {
    /// GET the public IP of this family.
    Probe { family: Family },
    /// GET the provider's listing for (name, type).
    List { name: String, family: Family },
    /// POST this payload.
    Create { payload: RecordPayload },
    /// PATCH the record with this id, with this payload.
    Update { id: String, payload: RecordPayload },
    /// The run finished: every record was reconciled.
    Finished,
    /// The run halted on this error.
    Halted { error: DdnsError },
}

/// Ghost model of an `Op`.
pub ghost enum OpV {
    Probe { family: Family },
    List { name: Seq<char>, family: Family },
    Create { payload: RecordPayloadV },
    Update { id: Seq<char>, payload: RecordPayloadV },
    Finished,
    Halted { error: DdnsErrorV },
}

impl View for Op {
    type V = OpV;

    open spec fn view(&self) -> OpV {
        match self {
            Op::Probe { family } => OpV::Probe { family: *family },
            Op::List { name, family } => OpV::List { name: name@, family: *family },
            Op::Create { payload } => OpV::Create { payload: payload@ },
            Op::Update { id, payload } => OpV::Update { id: id@, payload: payload@ },
            Op::Finished => OpV::Finished,
            Op::Halted { error } => OpV::Halted { error: error@ },
        }
    }
}

/// The operation a machine state asks for. While a record is in progress
/// the probe is always asked first, then the listing, then at most one
/// mutation.
pub open spec fn next_op_of(st: ReconcilerV) -> OpV {
    match st.phase {
        PhaseV::Probe => OpV::Probe { family: st.specs[st.idx].family },
        PhaseV::List { .. } => OpV::List {
            name: st.specs[st.idx].name,
            family: st.specs[st.idx].family,
        },
        PhaseV::Mutate { action } => match action {
            ActionV::Create { payload } => OpV::Create { payload },
            ActionV::Update { id, payload } => OpV::Update { id, payload },
        },
        PhaseV::Done => OpV::Finished,
        PhaseV::Failed { error } => OpV::Halted { error },
    }
}

/// The run machine. One value of this type drives one whole run.
pub struct Reconciler {
    pub specs: Vec<RecordConfig>,
    pub idx: usize,
    pub phase: Phase,
}

impl View for Reconciler {
    type V = ReconcilerV;

    open spec fn view(&self) -> ReconcilerV {
        ReconcilerV {
            specs: self.specs@.map_values(|r: RecordConfig| r@),
            idx: self.idx as int,
            phase: self.phase@,
        }
    }
}

impl Reconciler {
    /// Starts a run over the declared records, in their order.
    pub fn new(specs: Vec<RecordConfig>) -> (r: Self)
        ensures
            r@.specs == specs@.map_values(|s: RecordConfig| s@),
            r@.idx == 0,
            specs@.len() == 0 ==> r@.phase is Done,
            specs@.len() > 0 ==> r@.phase is Probe,
            r@.wf(),
    {
        let phase = if specs.len() == 0 {
            Phase::Done
        } else {
            Phase::Probe
        };
        Reconciler { specs, idx: 0, phase }
    }

    /// The operation to perform next.
    pub fn next_op(&self) -> (op: Op)
        requires
            self@.wf(),
        ensures
            op@ == next_op_of(self@),
    {
        match &self.phase {
            Phase::Probe => Op::Probe { family: self.specs[self.idx].family },
            Phase::List { .. } => Op::List {
                name: self.specs[self.idx].name.clone(),
                family: self.specs[self.idx].family,
            },
            Phase::Mutate { action } => match action.duplicate() {
                Action::Create { payload } => Op::Create { payload },
                Action::Update { id, payload } => Op::Update { id, payload },
            },
            Phase::Done => Op::Finished,
            Phase::Failed { error } => Op::Halted { error: error.duplicate() },
        }
    }

    /// Feeds back a probe outcome: `Ok` carries the raw response body,
    /// `Err` the transport's message.
    pub fn probe_done(&mut self, outcome: Result<String, String>)
        requires
            old(self)@.wf(),
            old(self)@.phase is Probe,
        ensures
            final(self)@ == spec_probe_step(old(self)@, body_outcome_view(outcome)),
            final(self)@.wf(),
    {
        match outcome {
            Err(m) => {
                self.phase = Phase::Failed { error: DdnsError::ProbeTransport(m) };
            },
            Ok(body) => match clean_probe_body(body.as_str()) {
                Err(e) => {
                    self.phase = Phase::Failed { error: e };
                },
                Ok(ip) => {
                    self.phase = Phase::List { observed: ip };
                },
            },
        }
    }

    /// Feeds back a list outcome: `Ok` carries the decoded envelope, `Err`
    /// the transport's message.
    pub fn list_done(&mut self, outcome: Result<ListEnvelope, String>)
        requires
            old(self)@.wf(),
            old(self)@.phase is List,
        ensures
            final(self)@ == spec_list_step(old(self)@, list_outcome_view(outcome)),
            final(self)@.wf(),
    {
        match outcome {
            Err(m) => {
                self.phase = Phase::Failed { error: DdnsError::ProviderTransport(m) };
            },
            Ok(env) => match interpret_list(env) {
                Err(e) => {
                    self.phase = Phase::Failed { error: e };
                },
                Ok(records) => {
                    let decision = match &self.phase {
                        Phase::List { observed } => decide(
                            &self.specs[self.idx],
                            observed,
                            &records,
                        ),
                        // not reachable: the precondition pins the phase
                        _ => Err(DdnsError::MissingResult),
                    };
                    match decision {
                        Err(e) => {
                            self.phase = Phase::Failed { error: e };
                        },
                        Ok(Decision::UpToDate) => {
                            let n = self.specs.len();
                            proof {
                                assert(self@.idx < self@.specs.len());
                                assert(self@.specs.len() == n as int);
                            }
                            self.idx = self.idx + 1;
                            if self.idx == self.specs.len() {
                                self.phase = Phase::Done;
                            } else {
                                self.phase = Phase::Probe;
                            }
                        },
                        Ok(Decision::Apply(action)) => {
                            self.phase = Phase::Mutate { action };
                        },
                    }
                },
            },
        }
    }

    /// Feeds back a create/update outcome: `Ok` carries the decoded
    /// envelope, `Err` the transport's message.
    pub fn mutate_done(&mut self, outcome: Result<RecordEnvelope, String>)
        requires
            old(self)@.wf(),
            old(self)@.phase is Mutate,
        ensures
            final(self)@ == spec_mutate_step(old(self)@, record_outcome_view(outcome)),
            final(self)@.wf(),
    {
        match outcome {
            Err(m) => {
                self.phase = Phase::Failed { error: DdnsError::ProviderTransport(m) };
            },
            Ok(env) => match interpret_single(env) {
                Err(e) => {
                    self.phase = Phase::Failed { error: e };
                },
                Ok(_) => {
                    let n = self.specs.len();
                    proof {
                        assert(self@.idx < self@.specs.len());
                        assert(self@.specs.len() == n as int);
                    }
                    self.idx = self.idx + 1;
                    if self.idx == self.specs.len() {
                        self.phase = Phase::Done;
                    } else {
                        self.phase = Phase::Probe;
                    }
                },
            },
        }
    }
}

} // verus!
