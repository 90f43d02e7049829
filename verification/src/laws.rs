//! The laws of a run, stated over a ghost trace of the outward calls that
//! reconciliation makes. The trace is built from the same decision
//! functions the run machine's contracts use: trimming, envelope
//! interpretation, and the decision table.

use vstd::prelude::*;
use crate::config::ConfigV;
use crate::errors::DdnsErrorV;
use crate::machine::PhaseV;
use crate::machine::ReconcilerV;
use crate::machine::advance_state;
use crate::machine::spec_list_step;
use crate::machine::spec_mutate_step;
use crate::machine::spec_probe_step;
use crate::provider::ListEnvelopeV;
use crate::provider::RecordEnvelopeV;
use crate::provider::spec_interpret_list;
use crate::provider::spec_interpret_single;
use crate::reconcile::ActionV;
use crate::reconcile::DecisionV;
use crate::reconcile::spec_decide;
use crate::records::DnsRecordV;
use crate::records::Family;
use crate::records::RecordConfigV;
use crate::records::RecordPayloadV;
use crate::text::spec_trim;

verus! {

/// One outward call of a run.
pub ghost enum CallV {
    Probe { family: Family },
    List { name: Seq<char>, family: Family },
    Create { payload: RecordPayloadV },
    Update { id: Seq<char>, payload: RecordPayloadV },
}

/// Whether a call mutates provider state.
pub open spec fn is_mutating(c: CallV) -> bool {
    c is Create || c is Update
}

/// The call a decided action issues.
pub open spec fn call_of(a: ActionV) -> CallV {
    match a {
        ActionV::Create { payload } => CallV::Create { payload },
        ActionV::Update { id, payload } => CallV::Update { id, payload },
    }
}

/// The outside outcomes that one record's reconciliation may consume: the
/// probe reply (raw body, or a transport failure), the list reply, and the
/// reply to the mutation if one is sent.
pub ghost struct StepOracle {
    pub probe: Result<Seq<char>, Seq<char>>,
    pub list: Result<ListEnvelopeV, Seq<char>>,
    pub mutate: Result<RecordEnvelopeV, Seq<char>>,
}

/// The calls one record's reconciliation makes: the probe always, the
/// listing if the probe yielded an address, and then whatever single
/// mutation the decision table picked, if any.
pub open spec fn seg_calls(sp: RecordConfigV, o: StepOracle) -> Seq<CallV> {
    let probe_only = seq![CallV::Probe { family: sp.family }];
    if !(o.probe is Ok) {
        probe_only
    } else {
        let w = spec_trim(o.probe->Ok_0);
        if w.len() == 0 {
            probe_only
        } else {
            let through_list = probe_only + seq![
                CallV::List { name: sp.name, family: sp.family },
            ];
            if !(o.list is Ok) {
                through_list
            } else {
                match spec_interpret_list(o.list->Ok_0) {
                    Err(_) => through_list,
                    Ok(records) => match spec_decide(sp, w, records) {
                        Err(_) => through_list,
                        Ok(DecisionV::UpToDate) => through_list,
                        Ok(DecisionV::Apply(a)) => through_list + seq![call_of(a)],
                    },
                }
            }
        }
    }
}

/// Whether one record's reconciliation ran to completion.
pub open spec fn seg_ok(sp: RecordConfigV, o: StepOracle) -> bool {
    &&& o.probe is Ok
    &&& spec_trim(o.probe->Ok_0).len() > 0
    &&& o.list is Ok
    &&& spec_interpret_list(o.list->Ok_0) is Ok
    &&& match spec_decide(
        sp,
        spec_trim(o.probe->Ok_0),
        spec_interpret_list(o.list->Ok_0)->Ok_0,
    ) {
        Err(_) => false,
        Ok(DecisionV::UpToDate) => true,
        Ok(DecisionV::Apply(_)) => o.mutate is Ok && spec_interpret_single(
            o.mutate->Ok_0,
        ) is Ok,
    }
}

/// The calls a whole run makes: records strictly in declaration order, and
/// nothing past the first record whose reconciliation fails.
pub open spec fn run_calls(specs: Seq<RecordConfigV>, os: Seq<StepOracle>) -> Seq<CallV>
    decreases specs.len(),
{
    if specs.len() == 0 || os.len() == 0 {
        Seq::empty()
    } else {
        let head = seg_calls(specs[0], os[0]);
        if seg_ok(specs[0], os[0]) {
            head + run_calls(specs.drop_first(), os.drop_first())
        } else {
            head
        }
    }
}

/// The machine's state after one record is driven through it: the probe
/// outcome first, the list outcome if the probe yielded an address, and
/// the mutation outcome if a mutation was scheduled.
pub open spec fn seg_final_state(st: ReconcilerV, o: StepOracle) -> ReconcilerV {
    let st1 = spec_probe_step(st, o.probe);
    if !(st1.phase is List) {
        st1
    } else {
        let st2 = spec_list_step(st1, o.list);
        if st2.phase is Mutate {
            spec_mutate_step(st2, o.mutate)
        } else {
            st2
        }
    }
}

/// The calls the machine requests while one record is driven through it:
/// what `next_op` asks for at each state it passes.
pub open spec fn machine_seg_calls(st: ReconcilerV, o: StepOracle) -> Seq<CallV> {
    let probe_only = seq![CallV::Probe { family: st.specs[st.idx].family }];
    let st1 = spec_probe_step(st, o.probe);
    if !(st1.phase is List) {
        probe_only
    } else {
        let through_list = probe_only + seq![
            CallV::List { name: st.specs[st.idx].name, family: st.specs[st.idx].family },
        ];
        let st2 = spec_list_step(st1, o.list);
        match st2.phase {
            PhaseV::Mutate { action } => through_list + seq![call_of(action)],
            _ => through_list,
        }
    }
}

/// The run machine follows the trace model, record by record: the calls it
/// requests for the current record are exactly the record's trace, it
/// advances to the next record exactly when the segment succeeds, and it
/// halts otherwise.
pub proof fn lemma_machine_follows_trace(st: ReconcilerV, o: StepOracle)
    requires
        st.wf(),
        st.phase is Probe,
    ensures
        machine_seg_calls(st, o) =~= seg_calls(st.specs[st.idx], o),
        seg_ok(st.specs[st.idx], o) <==> seg_final_state(st, o) == advance_state(st),
        !seg_ok(st.specs[st.idx], o) ==> seg_final_state(st, o).phase is Failed,
        seg_final_state(st, o).specs == st.specs,
{
    let sp = st.specs[st.idx];
    let st1 = spec_probe_step(st, o.probe);
    if st1.phase is List {
        let st2 = spec_list_step(st1, o.list);
        if st2.phase is Mutate {
            assert(seg_final_state(st, o) == spec_mutate_step(st2, o.mutate));
        }
    }
}

/// Minimal mutation: when the first listed record already carries the
/// observed address, the decision is to do nothing — no create, no update.
pub proof fn lemma_minimal_mutation(
    sp: RecordConfigV,
    observed: Seq<char>,
    existing: Seq<DnsRecordV>,
)
    requires
        existing.len() > 0,
        existing[0].content == observed,
    ensures
        spec_decide(sp, observed, existing) == Ok::<DecisionV, DdnsErrorV>(DecisionV::UpToDate),
{
}

/// Create-vs-update exclusivity: within one record's reconciliation, at
/// most one call mutates — never a create and an update together.
pub proof fn lemma_create_update_exclusive(sp: RecordConfigV, o: StepOracle)
    ensures
        forall|i: int, j: int|
            0 <= i < j < seg_calls(sp, o).len() ==> !(is_mutating(seg_calls(sp, o)[i])
                && is_mutating(seg_calls(sp, o)[j])),
{
    let s = seg_calls(sp, o);
    assert(s[0] is Probe);
    if s.len() >= 2 {
        assert(s[1] is List);
    }
}

/// Family routing: one record's reconciliation probes exactly once, with
/// the record's own family, before anything else.
pub proof fn lemma_family_routing(sp: RecordConfigV, o: StepOracle)
    ensures
        seg_calls(sp, o).len() >= 1,
        seg_calls(sp, o)[0] == (CallV::Probe { family: sp.family }),
        forall|i: int| 1 <= i < seg_calls(sp, o).len() ==> !(seg_calls(sp, o)[i] is Probe),
{
    let s = seg_calls(sp, o);
    if s.len() >= 2 {
        assert(s[1] is List);
    }
    if s.len() >= 3 {
        assert(is_mutating(s[2]));
    }
}

/// Ordered halt: if the k-th record's reconciliation fails and all earlier
/// ones succeed, the run's calls are exactly those of the first k+1
/// records; later records are never touched.
pub proof fn lemma_ordered_halt(specs: Seq<RecordConfigV>, os: Seq<StepOracle>, k: int)
    requires
        specs.len() == os.len(),
        0 <= k < specs.len(),
        !seg_ok(specs[k], os[k]),
        forall|j: int| 0 <= j < k ==> seg_ok(specs[j], os[j]),
    ensures
        run_calls(specs, os) == run_calls(specs.take(k + 1), os.take(k + 1)),
    decreases k,
{
    let sp = specs.take(k + 1);
    let op = os.take(k + 1);
    if k == 0 {
        assert(sp[0] == specs[0]);
        assert(op[0] == os[0]);
    } else {
        assert(sp[0] == specs[0]);
        assert(op[0] == os[0]);
        assert(seg_ok(specs[0], os[0]));
        let tl_specs = specs.drop_first();
        let tl_os = os.drop_first();
        assert(forall|j: int| 0 <= j < k - 1 ==> #[trigger] tl_specs[j] == specs[j + 1]);
        assert(forall|j: int| 0 <= j < tl_os.len() ==> #[trigger] tl_os[j] == os[j + 1]);
        lemma_ordered_halt(tl_specs, tl_os, k - 1);
        assert(sp.drop_first() =~= tl_specs.take(k));
        assert(op.drop_first() =~= tl_os.take(k));
    }
}

/// Whether a listing already reflects the observed address: it has a first
/// record and that record carries it.
pub open spec fn reconciled(observed: Seq<char>, listing: Seq<DnsRecordV>) -> bool {
    listing.len() > 0 && listing[0].content == observed
}

/// The provider's listing for (name, type) after the decided action is
/// applied: unchanged on a no-op, the one created record after a create
/// (`new_id` being whatever id the provider assigned), and the first
/// record rewritten after an update.
pub open spec fn listing_after(
    sp: RecordConfigV,
    observed: Seq<char>,
    listing: Seq<DnsRecordV>,
    new_id: Seq<char>,
) -> Seq<DnsRecordV> {
    match spec_decide(sp, observed, listing) {
        Ok(DecisionV::UpToDate) => listing,
        Ok(DecisionV::Apply(ActionV::Create { payload })) => seq![
            DnsRecordV {
                id: Some(new_id),
                name: payload.name,
                family: payload.family,
                content: payload.content,
                ttl: payload.ttl,
                proxied: payload.proxied,
            },
        ],
        Ok(DecisionV::Apply(ActionV::Update { id, payload })) => listing.update(
            0,
            DnsRecordV { content: payload.content, ..listing[0] },
        ),
        Err(_) => listing,
    }
}

/// A successful reconciliation leaves the listing reconciled: whichever
/// branch of the decision table ran, the first record now carries the
/// observed address.
pub proof fn lemma_apply_reconciles(
    sp: RecordConfigV,
    observed: Seq<char>,
    listing: Seq<DnsRecordV>,
    new_id: Seq<char>,
)
    requires
        spec_decide(sp, observed, listing) is Ok,
    ensures
        reconciled(observed, listing_after(sp, observed, listing, new_id)),
{
}

/// Idempotence at the decision table: a reconciled listing decides to a
/// no-op.
pub proof fn lemma_idempotent_decision(
    sp: RecordConfigV,
    observed: Seq<char>,
    listing: Seq<DnsRecordV>,
)
    requires
        reconciled(observed, listing),
    ensures
        spec_decide(sp, observed, listing) == Ok::<DecisionV, DdnsErrorV>(DecisionV::UpToDate),
{
}

/// Whether an oracle answers a record's reconciliation from an unchanged
/// public IP against an already-reconciled listing: the probe succeeds,
/// and the listing it is decided against is reconciled with the probed
/// address.
pub open spec fn oracle_reconciled(o: StepOracle) -> bool {
    &&& o.probe is Ok
    &&& spec_trim(o.probe->Ok_0).len() > 0
    &&& o.list is Ok
    &&& spec_interpret_list(o.list->Ok_0) is Ok
    &&& reconciled(spec_trim(o.probe->Ok_0), spec_interpret_list(o.list->Ok_0)->Ok_0)
}

/// Idempotence for one record: against an unchanged address and a
/// reconciled listing, the reconciliation succeeds and makes no mutating
/// call.
pub proof fn lemma_second_pass_no_mutation(sp: RecordConfigV, o: StepOracle)
    requires
        oracle_reconciled(o),
    ensures
        seg_ok(sp, o),
        forall|i: int| 0 <= i < seg_calls(sp, o).len() ==> !is_mutating(seg_calls(sp, o)[i]),
{
    lemma_idempotent_decision(
        sp,
        spec_trim(o.probe->Ok_0),
        spec_interpret_list(o.list->Ok_0)->Ok_0,
    );
    let s = seg_calls(sp, o);
    assert(s[0] is Probe);
    assert(s[1] is List);
}

/// Idempotence for a run: when every record's oracle answers from an
/// unchanged public IP and an already-reconciled listing — as they do
/// right after a successful run — the second run makes zero mutating
/// calls.
pub proof fn lemma_idempotent_run(specs: Seq<RecordConfigV>, os: Seq<StepOracle>)
    requires
        specs.len() == os.len(),
        forall|i: int| 0 <= i < os.len() ==> oracle_reconciled(#[trigger] os[i]),
    ensures
        forall|i: int|
            0 <= i < run_calls(specs, os).len() ==> !is_mutating(run_calls(specs, os)[i]),
    decreases specs.len(),
{
    if specs.len() == 0 {
    } else {
        lemma_second_pass_no_mutation(specs[0], os[0]);
        let tl_specs = specs.drop_first();
        let tl_os = os.drop_first();
        assert(forall|j: int| 0 <= j < tl_os.len() ==> #[trigger] tl_os[j] == os[j + 1]);
        lemma_idempotent_run(tl_specs, tl_os);
        let head = seg_calls(specs[0], os[0]);
        let tail = run_calls(tl_specs, tl_os);
        assert(forall|i: int|
            0 <= i < run_calls(specs, os).len() ==> run_calls(specs, os)[i] == (if i < head.len() {
                head[i]
            } else {
                tail[i - head.len()]
            }));
    }
}

/// Token confidentiality: the calls of a run are a function of the
/// declared records and the outside replies alone. Two configurations
/// that differ only in their credentials drive identical runs; the token
/// reaches exactly one place, the `Authorization` header value.
pub proof fn lemma_token_confidentiality(c1: ConfigV, c2: ConfigV, os: Seq<StepOracle>)
    requires
        c1.records == c2.records,
    ensures
        run_calls(c1.records, os) == run_calls(c2.records, os),
{
}

} // verus!
