//! The reconciliation decision: given one declared record, the observed
//! public IP, and the provider's listing for (name, type), pick the minimal
//! mutation — none, create, or update.

use vstd::prelude::*;
use crate::errors::DdnsError;
use crate::errors::DdnsErrorV;
use crate::records::DnsRecord;
use crate::records::DnsRecordV;
use crate::records::RecordConfig;
use crate::records::RecordConfigV;
use crate::records::RecordPayload;
use crate::records::RecordPayloadV;
use crate::records::payload_of;
use crate::records::record_views;

verus! {

/// A mutating provider call the reconciler has decided on.
pub enum Action {
    /// POST a new record.
    Create { payload: RecordPayload },
    /// PATCH the record with this id.
    Update { id: String, payload: RecordPayload },
}

/// Ghost model of an `Action`.
pub ghost enum ActionV {
    Create { payload: RecordPayloadV },
    Update { id: Seq<char>, payload: RecordPayloadV },
}

impl View for Action {
    type V = ActionV;

    open spec fn view(&self) -> ActionV {
        match self {
            Action::Create { payload } => ActionV::Create { payload: payload@ },
            Action::Update { id, payload } => ActionV::Update { id: id@, payload: payload@ },
        }
    }
}

impl Action {
    /// A field-by-field copy with a known result.
    pub fn duplicate(&self) -> (r: Self)
        ensures
            r@ == self@,
    {
        match self {
            Action::Create { payload } => Action::Create { payload: payload.duplicate() },
            Action::Update { id, payload } => Action::Update {
                id: id.clone(),
                payload: payload.duplicate(),
            },
        }
    }
}

/// The outcome of the decision table: either the record is already right,
/// or one mutation is due.
pub enum Decision {
    UpToDate,
    Apply(Action),
}

/// Ghost model of a `Decision`.
pub ghost enum DecisionV {
    UpToDate,
    Apply(ActionV),
}

impl View for Decision {
    type V = DecisionV;

    open spec fn view(&self) -> DecisionV {
        match self {
            Decision::UpToDate => DecisionV::UpToDate,
            Decision::Apply(a) => DecisionV::Apply(a@),
        }
    }
}

/// The decision table over ghost values. An empty listing asks for a
/// create; a first record whose content equals the observed IP asks for
/// nothing; any other first record asks for an update of that record, and
/// must carry an id. Only the first listed record is consulted.
pub open spec fn spec_decide(
    sp: RecordConfigV,
    observed: Seq<char>,
    existing: Seq<DnsRecordV>,
) -> Result<DecisionV, DdnsErrorV> {
    if existing.len() == 0 {
        Ok(
            DecisionV::Apply(
                ActionV::Create { payload: payload_of(sp.name, sp.family, observed) },
            ),
        )
    } else if existing[0].content == observed {
        Ok(DecisionV::UpToDate)
    } else {
        match existing[0].id {
            Some(id) => Ok(
                DecisionV::Apply(
                    ActionV::Update { id, payload: payload_of(sp.name, sp.family, observed) },
                ),
            ),
            None => Err(DdnsErrorV::MissingRecordId),
        }
    }
}

/// Executes the decision table on the provider's listing.
pub fn decide(sp: &RecordConfig, observed: &String, existing: &Vec<DnsRecord>) -> (r: Result<
    Decision,
    DdnsError,
>)
    ensures
        ({
            let d = spec_decide(sp@, observed@, record_views(existing@));
            match r {
                Ok(decision) => d is Ok && decision@ == d->Ok_0,
                Err(e) => d is Err && e@ == d->Err_0,
            }
        }),
{
    if existing.len() == 0 {
        Ok(
            Decision::Apply(
                Action::Create { payload: RecordPayload::build(&sp.name, sp.family, observed) },
            ),
        )
    } else {
        let first = &existing[0];
        if first.content == *observed {
            Ok(Decision::UpToDate)
        } else {
            match &first.id {
                Some(id) => Ok(
                    Decision::Apply(
                        Action::Update {
                            id: id.clone(),
                            payload: RecordPayload::build(&sp.name, sp.family, observed),
                        },
                    ),
                ),
                None => Err(DdnsError::MissingRecordId),
            }
        }
    }
}

} // verus!
