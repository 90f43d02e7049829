//! Configuration validation: turning raw (name, type-text) pairs into typed
//! record intents, and the credentials that accompany them.

use vstd::prelude::*;
use crate::errors::DdnsError;
use crate::records::Family;
use crate::records::RecordConfig;
use crate::records::RecordConfigV;
use crate::text::str_eq;

verus! {

impl Family {
    /// Parses the type text of a declared record. Exactly `"A"` and
    /// `"AAAA"` are recognized.
    pub fn parse(s: &str) -> (r: Option<Family>)
        ensures
            r == Some(Family::A) <==> s@ == "A"@,
            r == Some(Family::AAAA) <==> s@ == "AAAA"@,
            r is None <==> (s@ != "A"@ && s@ != "AAAA"@),
    {
        proof {
            reveal_strlit("A");
            reveal_strlit("AAAA");
            assert(("A"@).len() != ("AAAA"@).len());
        }
        if str_eq(s, "A") {
            Some(Family::A)
        } else if str_eq(s, "AAAA") {
            Some(Family::AAAA)
        } else {
            None
        }
    }
}

/// One record entry as the configuration document spells it, before its
/// type text has been checked.
pub struct RawRecord {
    pub name: String,
    pub rtype: String,
}

/// Ghost model of a `RawRecord`.
pub ghost struct RawRecordV {
    pub name: Seq<char>,
    pub rtype: Seq<char>,
}

impl View for RawRecord {
    type V = RawRecordV;

    open spec fn view(&self) -> RawRecordV {
        RawRecordV { name: self.name@, rtype: self.rtype@ }
    }
}

/// The family a raw entry's type text denotes, if any.
pub open spec fn family_of_text(t: Seq<char>) -> Option<Family> {
    if t == "A"@ {
        Some(Family::A)
    } else if t == "AAAA"@ {
        Some(Family::AAAA)
    } else {
        None
    }
}

/// Whether every entry's type text denotes a recognized family.
pub open spec fn all_families_known(rs: Seq<RawRecordV>) -> bool {
    forall|i: int| 0 <= i < rs.len() ==> #[trigger] family_of_text(rs[i].rtype) is Some
}

/// Checks every declared record's type text before any network work, so a
/// run with an unrecognized type fails before any mutation. On success the
/// intents keep their order, names and families.
pub fn validate_records(raw: Vec<RawRecord>) -> (r: Result<Vec<RecordConfig>, DdnsError>)
    ensures
        ({
            match r {
                Ok(specs) => all_families_known(raw@.map_values(|x: RawRecord| x@))
                    && specs@.len() == raw@.len() && (forall|i: int|
                    0 <= i < raw@.len() ==> (#[trigger] specs@[i])@.name == raw@[i]@.name
                        && Some(specs@[i]@.family) == family_of_text(raw@[i]@.rtype)),
                Err(e) => !all_families_known(raw@.map_values(|x: RawRecord| x@)) && (exists|i: int|
                    0 <= i < raw@.len() && family_of_text((#[trigger] raw@[i])@.rtype) is None
                        && e@ is UnsupportedFamily
                        && e@->UnsupportedFamily_0 == raw@[i]@.rtype),
            }
        }),
{
    let mut out: Vec<RecordConfig> = Vec::new();
    let mut i: usize = 0;
    while i < raw.len()
        invariant
            i <= raw.len(),
            out@.len() == i,
            forall|j: int|
                0 <= j < i ==> family_of_text((#[trigger] raw@[j])@.rtype) is Some,
            forall|j: int|
                0 <= j < i ==> (#[trigger] out@[j])@.name == raw@[j]@.name && Some(
                    out@[j]@.family,
                ) == family_of_text(raw@[j]@.rtype),
        decreases raw.len() - i,
    {
        let entry = &raw[i];
        match Family::parse(entry.rtype.as_str()) {
            Some(family) => {
                out.push(RecordConfig { name: entry.name.clone(), family });
            },
            None => {
                proof {
                    let m = raw@.map_values(|x: RawRecord| x@);
                    assert(m[i as int] == raw@[i as int]@);
                    assert(family_of_text(m[i as int].rtype) is None);
                    assert(!all_families_known(m));
                }
                return Err(DdnsError::UnsupportedFamily(entry.rtype.clone()));
            },
        }
        i = i + 1;
    }
    proof {
        let m = raw@.map_values(|x: RawRecord| x@);
        assert(forall|j: int| 0 <= j < raw@.len() ==> #[trigger] m[j] == raw@[j]@);
    }
    Ok(out)
}

/// The provider credentials and the declared records of one run.
pub struct Config {
    pub api_token: String,
    pub zone_id: String,
    pub records: Vec<RecordConfig>,
}

/// Ghost model of a `Config`.
pub ghost struct ConfigV {
    pub api_token: Seq<char>,
    pub zone_id: Seq<char>,
    pub records: Seq<RecordConfigV>,
}

impl View for Config {
    type V = ConfigV;

    open spec fn view(&self) -> ConfigV {
        ConfigV {
            api_token: self.api_token@,
            zone_id: self.zone_id@,
            records: self.records@.map_values(|r: RecordConfig| r@),
        }
    }
}

} // verus!
