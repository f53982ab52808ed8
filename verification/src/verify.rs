//! Unit verification failures (`systemd-analyze verify`), counted in total
//! and by unit type.
use vstd::prelude::*;

use crate::names::NameSet;
use crate::strmap::StrMap;
use crate::text::after_last;

verus! {

/// Units that failed verification: how many, and how many of each type.
#[derive(Debug)]
pub struct VerifyStats {
    /// Units with verification failures.
    pub total: u64,
    /// Failing units per type ("service", "slice", ...); only types with a
    /// failure appear.
    pub by_type: StrMap<u64>,
}

impl Default for VerifyStats {
    fn default() -> (r: Self)
        ensures
            r.total == 0,
            r.by_type@ == Map::<Seq<char>, u64>::empty(),
    {
        VerifyStats { total: 0, by_type: StrMap::new() }
    }
}

/// No type counts more failures than the total.
pub open spec fn verify_stats_wf(s: VerifyStats) -> bool {
    forall|t: Seq<char>| #[trigger] s.by_type@.dom().contains(t) ==> s.by_type@[t] <= s.total
}

/// The type of a unit: the text after its last `.` (all of it when it has
/// none), e.g. "service" for "foo.service".
pub fn get_unit_type(unit_name: &str) -> (r: Option<String>)
    ensures
        r is Some && r.unwrap()@ == after_last(unit_name@, '.'),
{
    Some(crate::text::string_after_last(unit_name, '.'))
}

/// Whether a unit is verified: on the allowlist when that is not empty, and
/// not on the blocklist.
pub open spec fn verify_selected(allow: Set<Seq<char>>, block: Set<Seq<char>>, name: Seq<char>) -> bool {
    (allow == Set::<Seq<char>>::empty() || allow.contains(name)) && !block.contains(name)
}

/// Whether `unit_name` is to be verified.
pub fn should_verify(allowlist: &NameSet, blocklist: &NameSet, unit_name: &str) -> (r: bool)
    ensures
        r == verify_selected(allowlist@, blocklist@, unit_name@),
{
    if !allowlist.is_empty() && !allowlist.contains(unit_name) {
        return false;
    }
    !blocklist.contains(unit_name)
}

/// Count one unit's verification result: a failure adds one to the total
/// and one to its type's count; a pass changes nothing.
pub fn record_verify_result(stats: &mut VerifyStats, unit_name: &str, has_errors: bool)
    requires
        verify_stats_wf(*old(stats)),
        old(stats).total < u64::MAX,
    ensures
        verify_stats_wf(*final(stats)),
        !has_errors ==> final(stats).total == old(stats).total && final(stats).by_type@ == old(stats).by_type@,
        has_errors ==> final(stats).total == old(stats).total + 1 && final(stats).by_type@ == old(
            stats,
        ).by_type@.insert(
            after_last(unit_name@, '.'),
            if old(stats).by_type@.dom().contains(after_last(unit_name@, '.')) {
                (old(stats).by_type@[after_last(unit_name@, '.')] + 1) as u64
            } else {
                1u64
            },
        ),
{
    if !has_errors {
        return;
    }
    stats.total = stats.total + 1;
    match get_unit_type(unit_name) {
        Some(t) => {
            let count: u64 = match stats.by_type.get(t.as_str()) {
                Some(c) => *c + 1,
                None => 1,
            };
            stats.by_type.insert(t, count);
        },
        None => {},
    }
}

} // verus!
