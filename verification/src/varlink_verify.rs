//! The units to verify, enumerated from the per-unit `UnitLoadState`
//! metrics of systemd's metrics stream rather than D-Bus `ListUnits`.
//!
//! The enumeration must be the same set that `ListUnits` gives, so any
//! doubt about it is an error that sends the caller back to D-Bus.
use vstd::prelude::*;

use crate::dbus_stats::u64_to_string;
use crate::text::{
    dec_string, lemma_str_less_irreflexive, lemma_str_less_total, lemma_str_less_transitive, push_str,
    str_eq, str_less, str_less_than,
};
use crate::varlink::metrics::{metric_object, metric_suffix, ListOutput, MetricValue};

verus! {

/// The metric belongs to the `UnitLoadState` family.
pub open spec fn is_load_state_metric(m: ListOutput) -> bool {
    metric_suffix(m) == "UnitLoadState"@
}

/// A family member that names a unit: it has an object and a string state.
pub open spec fn load_state_member_ok(m: ListOutput) -> bool {
    m.object is Some && m.value is Str
}

/// The stream has a `UnitLoadState` metric.
pub open spec fn carries_load_state(ms: Seq<ListOutput>) -> bool {
    exists|i: int| 0 <= i < ms.len() && is_load_state_metric(#[trigger] ms[i])
}

/// How many family members name no unit.
pub open spec fn skipped_members(ms: Seq<ListOutput>) -> nat
    decreases ms.len(),
{
    if ms.len() == 0 {
        0
    } else {
        skipped_members(ms.drop_last()) + if is_load_state_metric(ms.last()) && !load_state_member_ok(
            ms.last(),
        ) {
            1nat
        } else {
            0nat
        }
    }
}

/// Some family member names the unit `n`.
pub open spec fn enumerates(ms: Seq<ListOutput>, n: Seq<char>) -> bool {
    exists|i: int|
        0 <= i < ms.len() && is_load_state_metric(#[trigger] ms[i]) && load_state_member_ok(ms[i])
            && metric_object(ms[i]) == n
}

/// The names of a list of strings.
pub open spec fn names_view(v: Seq<String>) -> Seq<Seq<char>> {
    v.map_values(|s: String| s@)
}

/// Strictly increasing in the order of `String`: sorted, with no name twice.
pub open spec fn sorted_names(v: Seq<Seq<char>>) -> bool {
    forall|i: int, j: int| 0 <= i < j < v.len() ==> str_less(#[trigger] v[i], #[trigger] v[j])
}

/// Add a name to a strictly increasing list, keeping it so.
fn insert_sorted(names: &mut Vec<String>, name: String)
    requires
        sorted_names(names_view(old(names)@)),
    ensures
        sorted_names(names_view(final(names)@)),
        forall|n: Seq<char>|
            names_view(final(names)@).contains(n) <==> (names_view(old(names)@).contains(n) || n
                == name@),
{
    let ghost old_v = names_view(names@);
    let mut p: usize = 0;
    while p < names.len()
        invariant
            p <= names@.len(),
            names_view(names@) == old_v,
            sorted_names(old_v),
            forall|k: int| 0 <= k < p ==> str_less(#[trigger] old_v[k], name@),
        ensures
            p <= names@.len(),
            names_view(names@) == old_v,
            forall|k: int| 0 <= k < p ==> str_less(#[trigger] old_v[k], name@),
            p < names@.len() ==> !str_less(old_v[p as int], name@),
        decreases names.len() - p,
    {
        if !str_less_than(names[p].as_str(), name.as_str()) {
            break;
        }
        p = p + 1;
    }
    if p < names.len() && str_eq(names[p].as_str(), name.as_str()) {
        proof {
            assert(old_v[p as int] == name@);
        }
        return;
    }
    let ghost name_v = name@;
    names.insert(p, name);
    proof {
        let nv = names_view(names@);
        assert(nv =~= old_v.insert(p as int, name_v));
        if p < old_v.len() {
            assert(old_v[p as int] != name_v);
            lemma_str_less_total(old_v[p as int], name_v);
            assert(str_less(name_v, old_v[p as int]));
        }
        assert forall|i: int, j: int| 0 <= i < j < nv.len() implies str_less(#[trigger] nv[i], #[trigger] nv[j]) by {
            if j < p {
            } else if j == p {
                assert(nv[i] == old_v[i]);
            } else if i < p {
                assert(nv[i] == old_v[i]);
                assert(nv[j] == old_v[j - 1]);
            } else if i == p {
                assert(nv[j] == old_v[j - 1]);
                if j - 1 > p {
                    lemma_str_less_transitive(name_v, old_v[p as int], old_v[j - 1]);
                }
            } else {
                assert(nv[i] == old_v[i - 1]);
                assert(nv[j] == old_v[j - 1]);
            }
        }
        assert forall|n: Seq<char>| nv.contains(n) <==> (old_v.contains(n) || n == name_v) by {
            if nv.contains(n) {
                let k = choose|k: int| 0 <= k < nv.len() && nv[k] == n;
                if k < p {
                    assert(old_v[k] == n);
                } else if k > p {
                    assert(old_v[k - 1] == n);
                }
            }
            if old_v.contains(n) {
                let k = choose|k: int| 0 <= k < old_v.len() && old_v[k] == n;
                if k < p {
                    assert(nv[k] == n);
                } else {
                    assert(nv[k + 1] == n);
                }
            }
            if n == name_v {
                assert(nv[p as int] == n);
            }
        }
    }
}

/// Why the metrics cannot be trusted to enumerate the units.
#[derive(Clone, Copy, Debug, PartialEq, Eq, Structural)]
pub enum UnitEnumerationError {
    /// The stream has no `UnitLoadState` family.
    NoLoadStateFamily,
    /// This many family members name no unit (no object, or a state that is
    /// not a string).
    SkippedMembers(u64),
}

impl UnitEnumerationError {
    /// The error's message.
    pub fn message(&self) -> (r: String)
        ensures
            match *self {
                UnitEnumerationError::NoLoadStateFamily => r@
                    == "metrics carry no UnitLoadState family, cannot enumerate units"@,
                UnitEnumerationError::SkippedMembers(k) => r@ == dec_string(k as nat)
                    + " UnitLoadState metrics skipped (missing object or non-string state), cannot trust enumeration"@,
            },
    {
        match *self {
            UnitEnumerationError::NoLoadStateFamily => crate::text::string_of(
                "metrics carry no UnitLoadState family, cannot enumerate units",
            ),
            UnitEnumerationError::SkippedMembers(k) => {
                let mut r = u64_to_string(k);
                push_str(
                    &mut r,
                    " UnitLoadState metrics skipped (missing object or non-string state), cannot trust enumeration",
                );
                r
            },
        }
    }
}

/// The unit names of the `UnitLoadState` family, sorted and without
/// repeats. Every object is kept, whatever its load state. A stream without
/// the family, or with a member that names no unit, is an error: the
/// enumeration would then not be the full set of units.
pub fn collect_unit_names(metrics: &[ListOutput]) -> (r: Result<Vec<String>, UnitEnumerationError>)
    ensures
        match r {
            Ok(v) => {
                &&& carries_load_state(metrics@)
                &&& skipped_members(metrics@) == 0
                &&& v.len() > 0
                &&& sorted_names(names_view(v@))
                &&& forall|n: Seq<char>| names_view(v@).contains(n) <==> enumerates(metrics@, n)
            },
            Err(UnitEnumerationError::NoLoadStateFamily) => !carries_load_state(metrics@),
            Err(UnitEnumerationError::SkippedMembers(k)) => {
                &&& carries_load_state(metrics@)
                &&& k > 0
                &&& k == skipped_members(metrics@)
            },
        },
{
    let mut names: Vec<String> = Vec::new();
    let mut saw_family = false;
    let mut skipped: u64 = 0;
    let mut i: usize = 0;
    proof {
        assert(names_view(names@) =~= Seq::<Seq<char>>::empty());
    }
    while i < metrics.len()
        invariant
            i <= metrics@.len(),
            skipped == skipped_members(metrics@.take(i as int)),
            skipped <= i,
            saw_family == carries_load_state(metrics@.take(i as int)),
            sorted_names(names_view(names@)),
            forall|n: Seq<char>| names_view(names@).contains(n) <==> enumerates(metrics@.take(i as int), n),
        decreases metrics.len() - i,
    {
        let ghost before = metrics@.take(i as int);
        let ghost after = metrics@.take(i + 1);
        let ghost m = metrics@[i as int];
        proof {
            assert(after.drop_last() =~= before);
            assert(after.last() == m);
            assert forall|k: int| 0 <= k < before.len() implies #[trigger] after[k] == before[k] by {}
        }
        let metric = &metrics[i];
        let suffix = metric.name_suffix();
        if str_eq(suffix.as_str(), "UnitLoadState") {
            saw_family = true;
            proof {
                assert(is_load_state_metric(after[i as int]));
            }
            match (&metric.object, &metric.value) {
                (Some(o), MetricValue::Str(_)) => {
                    let ghost old_names = names_view(names@);
                    insert_sorted(&mut names, o.clone());
                    proof {
                        assert forall|n: Seq<char>| names_view(names@).contains(n) <==> enumerates(after, n) by {
                            if enumerates(after, n) && n != o@ {
                                let k = choose|k: int|
                                    0 <= k < after.len() && is_load_state_metric(#[trigger] after[k])
                                        && load_state_member_ok(after[k]) && metric_object(after[k]) == n;
                                assert(k < i);
                                assert(enumerates(before, n));
                            }
                            if names_view(names@).contains(n) && n != o@ {
                                assert(old_names.contains(n));
                                let k = choose|k: int|
                                    0 <= k < before.len() && is_load_state_metric(#[trigger] before[k])
                                        && load_state_member_ok(before[k]) && metric_object(before[k]) == n;
                                assert(after[k] == before[k]);
                            }
                            if n == o@ {
                                assert(metric_object(after[i as int]) == n);
                            }
                        }
                    }
                },
                _ => {
                    skipped = skipped + 1;
                    proof {
                        assert forall|n: Seq<char>| enumerates(after, n) <==> enumerates(before, n) by {
                            if enumerates(after, n) {
                                let k = choose|k: int|
                                    0 <= k < after.len() && is_load_state_metric(#[trigger] after[k])
                                        && load_state_member_ok(after[k]) && metric_object(after[k]) == n;
                                assert(k < i);
                            }
                            if enumerates(before, n) {
                                let k = choose|k: int|
                                    0 <= k < before.len() && is_load_state_metric(#[trigger] before[k])
                                        && load_state_member_ok(before[k]) && metric_object(before[k]) == n;
                                assert(after[k] == before[k]);
                            }
                        }
                    }
                },
            }
        } else {
            proof {
                assert forall|n: Seq<char>| enumerates(after, n) <==> enumerates(before, n) by {
                    if enumerates(after, n) {
                        let k = choose|k: int|
                            0 <= k < after.len() && is_load_state_metric(#[trigger] after[k])
                                && load_state_member_ok(after[k]) && metric_object(after[k]) == n;
                        assert(k < i);
                    }
                    if enumerates(before, n) {
                        let k = choose|k: int|
                            0 <= k < before.len() && is_load_state_metric(#[trigger] before[k])
                                && load_state_member_ok(before[k]) && metric_object(before[k]) == n;
                        assert(after[k] == before[k]);
                    }
                }
                if carries_load_state(after) {
                    let k = choose|k: int| 0 <= k < after.len() && is_load_state_metric(#[trigger] after[k]);
                    assert(k < i);
                    assert(before[k] == after[k]);
                }
            }
        }
        i = i + 1;
    }
    proof {
        assert(metrics@.take(i as int) =~= metrics@);
    }
    if !saw_family {
        return Err(UnitEnumerationError::NoLoadStateFamily);
    }
    if skipped > 0 {
        return Err(UnitEnumerationError::SkippedMembers(skipped));
    }
    proof {
        let k = choose|k: int| 0 <= k < metrics@.len() && is_load_state_metric(#[trigger] metrics@[k]);
        lemma_member_counted(metrics@, k);
        assert(enumerates(metrics@, metric_object(metrics@[k])));
        assert(names_view(names@).contains(metric_object(metrics@[k])));
    }
    Ok(names)
}

/// With no family member skipped, each member names a unit.
proof fn lemma_member_counted(ms: Seq<ListOutput>, k: int)
    requires
        0 <= k < ms.len(),
        is_load_state_metric(ms[k]),
        skipped_members(ms) == 0,
    ensures
        load_state_member_ok(ms[k]),
    decreases ms.len(),
{
    if k < ms.len() - 1 {
        assert(ms.drop_last()[k] == ms[k]);
        lemma_member_counted(ms.drop_last(), k);
    }
}

} // verus!
