//! Boot blame from the per-unit timestamp metrics of systemd's metrics
//! stream (v261 and later), and the ranking of units by activation time
//! that the D-Bus path shares.
//!
//! Activation times are held in microseconds; the collector turns the
//! ranked ones into seconds.
use vstd::prelude::*;

use crate::config::BootBlameConfig;
use crate::strmap::{seq_to_map, StrMap};
use crate::text::str_eq;
use crate::varlink::metrics::{metric_field_str, metric_suffix, ListOutput, MetricValue};

verus! {

/// The two timestamps a unit's activation time is derived from.
#[derive(Clone, Copy, Debug, PartialEq, Eq, Structural)]
pub struct UnitActivation {
    /// When the unit entered the active state.
    pub active_enter_usec: u64,
    /// When it left the inactive state, i.e. when activation began.
    pub inactive_exit_usec: u64,
}

impl Default for UnitActivation {
    fn default() -> (r: Self)
        ensures
            r == (UnitActivation { active_enter_usec: 0, inactive_exit_usec: 0 }),
    {
        UnitActivation { active_enter_usec: 0, inactive_exit_usec: 0 }
    }
}

/// A unit takes part in boot blame unless the blocklist names it, or an
/// allowlist is set and does not.
pub open spec fn blame_unit_selected(config: BootBlameConfig, name: Seq<char>) -> bool {
    &&& !config.blocklist@.contains(name)
    &&& (config.allowlist@ == Set::<Seq<char>>::empty() || config.allowlist@.contains(name))
}

/// Whether the unit takes part in boot blame.
pub fn boot_blame_unit_selected(config: &BootBlameConfig, name: &str) -> (r: bool)
    ensures
        r == blame_unit_selected(*config, name@),
{
    if config.blocklist.contains(name) {
        return false;
    }
    config.allowlist.is_empty() || config.allowlist.contains(name)
}

/// The activation time in microseconds: zero when either timestamp is
/// zero (the unit never activated), else how long after leaving the
/// inactive state it became active (zero if it never did later).
pub open spec fn activation_usec_of(a: UnitActivation) -> u64 {
    if a.active_enter_usec == 0 || a.inactive_exit_usec == 0 {
        0
    } else if a.active_enter_usec >= a.inactive_exit_usec {
        (a.active_enter_usec - a.inactive_exit_usec) as u64
    } else {
        0
    }
}

/// The activation time of a unit in microseconds: see `activation_usec_of`.
pub fn activation_usec(a: UnitActivation) -> (r: u64)
    ensures
        r == activation_usec_of(a),
{
    if a.active_enter_usec == 0 || a.inactive_exit_usec == 0 {
        0
    } else {
        a.active_enter_usec.saturating_sub(a.inactive_exit_usec)
    }
}

/// The timestamps after one metric: an `ActiveTimestamp` with event
/// `enter` sets when the unit became active, an `InactiveExitTimestamp`
/// when it left the inactive state. Metrics without a unit, of an unlisted
/// unit, or without a non-negative integer value change nothing.
pub open spec fn activation_step(
    m: Map<Seq<char>, UnitActivation>,
    metric: ListOutput,
    config: BootBlameConfig,
) -> Map<Seq<char>, UnitActivation> {
    match metric.object {
        None => m,
        Some(o) => {
            let name = o@;
            let cur = if m.dom().contains(name) {
                m[name]
            } else {
                UnitActivation { active_enter_usec: 0, inactive_exit_usec: 0 }
            };
            if !blame_unit_selected(config, name) {
                m
            } else {
                match metric.value {
                    MetricValue::Int(v) => if v < 0 {
                        m
                    } else if metric_suffix(metric) == "ActiveTimestamp"@ && metric_field_str(
                        metric,
                        "event"@,
                    ) == Some("enter"@) {
                        m.insert(
                            name,
                            UnitActivation {
                                active_enter_usec: v as u64,
                                inactive_exit_usec: cur.inactive_exit_usec,
                            },
                        )
                    } else if metric_suffix(metric) == "InactiveExitTimestamp"@ {
                        m.insert(
                            name,
                            UnitActivation {
                                active_enter_usec: cur.active_enter_usec,
                                inactive_exit_usec: v as u64,
                            },
                        )
                    } else {
                        m
                    },
                    _ => m,
                }
            }
        },
    }
}

/// The timestamps of each unit after the metrics, in order.
pub open spec fn activations_of(metrics: Seq<ListOutput>, config: BootBlameConfig) -> Map<
    Seq<char>,
    UnitActivation,
>
    decreases metrics.len(),
{
    if metrics.len() == 0 {
        Map::empty()
    } else {
        activation_step(activations_of(metrics.drop_last(), config), metrics.last(), config)
    }
}

/// Fold the per-unit timestamp metrics into one entry per unit.
pub fn collect_activations(metrics: &[ListOutput], config: &BootBlameConfig) -> (r: StrMap<
    UnitActivation,
>)
    ensures
        r@ == activations_of(metrics@, *config),
{
    let mut acts: StrMap<UnitActivation> = StrMap::new();
    let mut i: usize = 0;
    while i < metrics.len()
        invariant
            i <= metrics@.len(),
            acts@ == activations_of(metrics@.take(i as int), *config),
        decreases metrics.len() - i,
    {
        let metric = &metrics[i];
        proof {
            assert(metrics@.take(i + 1).drop_last() =~= metrics@.take(i as int));
            assert(metrics@.take(i + 1).last() == metrics@[i as int]);
        }
        match &metric.object {
            None => {},
            Some(o) => {
                let name = o.as_str();
                if boot_blame_unit_selected(config, name) {
                    match &metric.value {
                        MetricValue::Int(v) => {
                            if *v >= 0 {
                                let value = *v as u64;
                                let suffix = metric.name_suffix();
                                let is_enter = if str_eq(suffix.as_str(), "ActiveTimestamp") {
                                    match metric.get_field_as_str("event") {
                                        Some(e) => str_eq(e.as_str(), "enter"),
                                        None => false,
                                    }
                                } else {
                                    false
                                };
                                let is_exit = str_eq(suffix.as_str(), "InactiveExitTimestamp");
                                if is_enter || is_exit {
                                    let cur = match acts.get(name) {
                                        Some(a) => *a,
                                        None => UnitActivation::default(),
                                    };
                                    let next = if is_enter {
                                        UnitActivation {
                                            active_enter_usec: value,
                                            inactive_exit_usec: cur.inactive_exit_usec,
                                        }
                                    } else {
                                        UnitActivation {
                                            active_enter_usec: cur.active_enter_usec,
                                            inactive_exit_usec: value,
                                        }
                                    };
                                    acts.insert(o.clone(), next);
                                }
                            }
                        },
                        _ => {},
                    }
                }
            },
        }
        i = i + 1;
    }
    proof {
        assert(metrics@.take(i as int) =~= metrics@);
    }
    acts
}

/// Some metric of the stream is an `ActiveTimestamp`: systemd older than
/// v261 answers on the socket without the per-unit timestamp families.
pub open spec fn carries_activation_metrics(metrics: Seq<ListOutput>) -> bool {
    exists|i: int| 0 <= i < metrics.len() && metric_suffix(#[trigger] metrics[i]) == "ActiveTimestamp"@
}

/// Whether the stream carries the per-unit timestamp families at all.
pub fn has_activation_metrics(metrics: &[ListOutput]) -> (r: bool)
    ensures
        r == carries_activation_metrics(metrics@),
{
    let mut i: usize = 0;
    while i < metrics.len()
        invariant
            i <= metrics@.len(),
            forall|j: int| 0 <= j < i ==> metric_suffix(#[trigger] metrics@[j]) != "ActiveTimestamp"@,
        decreases metrics.len() - i,
    {
        let suffix = metrics[i].name_suffix();
        if str_eq(suffix.as_str(), "ActiveTimestamp") {
            return true;
        }
        i = i + 1;
    }
    false
}

/// The units with a positive activation time, with that time, in the
/// order of the entries.
pub open spec fn blame_candidates(acts: Seq<(Seq<char>, UnitActivation)>) -> Seq<(Seq<char>, u64)>
    decreases acts.len(),
{
    if acts.len() == 0 {
        Seq::empty()
    } else {
        let prev = blame_candidates(acts.drop_last());
        let t = activation_usec_of(acts.last().1);
        if t > 0 {
            prev.push((acts.last().0, t))
        } else {
            prev
        }
    }
}

/// The names and times of ranked entries.
pub open spec fn ranked_view(v: Seq<(String, u64)>) -> Seq<(Seq<char>, u64)> {
    v.map_values(|e: (String, u64)| (e.0@, e.1))
}

/// `r` is the `num` slowest of `c`, slowest first: as many as `num` allows,
/// in non-increasing order of time, and what is left out is no slower than
/// anything kept. Which of two equally slow entries comes first, or is
/// kept at the cut, is left open.
pub open spec fn is_slowest_selection(
    c: Seq<(Seq<char>, u64)>,
    r: Seq<(Seq<char>, u64)>,
    num: nat,
) -> bool {
    &&& r.len() == if num < c.len() {
        num
    } else {
        c.len()
    }
    &&& forall|i: int, j: int| 0 <= i < j < r.len() ==> #[trigger] r[j].1 <= #[trigger] r[i].1
    &&& exists|rest: Seq<(Seq<char>, u64)>|
        {
            &&& (r + rest).to_multiset() == c.to_multiset()
            &&& forall|i: int, j: int|
                0 <= i < rest.len() && 0 <= j < r.len() ==> #[trigger] rest[i].1 <= #[trigger] r[j].1
        }
}

fn candidates(acts: &StrMap<UnitActivation>) -> (r: Vec<(String, u64)>)
    ensures
        ranked_view(r@) == blame_candidates(acts.items()),
{
    let n = acts.len();
    let ghost items = acts.items();
    let mut out: Vec<(String, u64)> = Vec::new();
    let mut i: usize = 0;
    while i < n
        invariant
            i <= n,
            n == items.len(),
            items == acts.items(),
            ranked_view(out@) == blame_candidates(items.take(i as int)),
        decreases n - i,
    {
        let (name, a) = acts.entry_at(i);
        let t = activation_usec(*a);
        proof {
            assert(items.take(i + 1).drop_last() =~= items.take(i as int));
            assert(items.take(i + 1).last() == items[i as int]);
        }
        if t > 0 {
            out.push((name.clone(), t));
            proof {
                assert(ranked_view(out@) =~= blame_candidates(items.take(i as int)).push(
                    (items[i as int].0, t),
                ));
            }
        }
        i = i + 1;
    }
    proof {
        assert(items.take(i as int) =~= items);
    }
    out
}

/// The index of a slowest entry.
fn slowest_index(v: &Vec<(String, u64)>) -> (r: usize)
    requires
        v.len() > 0,
    ensures
        r < v.len(),
        forall|j: int| 0 <= j < v.len() ==> #[trigger] v@[j].1 <= v@[r as int].1,
{
    let mut best: usize = 0;
    let mut i: usize = 1;
    while i < v.len()
        invariant
            best < i <= v.len(),
            forall|j: int| 0 <= j < i ==> #[trigger] v@[j].1 <= v@[best as int].1,
        decreases v.len() - i,
    {
        if v[i].1 > v[best].1 {
            best = i;
        }
        i = i + 1;
    }
    best
}

/// Rank units by activation time, slowest first, keeping `num_slowest`.
/// A unit whose activation time is zero (either timestamp zero, or no time
/// between them) is left out.
pub fn rank_slowest(activations: &StrMap<UnitActivation>, num_slowest: usize) -> (r: Vec<(String, u64)>)
    ensures
        is_slowest_selection(blame_candidates(activations.items()), ranked_view(r@), num_slowest as nat),
{
    let mut remaining = candidates(activations);
    let ghost c = ranked_view(remaining@);
    let mut out: Vec<(String, u64)> = Vec::new();
    proof {
        assert(ranked_view(out@) + ranked_view(remaining@) =~= c);
    }
    while out.len() < num_slowest && remaining.len() > 0
        invariant
            out.len() <= num_slowest,
            out.len() + remaining.len() == c.len(),
            (ranked_view(out@) + ranked_view(remaining@)).to_multiset() == c.to_multiset(),
            forall|i: int, j: int|
                0 <= i < j < out.len() ==> #[trigger] out@[j].1 <= #[trigger] out@[i].1,
            forall|i: int, j: int|
                0 <= i < remaining.len() && 0 <= j < out.len() ==> #[trigger] remaining@[i].1
                    <= #[trigger] out@[j].1,
        decreases remaining.len(),
    {
        let m = slowest_index(&remaining);
        let ghost old_out = out@;
        let ghost old_rem = remaining@;
        let ghost before_out = ranked_view(out@);
        let ghost before_rem = ranked_view(remaining@);
        let e = remaining.remove(m);
        out.push(e);
        proof {
            broadcast use vstd::seq_lib::group_to_multiset_ensures;

            let x = before_rem[m as int];
            assert(ranked_view(remaining@) =~= before_rem.remove(m as int));
            assert(ranked_view(out@) =~= before_out.push(x));
            vstd::seq_lib::lemma_multiset_commutative(before_out, before_rem);
            vstd::seq_lib::lemma_multiset_commutative(before_out.push(x), before_rem.remove(m as int));
            assert(before_rem.remove(m as int).to_multiset() =~= before_rem.to_multiset().remove(x));
            assert(before_out.push(x).to_multiset() =~= before_out.to_multiset().insert(x));
            assert((ranked_view(out@) + ranked_view(remaining@)).to_multiset() =~= c.to_multiset());
            assert forall|i: int, j: int| 0 <= i < remaining.len() && 0 <= j < out.len() implies #[trigger] remaining@[i].1
                <= #[trigger] out@[j].1 by {
                let k = if i < m { i } else { i + 1 };
                assert(remaining@[i] == old_rem[k]);
                if j < old_out.len() {
                    assert(out@[j] == old_out[j]);
                } else {
                    assert(out@[j] == old_rem[m as int]);
                }
            }
            assert forall|i: int, j: int| 0 <= i < j < out.len() implies #[trigger] out@[j].1 <= #[trigger] out@[i].1 by {
                if j == old_out.len() {
                    assert(out@[j] == old_rem[m as int]);
                    assert(out@[i] == old_out[i]);
                } else {
                    assert(out@[j] == old_out[j]);
                    assert(out@[i] == old_out[i]);
                }
            }
        }
    }
    proof {
        let rv = ranked_view(out@);
        let rest = ranked_view(remaining@);
        assert(forall|i: int| 0 <= i < out.len() ==> #[trigger] rv[i].1 == out@[i].1);
        assert(forall|i: int| 0 <= i < remaining.len() ==> #[trigger] rest[i].1 == remaining@[i].1);
        assert(forall|i: int, j: int| 0 <= i < rest.len() && 0 <= j < rv.len() ==> #[trigger] rest[i].1
            <= #[trigger] rv[j].1);
        assert(forall|i: int, j: int| 0 <= i < j < rv.len() ==> #[trigger] rv[j].1 <= #[trigger] rv[i].1);
        assert((rv + rest).to_multiset() == c.to_multiset());
    }
    out
}

/// Why boot blame could not be had from the metrics.
#[derive(Clone, Copy, Debug, PartialEq, Eq, Structural)]
pub enum VarlinkBootError {
    /// The stream has no `ActiveTimestamp` family: systemd is older than
    /// v261.
    NoActivationMetrics,
}

impl VarlinkBootError {
    /// The error's message.
    pub fn message(&self) -> (r: String)
        ensures
            r@ == "metrics carry no ActiveTimestamp family: this systemd is older than v261, where the per-unit boot timestamps were added"@,
    {
        crate::text::string_of(
            "metrics carry no ActiveTimestamp family: this systemd is older than v261, where the per-unit boot timestamps were added",
        )
    }
}

/// Boot blame from the metrics stream: the configured number of slowest
/// units, slowest first, or an error when the stream lacks the timestamp
/// families.
pub fn boot_blame_from_metrics(metrics: &[ListOutput], config: &BootBlameConfig) -> (r: Result<
    Vec<(String, u64)>,
    VarlinkBootError,
>)
    ensures
        match r {
            Ok(v) => {
                &&& carries_activation_metrics(metrics@)
                &&& exists|acts: StrMap<UnitActivation>|
                    acts@ == activations_of(metrics@, *config) && crate::strmap::keys_distinct(acts.items())
                        && is_slowest_selection(
                        blame_candidates(#[trigger] acts.items()),
                        ranked_view(v@),
                        (config.num_slowest_units as usize) as nat,
                    )
            },
            Err(e) => !carries_activation_metrics(metrics@) && e == VarlinkBootError::NoActivationMetrics,
        },
{
    if !has_activation_metrics(metrics) {
        return Err(VarlinkBootError::NoActivationMetrics);
    }
    let acts = collect_activations(metrics, config);
    // `len` states that the map's names are distinct.
    let _units = acts.len();
    let r = rank_slowest(&acts, config.num_slowest_units as usize);
    Ok(r)
}

} // verus!
