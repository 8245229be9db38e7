//! Process triage policy.
//!
//! When overall CPU utilisation is critical, the monitor classifies
//! processes into *heavy* candidates (high current CPU, ranked by descending
//! usage) and *idle* candidates (long-running processes with near-zero CPU,
//! in enumeration order), and offers at most three of each for termination.
//! This module holds the classification and ranking; prompting the operator
//! and attempting the termination are side effects left to the caller.

use vstd::multiset::Multiset;
use vstd::prelude::*;

verus! {

broadcast use
    vstd::seq_lib::group_to_multiset_ensures,
    vstd::seq_lib::group_filter_ensures,
    vstd::multiset::group_multiset_axioms,
;

/// Overall CPU utilisation (hundredths of a percent) above which triage
/// runs at all.
pub const CRITICAL_CPU_THRESHOLD: u32 = 9000;

/// Per-process CPU utilisation above which a process is heavy.
pub const HEAVY_CPU_THRESHOLD: u32 = 1000;

/// Per-process CPU utilisation below which a long-running process counts as
/// idle.
pub const IDLE_CPU_THRESHOLD: u32 = 100;

/// Run time (seconds) a process must exceed to count as idle.
pub const IDLE_RUN_TIME_SECONDS: u64 = 3600;

/// At most this many candidates are offered from each set.
pub const MAX_CANDIDATES: usize = 3;

/// One process as sampled by the metrics provider: CPU utilisation in
/// hundredths of a percent, memory in bytes, run time in seconds.
#[derive(Clone)]
pub struct ProcessSample {
    pub pid: u64,
    pub name: String,
    pub exe_path: String,
    pub cpu_usage: u32,
    pub memory_bytes: u64,
    pub run_time_seconds: u64,
}

/// A heavy process: current CPU usage strictly above the heavy threshold.
pub open spec fn is_heavy(p: ProcessSample) -> bool {
    p.cpu_usage > HEAVY_CPU_THRESHOLD
}

/// An idle process: running strictly longer than an hour with CPU usage
/// strictly below the idle threshold.
pub open spec fn is_idle(p: ProcessSample) -> bool {
    p.run_time_seconds > IDLE_RUN_TIME_SECONDS && p.cpu_usage < IDLE_CPU_THRESHOLD
}

/// Non-increasing CPU usage from front to back.
pub open spec fn sorted_desc_by_cpu(s: Seq<ProcessSample>) -> bool {
    forall|i: int, j: int| 0 <= i <= j < s.len() ==> s[i].cpu_usage >= s[j].cpu_usage
}

/// The heavy processes of `s`, in order.
pub open spec fn heavy_of(s: Seq<ProcessSample>) -> Seq<ProcessSample> {
    s.filter(|p: ProcessSample| is_heavy(p))
}

/// The idle processes of `s`, in order.
pub open spec fn idle_of(s: Seq<ProcessSample>) -> Seq<ProcessSample> {
    s.filter(|p: ProcessSample| is_idle(p))
}

/// `ranked` rearranges `input` into descending CPU order: the same
/// processes with the same multiplicities, sorted.
pub open spec fn is_ranking(input: Seq<ProcessSample>, ranked: Seq<ProcessSample>) -> bool {
    &&& ranked.to_multiset() == input.to_multiset()
    &&& sorted_desc_by_cpu(ranked)
}

/// The index of the first occurrence of the greatest CPU usage in a
/// non-empty sequence.
pub open spec fn first_max_index(s: Seq<ProcessSample>) -> int
    decreases s.len(),
{
    if s.len() <= 1 {
        0
    } else {
        let r = 1 + first_max_index(s.drop_first());
        if 0 <= r < s.len() && s[0].cpu_usage < s[r].cpu_usage {
            r
        } else {
            0
        }
    }
}

/// `first_max_index` names an index of the sequence that holds its greatest
/// CPU usage, and every earlier index holds a strictly smaller one.
pub proof fn lemma_first_max_index(s: Seq<ProcessSample>)
    requires
        s.len() > 0,
    ensures
        0 <= first_max_index(s) < s.len(),
        forall|j: int|
            0 <= j < s.len() ==> s[first_max_index(s)].cpu_usage >= #[trigger] s[j].cpu_usage,
        forall|j: int|
            0 <= j < first_max_index(s) ==> #[trigger] s[j].cpu_usage
                < s[first_max_index(s)].cpu_usage,
    decreases s.len(),
{
    if s.len() > 1 {
        let t = s.drop_first();
        lemma_first_max_index(t);
        let rt = first_max_index(t);
        let r = 1 + rt;
        assert(forall|j: int| 0 <= j < t.len() ==> #[trigger] t[j] == s[j + 1]);
        assert(t[rt] == s[r]);
        if s[0].cpu_usage < s[r].cpu_usage {
            assert(first_max_index(s) == r);
            assert forall|j: int| 0 <= j < s.len() implies s[r].cpu_usage
                >= #[trigger] s[j].cpu_usage by {
                if j > 0 {
                    assert(s[j] == t[j - 1]);
                    assert(t[rt].cpu_usage >= t[j - 1].cpu_usage);
                }
            }
            assert forall|j: int| 0 <= j < r implies #[trigger] s[j].cpu_usage
                < s[r].cpu_usage by {
                if j > 0 {
                    assert(s[j] == t[j - 1]);
                    assert(t[j - 1].cpu_usage < t[rt].cpu_usage);
                }
            }
        } else {
            assert(first_max_index(s) == 0);
            assert forall|j: int| 0 <= j < s.len() implies s[0].cpu_usage
                >= #[trigger] s[j].cpu_usage by {
                if j > 0 {
                    assert(s[j] == t[j - 1]);
                    assert(t[rt].cpu_usage >= t[j - 1].cpu_usage);
                    assert(s[0].cpu_usage >= s[r].cpu_usage);
                }
            }
        }
    }
}

/// Stable descending sort by CPU usage: each step takes the first
/// occurrence of the greatest remaining CPU usage, so processes with equal
/// CPU usage keep their enumeration order.
pub open spec fn stable_sort_desc(s: Seq<ProcessSample>) -> Seq<ProcessSample>
    decreases s.len(),
{
    if s.len() == 0 {
        Seq::empty()
    } else {
        let m0 = first_max_index(s);
        let m = if 0 <= m0 < s.len() {
            m0
        } else {
            0
        };
        seq![s[m]] + stable_sort_desc(s.remove(m))
    }
}

/// The first `MAX_CANDIDATES` elements of `s`, or all of `s` when it is
/// shorter.
pub open spec fn capped(s: Seq<ProcessSample>) -> Seq<ProcessSample> {
    if s.len() <= MAX_CANDIDATES {
        s
    } else {
        s.take(MAX_CANDIDATES as int)
    }
}

/// Triage runs only when overall CPU utilisation is critical.
pub fn should_triage(cpu_usage: u32) -> (r: bool)
    ensures
        r == (cpu_usage > CRITICAL_CPU_THRESHOLD),
{
    cpu_usage > CRITICAL_CPU_THRESHOLD
}

/// No process is both heavy and idle: the CPU thresholds are disjoint.
pub proof fn lemma_heavy_idle_exclusive(p: ProcessSample)
    ensures
        !(is_heavy(p) && is_idle(p)),
{
}

/// ASCII whitespace, as it may surround an operator's reply.
pub open spec fn is_ascii_space(b: u8) -> bool {
    b == 32 || b == 9 || b == 10 || b == 13
}

/// An operator reply is affirmative when, ignoring surrounding whitespace,
/// it is exactly the letter `y`, in either case: one byte of the reply is
/// `y` (121) or `Y` (89) and every other byte is whitespace.
pub open spec fn affirmative(s: Seq<u8>) -> bool {
    exists|i: int|
        0 <= i < s.len() && (s[i] == 121 || s[i] == 89) && (forall|j: int|
            0 <= j < s.len() && j != i ==> is_ascii_space(s[j]))
}

/// Whether the operator's raw reply line approves a termination.
pub fn is_affirmative(input: &Vec<u8>) -> (r: bool)
    ensures
        r == affirmative(input@),
{
    let n = input.len();
    let mut i: usize = 0;
    let mut found: bool = false;
    let mut yes: bool = false;
    let ghost mut w: int = 0;
    while i < n
        invariant
            n == input@.len(),
            i <= n,
            !found ==> forall|j: int| 0 <= j < i ==> is_ascii_space(#[trigger] input@[j]),
            found ==> 0 <= w < i && !is_ascii_space(input@[w]) && yes == (input@[w] == 121
                || input@[w] == 89) && (forall|j: int|
                0 <= j < i && j != w ==> is_ascii_space(#[trigger] input@[j])),
        decreases n - i,
    {
        let b = input[i];
        if !(b == 32 || b == 9 || b == 10 || b == 13) {
            if found {
                proof {
                    assert forall|c: int|
                        0 <= c < input@.len() && (input@[c] == 121 || input@[c]
                            == 89) implies !(forall|j: int|
                        0 <= j < input@.len() && j != c ==> is_ascii_space(
                            #[trigger] input@[j],
                        )) by {
                        if c == w {
                            assert(!is_ascii_space(input@[i as int]));
                            assert(exists|j: int|
                                0 <= j < input@.len() && j != c && !is_ascii_space(
                                    #[trigger] input@[j],
                                ));
                        } else {
                            assert(!is_ascii_space(input@[w]));
                            assert(exists|j: int|
                                0 <= j < input@.len() && j != c && !is_ascii_space(
                                    #[trigger] input@[j],
                                ));
                        }
                    }
                }
                return false;
            }
            found = true;
            yes = b == 121 || b == 89;
            proof {
                w = i as int;
            }
        }
        i = i + 1;
    }
    proof {
        if found && yes {
            assert(affirmative(input@)) by {
                assert(0 <= w < input@.len() && (input@[w] == 121 || input@[w] == 89) && (forall|
                    j: int,
                |
                    0 <= j < input@.len() && j != w ==> is_ascii_space(#[trigger] input@[j])));
            }
        }
        if found && !yes {
            assert forall|c: int|
                0 <= c < input@.len() && (input@[c] == 121 || input@[c] == 89) implies !(forall|
                j: int,
            |
                0 <= j < input@.len() && j != c ==> is_ascii_space(#[trigger] input@[j])) by {
                assert(c != w);
                assert(!is_ascii_space(input@[w]));
                assert(exists|j: int|
                    0 <= j < input@.len() && j != c && !is_ascii_space(#[trigger] input@[j]));
            }
        }
    }
    found && yes
}

/// Appending one element filters to the old result, extended by the element
/// exactly when it satisfies the predicate.
proof fn lemma_filter_push(
    s: Seq<ProcessSample>,
    pred: spec_fn(ProcessSample) -> bool,
    x: ProcessSample,
)
    ensures
        s.push(x).filter(pred) == if pred(x) {
            s.filter(pred).push(x)
        } else {
            s.filter(pred)
        },
{
    reveal_with_fuel(Seq::<_>::filter, 2);
    assert(s.push(x).drop_last() =~= s);
    assert(s.push(x).last() == x);
}

/// Filtering the empty sequence yields the empty sequence.
proof fn lemma_filter_empty(pred: spec_fn(ProcessSample) -> bool)
    ensures
        Seq::<ProcessSample>::empty().filter(pred) == Seq::<ProcessSample>::empty(),
{
    reveal_with_fuel(Seq::<_>::filter, 1);
}

/// The heavy processes of `procs`, in enumeration order.
fn filter_heavy(procs: Vec<ProcessSample>) -> (r: Vec<ProcessSample>)
    ensures
        r@ == heavy_of(procs@),
{
    let ghost all = procs@;
    let mut rest = procs;
    let mut out: Vec<ProcessSample> = Vec::new();
    proof {
        lemma_filter_empty(|q: ProcessSample| is_heavy(q));
        assert(all.take(0) =~= Seq::<ProcessSample>::empty());
    }
    while rest.len() > 0
        invariant
            rest@.len() <= all.len(),
            rest@ == all.skip(all.len() - rest@.len()),
            out@ == heavy_of(all.take(all.len() - rest@.len())),
        decreases rest.len(),
    {
        let ghost k = all.len() - rest@.len();
        let p = rest.remove(0);
        proof {
            assert(p == all[k as int]);
            assert(rest@ =~= all.skip(k + 1));
            assert(all.take(k + 1) =~= all.take(k as int).push(all[k as int]));
            lemma_filter_push(all.take(k as int), |q: ProcessSample| is_heavy(q), all[k as int]);
        }
        if p.cpu_usage > HEAVY_CPU_THRESHOLD {
            out.push(p);
        }
    }
    proof {
        assert(all.take(all.len() as int) =~= all);
    }
    out
}

/// The idle processes of `procs`, in enumeration order.
fn filter_idle(procs: Vec<ProcessSample>) -> (r: Vec<ProcessSample>)
    ensures
        r@ == idle_of(procs@),
{
    let ghost all = procs@;
    let mut rest = procs;
    let mut out: Vec<ProcessSample> = Vec::new();
    proof {
        lemma_filter_empty(|q: ProcessSample| is_idle(q));
        assert(all.take(0) =~= Seq::<ProcessSample>::empty());
    }
    while rest.len() > 0
        invariant
            rest@.len() <= all.len(),
            rest@ == all.skip(all.len() - rest@.len()),
            out@ == idle_of(all.take(all.len() - rest@.len())),
        decreases rest.len(),
    {
        let ghost k = all.len() - rest@.len();
        let p = rest.remove(0);
        proof {
            assert(p == all[k as int]);
            assert(rest@ =~= all.skip(k + 1));
            assert(all.take(k + 1) =~= all.take(k as int).push(all[k as int]));
            lemma_filter_push(all.take(k as int), |q: ProcessSample| is_idle(q), all[k as int]);
        }
        if p.run_time_seconds > IDLE_RUN_TIME_SECONDS && p.cpu_usage < IDLE_CPU_THRESHOLD {
            out.push(p);
        }
    }
    proof {
        assert(all.take(all.len() as int) =~= all);
    }
    out
}

/// Selection sort into descending CPU order, taking the first occurrence of
/// the greatest remaining CPU usage each step.
fn sort_desc(input: Vec<ProcessSample>) -> (r: Vec<ProcessSample>)
    ensures
        r@ == stable_sort_desc(input@),
        is_ranking(input@, r@),
{
    let ghost all = input@;
    let mut rest = input;
    let mut out: Vec<ProcessSample> = Vec::new();
    proof {
        assert(Seq::<ProcessSample>::empty() + stable_sort_desc(all) =~= stable_sort_desc(all));
    }
    while rest.len() > 0
        invariant
            out@ + stable_sort_desc(rest@) == stable_sort_desc(all),
            out@.to_multiset().add(rest@.to_multiset()) =~= all.to_multiset(),
            sorted_desc_by_cpu(out@),
            forall|i: int, j: int|
                0 <= i < out@.len() && 0 <= j < rest@.len() ==> out@[i].cpu_usage
                    >= rest@[j].cpu_usage,
        decreases rest.len(),
    {
        let mut m: usize = 0;
        let mut k: usize = 1;
        while k < rest.len()
            invariant
                rest@.len() > 0,
                m < k <= rest@.len(),
                forall|j: int| 0 <= j < k ==> rest@[m as int].cpu_usage >= rest@[j].cpu_usage,
                forall|j: int| 0 <= j < m ==> rest@[j].cpu_usage < rest@[m as int].cpu_usage,
            decreases rest.len() - k,
        {
            if rest[k].cpu_usage > rest[m].cpu_usage {
                proof {
                    assert(forall|j: int|
                        0 <= j < k ==> rest@[j].cpu_usage < rest@[k as int].cpu_usage);
                }
                m = k;
            }
            k = k + 1;
        }
        let ghost rest0 = rest@;
        let ghost out0 = out@;
        proof {
            lemma_first_max_index(rest0);
            let f = first_max_index(rest0);
            if f < m as int {
                assert(rest0[f].cpu_usage < rest0[m as int].cpu_usage);
                assert(rest0[f].cpu_usage >= rest0[m as int].cpu_usage);
            }
            if f > m as int {
                assert(rest0[m as int].cpu_usage < rest0[f].cpu_usage);
                assert(rest0[m as int].cpu_usage >= rest0[f].cpu_usage);
            }
            assert(f == m as int);
        }
        let p = rest.remove(m);
        out.push(p);
        proof {
            assert(stable_sort_desc(rest0) == seq![rest0[m as int]] + stable_sort_desc(
                rest0.remove(m as int),
            ));
            assert(out@ =~= out0 + seq![p]);
            assert((out0 + seq![p]) + stable_sort_desc(rest@) =~= out0 + (seq![p]
                + stable_sort_desc(rest@)));
            assert(out@ + stable_sort_desc(rest@) == stable_sort_desc(all));
            assert(rest0.contains(p));
            assert(rest0.to_multiset().count(p) > 0);
            assert(rest@.to_multiset() =~= rest0.to_multiset().remove(p));
            assert(out@.to_multiset() =~= out0.to_multiset().insert(p));
            assert(out@.to_multiset().add(rest@.to_multiset()) =~= all.to_multiset());
            assert(forall|j: int|
                0 <= j < rest@.len() ==> rest0.contains(#[trigger] rest@[j]));
        }
    }
    proof {
        assert(stable_sort_desc(rest@) =~= Seq::<ProcessSample>::empty());
        assert(out@ + Seq::<ProcessSample>::empty() =~= out@);
        assert(rest@.to_multiset() =~= Multiset::<ProcessSample>::empty());
        assert(out@.to_multiset() =~= all.to_multiset());
    }
    out
}

/// Heavy-set ranking: the processes whose CPU usage exceeds the heavy
/// threshold, sorted by descending CPU usage with ties kept in enumeration
/// order, capped at `MAX_CANDIDATES`.
pub fn heavy_candidates(procs: Vec<ProcessSample>) -> (r: Vec<ProcessSample>)
    ensures
        r@ == capped(stable_sort_desc(heavy_of(procs@))),
        exists|ranked: Seq<ProcessSample>|
            #[trigger] is_ranking(heavy_of(procs@), ranked) && r@ == capped(ranked),
        sorted_desc_by_cpu(r@),
        r@.len() == vstd::math::min(heavy_of(procs@).len() as int, MAX_CANDIDATES as int),
        forall|i: int| 0 <= i < r@.len() ==> is_heavy(#[trigger] r@[i]),
{
    let ghost all = procs@;
    let heavy = filter_heavy(procs);
    let mut sorted = sort_desc(heavy);
    let ghost ranked = sorted@;
    if sorted.len() > MAX_CANDIDATES {
        sorted.truncate(MAX_CANDIDATES);
    }
    proof {
        assert(is_ranking(heavy_of(all), ranked));
        assert(sorted@ == capped(ranked));
        assert(ranked.to_multiset().len() == ranked.len());
        assert(heavy_of(all).to_multiset().len() == heavy_of(all).len());
        assert(ranked.len() == heavy_of(all).len());
        assert forall|i: int| 0 <= i < sorted@.len() implies is_heavy(#[trigger] sorted@[i]) by {
            let x = sorted@[i];
            assert(ranked.contains(x));
            assert(heavy_of(all).to_multiset().count(x) > 0);
            assert(heavy_of(all).contains(x));
            let j = choose|j: int| 0 <= j < heavy_of(all).len() && heavy_of(all)[j] == x;
            assert(is_heavy(heavy_of(all)[j]));
        }
    }
    sorted
}

/// Idle-set selection: the processes that have run for over an hour with
/// near-zero CPU, in enumeration order, capped at `MAX_CANDIDATES`.
pub fn idle_candidates(procs: Vec<ProcessSample>) -> (r: Vec<ProcessSample>)
    ensures
        r@ == capped(idle_of(procs@)),
{
    let ghost all = procs@;
    let mut idle = filter_idle(procs);
    if idle.len() > MAX_CANDIDATES {
        idle.truncate(MAX_CANDIDATES);
    }
    idle
}

} // verus!
