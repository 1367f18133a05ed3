use vstd::prelude::*;

use crate::model::{is_manual, is_required, settle, settled, wf_forest, Test, TestState};

verus! {

/// What the executor did with one node, in the order it happened.
#[derive(Debug, Clone, Copy, PartialEq, Eq, Structural)]
pub enum Event {
    /// The node's probe ran and the node reported this outcome.
    Evaluated(usize, TestState),
    /// The node was reported as skipped without running its probe.
    Skipped(usize),
}

pub open spec fn event_node(e: Event) -> int {
    match e {
        Event::Evaluated(i, _) => i as int,
        Event::Skipped(i) => i as int,
    }
}

pub open spec fn is_evaluated(e: Event) -> bool {
    e is Evaluated
}

/// The outcome an event reports; a skip report reports `Skipped`.
pub open spec fn event_outcome(e: Event) -> TestState {
    match e {
        Event::Evaluated(_, o) => o,
        Event::Skipped(_) => TestState::Skipped,
    }
}

/// Skip reports for the nodes `from .. to`, in order.
pub open spec fn skip_events(from: int, to: int) -> Seq<Event> {
    Seq::new((to - from) as nat, |t: int| Event::Skipped((from + t) as usize))
}

/// `ev` is the report of a depth-first run over `nodes` from index `k` on:
/// each node reached is evaluated once, a manual node reports `Indeterminate`, the
/// children of a node that passed come next, every descendant of a failed
/// node is reported skipped, and the descendants of a node with any other
/// outcome are left out.
pub open spec fn is_walk(nodes: Seq<Test>, ev: Seq<Event>, k: int) -> bool
    decreases nodes.len() - k,
{
    if k < 0 || k >= nodes.len() {
        ev.len() == 0
    } else if ev.len() == 0 {
        false
    } else {
        let end = nodes[k].end as int;
        match ev[0] {
            Event::Skipped(_) => false,
            Event::Evaluated(i, o) => {
                if i != k || (is_manual(nodes[k]) && o != TestState::Indeterminate) || end <= k || end
                    > nodes.len() {
                    false
                } else if o == TestState::Pass {
                    is_walk(nodes, ev.drop_first(), k + 1)
                } else if o == TestState::Fail {
                    &&& end - k <= ev.len()
                    &&& ev.subrange(1, end - k) == skip_events(k + 1, end)
                    &&& is_walk(nodes, ev.subrange(end - k, ev.len() as int), end)
                } else {
                    is_walk(nodes, ev.drop_first(), end)
                }
            },
        }
    }
}

/// This event is a failure, which counts against the run.
pub open spec fn blocks(e: Event) -> bool {
    match e {
        Event::Evaluated(_, o) => o == TestState::Fail,
        Event::Skipped(_) => false,
    }
}

/// The aggregate verdict of a run: no evaluated node failed.
pub open spec fn trace_passed(ev: Seq<Event>) -> bool {
    forall|p: int| 0 <= p < ev.len() ==> !#[trigger] blocks(ev[p])
}

/// An evaluated outcome is what the probe returned for that node, after the
/// manual override.
pub open spec fn from_probe<P: Fn(usize) -> TestState>(probe: P, nodes: Seq<Test>, e: Event) -> bool {
    match e {
        Event::Evaluated(i, o) => exists|raw: TestState|
            #[trigger] call_ensures(probe, (i,), raw) && o == settled(nodes[i as int], raw),
        Event::Skipped(_) => true,
    }
}

proof fn lemma_passed_push(ev: Seq<Event>, e: Event)
    ensures
        trace_passed(ev.push(e)) == (trace_passed(ev) && !blocks(e)),
{
    let ev2 = ev.push(e);
    assert(ev2[ev.len() as int] == e);
    if trace_passed(ev) && !blocks(e) {
        assert forall|p: int| 0 <= p < ev2.len() implies !#[trigger] blocks(ev2[p]) by {
            if p < ev.len() {
                assert(ev2[p] == ev[p]);
            }
        }
    } else if !trace_passed(ev) {
        let p = choose|p: int| 0 <= p < ev.len() && #[trigger] blocks(ev[p]);
        assert(ev2[p] == ev[p]);
    }
}

proof fn lemma_walk_step(nodes: Seq<Test>, seg: Seq<Event>, k: int, next: int)
    requires
        0 <= k < nodes.len(),
        k < nodes[k].end <= nodes.len(),
        seg.len() > 0,
        seg[0] matches Event::Evaluated(i, o) && i == k && (is_manual(nodes[k]) ==> o == TestState::Indeterminate)
            && ((o == TestState::Pass && next == k + 1 && seg.len() == 1) || (o == TestState::Fail && next
            == nodes[k].end && seg.subrange(1, seg.len() as int) == skip_events(k + 1, next)) || (o
            != TestState::Pass && o != TestState::Fail && next == nodes[k].end && seg.len() == 1)),
    ensures
        forall|rest: Seq<Event>| #[trigger]
            is_walk(nodes, rest, next) ==> is_walk(nodes, seg + rest, k),
{
    assert forall|rest: Seq<Event>| #[trigger] is_walk(nodes, rest, next) implies is_walk(
        nodes,
        seg + rest,
        k,
    ) by {
        let whole = seg + rest;
        assert(whole[0] == seg[0]);
        if let Event::Evaluated(_, o) = seg[0] {
            if o == TestState::Fail {
                assert(seg.subrange(1, seg.len() as int).len() == next - k - 1);
                assert(whole.subrange(1, next - k) =~= seg.subrange(1, seg.len() as int));
                assert(whole.subrange(next - k, whole.len() as int) =~= rest);
            } else {
                assert(whole.drop_first() =~= rest);
            }
        }
    }
}

proof fn lemma_skips_append(ev: Seq<Event>, from: int, to: int)
    requires
        from <= to,
    ensures
        trace_passed(ev + skip_events(from, to)) == trace_passed(ev),
        forall|p: int| 0 <= p < ev.len() ==> (ev + skip_events(from, to))[p] == ev[p],
        forall|p: int|
            ev.len() <= p < ev.len() + (to - from) ==> #[trigger] (ev + skip_events(from, to))[p]
                is Skipped,
{
    let all = ev + skip_events(from, to);
    if trace_passed(ev) {
        assert forall|p: int| 0 <= p < all.len() implies !#[trigger] blocks(all[p]) by {
            if p < ev.len() {
                assert(all[p] == ev[p]);
            }
        }
    } else {
        let p = choose|p: int| 0 <= p < ev.len() && #[trigger] blocks(ev[p]);
        assert(all[p] == ev[p]);
    }
}

/// Reports every node strictly below node `k` as skipped, in depth-first
/// pre-order, and appends those skip reports to `events`.
pub fn skip_subtree<S: Fn(usize)>(tests: &Vec<Test>, k: usize, skip: &S, events: &mut Vec<Event>)
    requires
        wf_forest(tests@),
        k < tests.len(),
        forall|i: usize| i < tests.len() ==> #[trigger] skip.requires((i,)),
    ensures
        final(events)@ == old(events)@ + skip_events(k + 1, tests@[k as int].end as int),
{
    let end = tests[k].end;
    let ghost start = events@;
    let mut j: usize = k + 1;
    while j < end
        invariant
            k < j <= end <= tests.len(),
            end == tests@[k as int].end,
            forall|i: usize| i < tests.len() ==> #[trigger] skip.requires((i,)),
            events@ == start + skip_events(k + 1, j as int),
        decreases end - j,
    {
        skip(j);
        events.push(Event::Skipped(j));
        assert(start + skip_events(k + 1, j + 1) =~= (start + skip_events(k + 1, j as int)).push(
            Event::Skipped(j),
        ));
        j = j + 1;
    }
}

/// Runs a forest of checks depth first.
///
/// `probe(i)` evaluates node `i` (and reports it); `skip(i)` reports node `i`
/// as skipped. Returns the events in order and whether no evaluated node
/// failed.
pub fn run_test<P, S>(tests: &Vec<Test>, probe: &P, skip: &S) -> (r: (Vec<Event>, bool)) where
    P: Fn(usize) -> TestState,
    S: Fn(usize),

    requires
        wf_forest(tests@),
        forall|i: usize| i < tests.len() ==> #[trigger] probe.requires((i,)),
        forall|i: usize| i < tests.len() ==> #[trigger] skip.requires((i,)),
    ensures
        is_walk(tests@, r.0@, 0),
        r.1 == trace_passed(r.0@),
        forall|p: int| 0 <= p < r.0.len() ==> #[trigger] from_probe(*probe, tests@, r.0@[p]),
{
    let mut events: Vec<Event> = Vec::new();
    let mut passed = true;
    let mut k: usize = 0;
    while k < tests.len()
        invariant
            wf_forest(tests@),
            k <= tests.len(),
            forall|i: usize| i < tests.len() ==> #[trigger] probe.requires((i,)),
            forall|i: usize| i < tests.len() ==> #[trigger] skip.requires((i,)),
            forall|rest: Seq<Event>| #[trigger]
                is_walk(tests@, rest, k as int) ==> is_walk(tests@, events@ + rest, 0),
            passed == trace_passed(events@),
            forall|p: int| 0 <= p < events.len() ==> #[trigger] from_probe(*probe, tests@, events@[p]),
        decreases tests.len() - k,
    {
        let t = &tests[k];
        let raw = probe(k);
        let o = settle(t, raw);
        let ghost before = events@;
        events.push(Event::Evaluated(k, o));
        if o == TestState::Fail {
            passed = false;
        }
        proof {
            lemma_passed_push(before, Event::Evaluated(k, o));
            assert(from_probe(*probe, tests@, events@[before.len() as int]));
            assert forall|p: int| 0 <= p < events.len() implies #[trigger] from_probe(
                *probe,
                tests@,
                events@[p],
            ) by {
                if p < before.len() {
                    assert(events@[p] == before[p]);
                }
            }
        }
        let ghost head = events@;
        let next: usize;
        if o == TestState::Pass {
            next = k + 1;
        } else if o == TestState::Fail {
            skip_subtree(tests, k, skip, &mut events);
            next = t.end;
            proof {
                lemma_skips_append(head, k + 1, next as int);
                assert forall|p: int| 0 <= p < events.len() implies #[trigger] from_probe(
                    *probe,
                    tests@,
                    events@[p],
                ) by {
                    if p < head.len() {
                        assert(events@[p] == head[p]);
                    }
                }
            }
        } else {
            next = t.end;
        }
        proof {
            let seg = events@.subrange(before.len() as int, events@.len() as int);
            assert(events@ =~= before + seg);
            assert(seg[0] == Event::Evaluated(k, o));
            if o == TestState::Fail {
                assert(seg.subrange(1, seg.len() as int) =~= skip_events(k + 1, next as int));
            }
            lemma_walk_step(tests@, seg, k as int, next as int);
            assert forall|rest: Seq<Event>| #[trigger] is_walk(tests@, rest, next as int) implies is_walk(
                tests@,
                events@ + rest,
                0,
            ) by {
                assert(is_walk(tests@, seg + rest, k as int));
                assert(before + (seg + rest) =~= events@ + rest);
            }
        }
        k = next;
    }
    proof {
        assert(is_walk(tests@, Seq::<Event>::empty(), k as int));
        assert(events@ + Seq::<Event>::empty() =~= events@);
    }
    (events, passed)
}

/// Where the rest of a walk starts, after the events of node `k`.
pub open spec fn walk_resume(nodes: Seq<Test>, ev: Seq<Event>, k: int) -> (int, int) {
    match ev[0] {
        Event::Evaluated(_, o) => if o == TestState::Pass {
            (1, k + 1)
        } else if o == TestState::Fail {
            (nodes[k].end - k, nodes[k].end as int)
        } else {
            (1, nodes[k].end as int)
        },
        Event::Skipped(_) => (1, k + 1),
    }
}

/// Facts every walk from `k` has: its nodes lie in `k ..`, strictly
/// increasing; manual nodes report `Indeterminate`; a failed node is followed
/// by the skip reports of its subtree.
pub proof fn lemma_walk_shape(nodes: Seq<Test>, ev: Seq<Event>, k: int)
    requires
        0 <= k,
        is_walk(nodes, ev, k),
    ensures
        forall|p: int| 0 <= p < ev.len() ==> k <= #[trigger] event_node(ev[p]) < nodes.len(),
        forall|p: int, q: int|
            0 <= p < q < ev.len() ==> event_node(#[trigger] ev[p]) < event_node(#[trigger] ev[q]),
        forall|p: int|
            0 <= p < ev.len() && #[trigger] is_evaluated(ev[p]) && is_manual(nodes[event_node(ev[p])])
                ==> event_outcome(ev[p]) == TestState::Indeterminate,
        forall|p: int, t: int|
            0 <= p < ev.len() && event_outcome(#[trigger] ev[p]) == TestState::Fail && 0 <= t
                < nodes[event_node(ev[p])].end - event_node(ev[p]) - 1 ==> p + 1 + t < ev.len()
                && #[trigger] ev[p + 1 + t] == Event::Skipped((event_node(ev[p]) + 1 + t) as usize),
    decreases nodes.len() - k,
{
    if k < nodes.len() {
        let (off, n) = walk_resume(nodes, ev, k);
        let rest = ev.subrange(off, ev.len() as int);
        if let Event::Evaluated(_, o) = ev[0] {
            if o != TestState::Fail {
                assert(rest =~= ev.drop_first());
            }
        }
        lemma_walk_shape(nodes, rest, n);
        assert forall|p: int| 0 <= p < ev.len() implies k <= #[trigger] event_node(ev[p]) < nodes.len()
            && (p < off ==> event_node(ev[p]) == k + p) by {
            if p >= off {
                assert(ev[p] == rest[p - off]);
            } else if p > 0 {
                assert(ev.subrange(1, off)[p - 1] == ev[p]);
            }
        }
        assert forall|p: int, q: int| 0 <= p < q < ev.len() implies event_node(#[trigger] ev[p])
            < event_node(#[trigger] ev[q]) by {
            if q >= off {
                assert(ev[q] == rest[q - off]);
                if p >= off {
                    assert(ev[p] == rest[p - off]);
                }
            }
        }
        assert forall|p: int|
            0 <= p < ev.len() && #[trigger] is_evaluated(ev[p]) && is_manual(nodes[event_node(ev[p])])
                implies event_outcome(ev[p]) == TestState::Indeterminate by {
            if p >= off {
                assert(ev[p] == rest[p - off]);
            } else if p > 0 {
                assert(ev.subrange(1, off)[p - 1] == ev[p]);
            }
        }
        assert forall|p: int, t: int|
            0 <= p < ev.len() && event_outcome(#[trigger] ev[p]) == TestState::Fail && 0 <= t
                < nodes[event_node(ev[p])].end - event_node(ev[p]) - 1 implies p + 1 + t < ev.len()
                && #[trigger] ev[p + 1 + t] == Event::Skipped((event_node(ev[p]) + 1 + t) as usize) by {
            {
                if p >= off {
                    assert(ev[p] == rest[p - off]);
                    assert(ev[p + 1 + t] == rest[p - off + 1 + t]);
                } else if p > 0 {
                    assert(ev.subrange(1, off)[p - 1] == ev[p]);
                } else {
                    assert(ev.subrange(1, off)[t] == ev[1 + t]);
                }
            }
        }
    }
}

/// When a node fails, every node below it is reported as skipped, and none of
/// them is evaluated.
pub proof fn lemma_fail_skips_descendants(nodes: Seq<Test>, ev: Seq<Event>, p: int, j: int)
    requires
        is_walk(nodes, ev, 0),
        0 <= p < ev.len(),
        event_outcome(ev[p]) == TestState::Fail,
        event_node(ev[p]) < j < nodes[event_node(ev[p])].end,
    ensures
        exists|q: int| 0 <= q < ev.len() && ev[q] == Event::Skipped(j as usize),
        forall|q: int| 0 <= q < ev.len() && #[trigger] is_evaluated(ev[q]) ==> event_node(ev[q]) != j,
{
    lemma_walk_shape(nodes, ev, 0);
    let i = event_node(ev[p]);
    let w = p + 1 + (j - i - 1);
    assert(ev[w] == Event::Skipped(j as usize));
    assert forall|q: int| 0 <= q < ev.len() && #[trigger] is_evaluated(ev[q]) implies event_node(ev[q])
        != j by {
        if q < w {
            assert(event_node(ev[q]) < event_node(ev[w]));
        } else if q > w {
            assert(event_node(ev[w]) < event_node(ev[q]));
        }
    }
}

/// A manual node always reports `Indeterminate`, whatever its probe gave.
pub proof fn lemma_manual_is_indeterminate(nodes: Seq<Test>, ev: Seq<Event>, p: int)
    requires
        is_walk(nodes, ev, 0),
        0 <= p < ev.len(),
        is_evaluated(ev[p]),
        is_manual(nodes[event_node(ev[p])]),
    ensures
        event_outcome(ev[p]) == TestState::Indeterminate,
{
    lemma_walk_shape(nodes, ev, 0);
}

/// A run fails exactly when some automatic node reports `Fail`; over a forest
/// of required nodes, exactly when some required, automatic node does.
pub proof fn lemma_verdict(nodes: Seq<Test>, ev: Seq<Event>)
    requires
        is_walk(nodes, ev, 0),
    ensures
        !trace_passed(ev) <==> exists|p: int|
            0 <= p < ev.len() && event_outcome(#[trigger] ev[p]) == TestState::Fail && !is_manual(
                nodes[event_node(ev[p])],
            ),
        (forall|i: int| 0 <= i < nodes.len() ==> is_required(#[trigger] nodes[i])) ==> (!trace_passed(ev)
            <==> exists|p: int|
            0 <= p < ev.len() && event_outcome(#[trigger] ev[p]) == TestState::Fail && is_required(
                nodes[event_node(ev[p])],
            ) && !is_manual(nodes[event_node(ev[p])])),
{
    lemma_walk_shape(nodes, ev, 0);
    if !trace_passed(ev) {
        let p = choose|p: int| 0 <= p < ev.len() && #[trigger] blocks(ev[p]);
        assert(is_evaluated(ev[p]));
        assert(0 <= event_node(ev[p]) < nodes.len());
    }
    if exists|p: int|
        0 <= p < ev.len() && event_outcome(#[trigger] ev[p]) == TestState::Fail && !is_manual(
            nodes[event_node(ev[p])],
        ) {
        let p = choose|p: int|
            0 <= p < ev.len() && event_outcome(#[trigger] ev[p]) == TestState::Fail && !is_manual(
                nodes[event_node(ev[p])],
            );
        assert(blocks(ev[p]));
    }
}

/// The first event of a walk from `k` evaluates node `k`; unless it failed,
/// the rest is a walk from the next node to run.
pub proof fn lemma_walk_head(nodes: Seq<Test>, ev: Seq<Event>, k: int)
    requires
        0 <= k < nodes.len(),
        is_walk(nodes, ev, k),
    ensures
        ev.len() > 0,
        is_evaluated(ev[0]),
        event_node(ev[0]) == k,
        event_outcome(ev[0]) == TestState::Pass ==> is_walk(nodes, ev.drop_first(), k + 1),
        event_outcome(ev[0]) != TestState::Pass && event_outcome(ev[0]) != TestState::Fail ==> is_walk(
            nodes,
            ev.drop_first(),
            nodes[k].end as int,
        ),
{
}

/// Two runs agree on every node that both of them evaluated.
pub open spec fn same_outcomes(a: Seq<Event>, b: Seq<Event>) -> bool {
    forall|p: int, q: int|
        0 <= p < a.len() && 0 <= q < b.len() && #[trigger] is_evaluated(a[p]) && #[trigger] is_evaluated(
            b[q],
        ) && event_node(a[p]) == event_node(b[q]) ==> event_outcome(a[p]) == event_outcome(b[q])
}

/// Two runs over one forest whose probes give the same outcome for each node
/// report the same events, and so the same verdict.
pub proof fn lemma_runs_agree(nodes: Seq<Test>, a: Seq<Event>, b: Seq<Event>, k: int)
    requires
        0 <= k,
        is_walk(nodes, a, k),
        is_walk(nodes, b, k),
        same_outcomes(a, b),
    ensures
        a == b,
        trace_passed(a) == trace_passed(b),
    decreases nodes.len() - k,
{
    if k < nodes.len() {
        assert(is_evaluated(a[0]) && is_evaluated(b[0]));
        assert(a[0] == b[0]);
        let (off, n) = walk_resume(nodes, a, k);
        let ra = a.subrange(off, a.len() as int);
        let rb = b.subrange(off, b.len() as int);
        if let Event::Evaluated(_, o) = a[0] {
            if o != TestState::Fail {
                assert(ra =~= a.drop_first());
                assert(rb =~= b.drop_first());
            }
        }
        assert forall|p: int, q: int|
            0 <= p < ra.len() && 0 <= q < rb.len() && #[trigger] is_evaluated(ra[p]) && #[trigger] is_evaluated(
                rb[q],
            ) && event_node(ra[p]) == event_node(rb[q]) implies event_outcome(ra[p]) == event_outcome(
            rb[q],
        ) by {
            assert(ra[p] == a[p + off]);
            assert(rb[q] == b[q + off]);
        }
        lemma_runs_agree(nodes, ra, rb, n);
        assert forall|t: int| 0 <= t < off implies a[t] == b[t] by {
            if t > 0 {
                assert(a.subrange(1, off)[t - 1] == a[t]);
                assert(b.subrange(1, off)[t - 1] == b[t]);
            }
        }
        assert(a.subrange(0, off) =~= b.subrange(0, off));
        assert(a =~= a.subrange(0, off) + ra);
        assert(b =~= b.subrange(0, off) + rb);
    } else {
        assert(a =~= b);
    }
}

/// The two forests of a full run.
#[derive(Debug, Clone, Copy, PartialEq, Eq, Structural)]
pub enum Section {
    Required,
    Optional,
}

/// The events of a full run and the verdict of each forest.
#[derive(Debug)]
pub struct CheckRun {
    pub required: Vec<Event>,
    pub required_passed: bool,
    pub optional: Vec<Event>,
    pub optional_passed: bool,
}

impl CheckRun {
    /// The verdict of the whole run: that of the required forest alone.
    pub fn passed(&self) -> (r: bool)
        ensures
            r == self.required_passed,
    {
        self.required_passed
    }
}

/// An evaluated outcome in forest `s` is what `probe(s, i)` returned for that
/// node, after the manual override.
pub open spec fn from_section_probe<P: Fn(Section, usize) -> TestState>(
    probe: P,
    s: Section,
    nodes: Seq<Test>,
    e: Event,
) -> bool {
    match e {
        Event::Evaluated(i, o) => exists|raw: TestState|
            #[trigger] call_ensures(probe, (s, i), raw) && o == settled(nodes[i as int], raw),
        Event::Skipped(_) => true,
    }
}

/// Every evaluated outcome of `ev` came from `probe` in forest `s`.
pub open spec fn probed_by<P: Fn(Section, usize) -> TestState>(
    probe: P,
    s: Section,
    nodes: Seq<Test>,
    ev: Seq<Event>,
) -> bool {
    forall|p: int| 0 <= p < ev.len() ==> #[trigger] from_section_probe(probe, s, nodes, ev[p])
}

/// Runs the required forest, then the optional one, whatever the first gave.
///
/// `announce(s)` is called before each forest runs; `probe(s, i)` evaluates
/// node `i` of forest `s` and `skip(s, i)` reports it as skipped.
pub fn run_all_checks<A, P, S>(
    required: &Vec<Test>,
    optional: &Vec<Test>,
    announce: &A,
    probe: &P,
    skip: &S,
) -> (r: CheckRun) where A: Fn(Section), P: Fn(Section, usize) -> TestState, S: Fn(Section, usize)
    requires
        wf_forest(required@),
        wf_forest(optional@),
        announce.requires((Section::Required,)),
        announce.requires((Section::Optional,)),
        forall|s: Section, i: usize| #[trigger] probe.requires((s, i)),
        forall|s: Section, i: usize| #[trigger] skip.requires((s, i)),
    ensures
        is_walk(required@, r.required@, 0),
        probed_by(*probe, Section::Required, required@, r.required@),
        r.required_passed == trace_passed(r.required@),
        is_walk(optional@, r.optional@, 0),
        probed_by(*probe, Section::Optional, optional@, r.optional@),
        r.optional_passed == trace_passed(r.optional@),
{
    announce(Section::Required);
    let required_probe = |i: usize| -> (o: TestState)
        requires
            probe.requires((Section::Required, i)),
        ensures
            call_ensures(*probe, (Section::Required, i), o),
        { probe(Section::Required, i) };
    let required_skip = |i: usize|
        requires
            skip.requires((Section::Required, i)),
        { skip(Section::Required, i) };
    let (required_events, required_passed) = run_test(required, &required_probe, &required_skip);
    proof {
        assert forall|p: int| 0 <= p < required_events.len() implies #[trigger] from_section_probe(
            *probe,
            Section::Required,
            required@,
            required_events@[p],
        ) by {
            assert(from_probe(required_probe, required@, required_events@[p]));
            if let Event::Evaluated(i, o) = required_events@[p] {
                let raw = choose|raw: TestState|
                    #[trigger] call_ensures(required_probe, (i,), raw) && o == settled(required@[i as int], raw);
                assert(call_ensures(*probe, (Section::Required, i), raw));
            }
        }
    }
    announce(Section::Optional);
    let optional_probe = |i: usize| -> (o: TestState)
        requires
            probe.requires((Section::Optional, i)),
        ensures
            call_ensures(*probe, (Section::Optional, i), o),
        { probe(Section::Optional, i) };
    let optional_skip = |i: usize|
        requires
            skip.requires((Section::Optional, i)),
        { skip(Section::Optional, i) };
    let (optional_events, optional_passed) = run_test(optional, &optional_probe, &optional_skip);
    proof {
        assert forall|p: int| 0 <= p < optional_events.len() implies #[trigger] from_section_probe(
            *probe,
            Section::Optional,
            optional@,
            optional_events@[p],
        ) by {
            assert(from_probe(optional_probe, optional@, optional_events@[p]));
            if let Event::Evaluated(i, o) = optional_events@[p] {
                let raw = choose|raw: TestState|
                    #[trigger] call_ensures(optional_probe, (i,), raw) && o == settled(optional@[i as int], raw);
                assert(call_ensures(*probe, (Section::Optional, i), raw));
            }
        }
    }
    CheckRun {
        required: required_events,
        required_passed,
        optional: optional_events,
        optional_passed,
    }
}

/// Two runs of forest `s` whose probes give the same value for each node of
/// it report the same events and reach the same verdict. So two runs on an
/// unchanged host agree; the required verdict does not depend on what the
/// optional probes give; and the optional report does not depend on what the
/// required probes give.
pub proof fn lemma_same_signals_same_run<P1, P2>(
    nodes: Seq<Test>,
    s: Section,
    p1: P1,
    p2: P2,
    a: Seq<Event>,
    b: Seq<Event>,
) where P1: Fn(Section, usize) -> TestState, P2: Fn(Section, usize) -> TestState
    requires
        is_walk(nodes, a, 0),
        is_walk(nodes, b, 0),
        probed_by(p1, s, nodes, a),
        probed_by(p2, s, nodes, b),
        forall|i: usize, x: TestState, y: TestState|
            #[trigger] call_ensures(p1, (s, i), x) && #[trigger] call_ensures(p2, (s, i), y) ==> x == y,
    ensures
        a == b,
        trace_passed(a) == trace_passed(b),
{
    assert forall|p: int, q: int|
        0 <= p < a.len() && 0 <= q < b.len() && #[trigger] is_evaluated(a[p]) && #[trigger] is_evaluated(
            b[q],
        ) && event_node(a[p]) == event_node(b[q]) implies event_outcome(a[p]) == event_outcome(b[q]) by {
        assert(from_section_probe(p1, s, nodes, a[p]));
        assert(from_section_probe(p2, s, nodes, b[q]));
        if let Event::Evaluated(i, o) = a[p] {
            if let Event::Evaluated(j, o2) = b[q] {
                let x = choose|x: TestState| #[trigger] call_ensures(p1, (s, i), x) && o == settled(nodes[i as int], x);
                let y = choose|y: TestState| #[trigger] call_ensures(p2, (s, j), y) && o2 == settled(nodes[j as int], y);
                assert(x == y);
            }
        }
    }
    lemma_runs_agree(nodes, a, b, 0);
}

} // verus!
