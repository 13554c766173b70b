//! What holds of whole runs: a session fed a sequence of events.

use vstd::prelude::*;
use crate::session::{
    advance_spec, initial, step_spec, Event, Mode, Outcome, Phase, SessionView,
};

verus! {

/// The state of a session after it takes the events in order.
pub open spec fn run(s: SessionView, events: Seq<Event>) -> SessionView
    decreases events.len(),
{
    if events.len() == 0 {
        s
    } else {
        step_spec(run(s, events.drop_last()), events.last()).0
    }
}

/// `n` reports of a deletion that succeeded.
pub open spec fn successes(n: nat) -> Seq<Event> {
    Seq::new(n, |i: int| Event::Deleted(true))
}

/// The indices of the first `n` entries, in order.
pub open spec fn first_entries(n: nat) -> Seq<nat> {
    Seq::new(n, |i: int| i as nat)
}

/// The events that deal with one entry in interactive mode: the answer, and
/// when it agrees, the result of the deletion.
pub open spec fn entry_events(yes: bool, ok: bool) -> Seq<Event> {
    if yes {
        seq![Event::Answer(true), Event::Deleted(ok)]
    } else {
        seq![Event::Answer(false)]
    }
}

/// The events that deal with the first `n` entries in interactive mode.
pub open spec fn interactive_events(answers: Seq<bool>, results: Seq<bool>, n: nat) -> Seq<Event>
    decreases n,
{
    if n == 0 {
        seq![]
    } else {
        interactive_events(answers, results, (n - 1) as nat) + entry_events(
            answers[n - 1],
            results[n - 1],
        )
    }
}

proof fn lemma_run_append(s: SessionView, a: Seq<Event>, b: Seq<Event>)
    ensures
        run(s, a + b) == run(run(s, a), b),
    decreases b.len(),
{
    if b.len() == 0 {
        assert(a + b =~= a);
    } else {
        lemma_run_append(s, a, b.drop_last());
        assert((a + b).drop_last() =~= a + b.drop_last());
        assert((a + b).last() == b.last());
    }
}

proof fn lemma_run_one(s: SessionView, e: Event)
    ensures
        run(s, seq![e]) == step_spec(s, e).0,
{
    assert(seq![e].drop_last() =~= Seq::<Event>::empty());
    assert(run(s, Seq::<Event>::empty()) == s);
}

proof fn lemma_run_two(s: SessionView, e1: Event, e2: Event)
    ensures
        run(s, seq![e1, e2]) == step_spec(step_spec(s, e1).0, e2).0,
{
    assert(seq![e1, e2].drop_last() =~= seq![e1]);
    lemma_run_one(s, e1);
}

/// Once a run has finished, every further event leaves it as it is: nothing
/// more is asked or deleted.
pub proof fn finished_is_final(s: SessionView, events: Seq<Event>)
    requires
        s.phase is Finished,
    ensures
        run(s, events) == s,
    decreases events.len(),
{
    if events.len() > 0 {
        finished_is_final(s, events.drop_last());
    }
}

/// When nothing matched, starting the run finishes it as a "no matches"
/// run, in every mode: no question is asked and nothing is deleted, whatever
/// comes afterwards.
pub proof fn no_matches_run(mode: Mode, events: Seq<Event>)
    ensures
        run(initial(mode, 0), seq![Event::Begin] + events).phase == Phase::Finished(
            Outcome::NoMatches,
        ),
        run(initial(mode, 0), seq![Event::Begin] + events).prompts == 0,
        run(initial(mode, 0), seq![Event::Begin] + events).deleted.len() == 0,
{
    let s0 = initial(mode, 0);
    lemma_run_append(s0, seq![Event::Begin], events);
    lemma_run_one(s0, Event::Begin);
    finished_is_final(run(s0, seq![Event::Begin]), events);
}

/// A run that deletes entry after entry, from the first, while each deletion
/// succeeds.
proof fn lemma_successes(s: SessionView, m: nat)
    requires
        s.phase is Deleting,
        !(s.mode is Interactive),
        s.next == 0,
        s.deleted == Seq::<nat>::empty(),
        0 < s.total <= usize::MAX,
        m <= s.total,
    ensures
        run(s, successes(m)).mode == s.mode,
        run(s, successes(m)).total == s.total,
        run(s, successes(m)).prompts == s.prompts,
        run(s, successes(m)).deleted == first_entries(m),
        m < s.total ==> run(s, successes(m)).phase is Deleting && run(s, successes(m)).next == m,
        m == s.total ==> run(s, successes(m)).phase == Phase::Finished(Outcome::Completed),
    decreases m,
{
    if m == 0 {
        assert(first_entries(0) =~= Seq::<nat>::empty());
    } else {
        lemma_successes(s, (m - 1) as nat);
        assert(successes(m).drop_last() =~= successes((m - 1) as nat));
        assert(first_entries((m - 1) as nat).push((m - 1) as nat) =~= first_entries(m));
    }
}

/// In force mode, when every deletion succeeds, every matched entry is
/// deleted, in order, and no question is asked.
pub proof fn force_deletes_all(total: nat)
    requires
        0 < total <= usize::MAX,
    ensures
        run(initial(Mode::Force, total), seq![Event::Begin] + successes(total)).phase
            == Phase::Finished(Outcome::Completed),
        run(initial(Mode::Force, total), seq![Event::Begin] + successes(total)).deleted
            == first_entries(total),
        run(initial(Mode::Force, total), seq![Event::Begin] + successes(total)).prompts == 0,
{
    let s0 = initial(Mode::Force, total);
    lemma_run_append(s0, seq![Event::Begin], successes(total));
    lemma_run_one(s0, Event::Begin);
    lemma_successes(run(s0, seq![Event::Begin]), total);
}

/// In force mode, the first failed deletion ends the run: the entries before
/// it are deleted, it and every entry after it are not, and no question is
/// asked, whatever comes afterwards.
pub proof fn force_stops_at_failure(total: nat, k: nat, rest: Seq<Event>)
    requires
        k < total <= usize::MAX,
    ensures
        ({
            let s = run(
                initial(Mode::Force, total),
                seq![Event::Begin] + successes(k) + seq![Event::Deleted(false)] + rest,
            );
            &&& s.phase == Phase::Finished(Outcome::Aborted(k as usize))
            &&& s.deleted == first_entries(k)
            &&& forall|j: nat| k <= j ==> !s.deleted.contains(j)
            &&& s.prompts == 0
        }),
{
    let s0 = initial(Mode::Force, total);
    let b = seq![Event::Begin];
    let f = seq![Event::Deleted(false)];
    lemma_run_append(s0, b + successes(k) + f, rest);
    lemma_run_append(s0, b + successes(k), f);
    lemma_run_append(s0, b, successes(k));
    lemma_run_one(s0, Event::Begin);
    let s1 = run(s0, b);
    lemma_successes(s1, k);
    let s2 = run(s1, successes(k));
    lemma_run_one(s2, Event::Deleted(false));
    let s3 = run(s2, f);
    finished_is_final(s3, rest);
    assert forall|j: nat| k <= j implies !s3.deleted.contains(j) by {
        if s3.deleted.contains(j) {
            let i = choose|i: int| 0 <= i < s3.deleted.len() && s3.deleted[i] == j;
            assert(s3.deleted[i] == i as nat);
        }
    }
}

/// In batch-confirm mode, declining the single question ends the run with
/// nothing deleted, whatever comes afterwards.
pub proof fn batch_declined(total: nat, rest: Seq<Event>)
    requires
        0 < total <= usize::MAX,
    ensures
        ({
            let s = run(
                initial(Mode::BatchConfirm, total),
                seq![Event::Begin, Event::Answer(false)] + rest,
            );
            &&& s.phase == Phase::Finished(Outcome::Declined)
            &&& s.deleted.len() == 0
            &&& s.prompts == 1
        }),
{
    let s0 = initial(Mode::BatchConfirm, total);
    lemma_run_append(s0, seq![Event::Begin, Event::Answer(false)], rest);
    lemma_run_two(s0, Event::Begin, Event::Answer(false));
    finished_is_final(run(s0, seq![Event::Begin, Event::Answer(false)]), rest);
}

/// In batch-confirm mode, agreeing to the single question deletes every
/// matched entry, in order, when every deletion succeeds.
pub proof fn batch_confirmed(total: nat)
    requires
        0 < total <= usize::MAX,
    ensures
        ({
            let s = run(
                initial(Mode::BatchConfirm, total),
                seq![Event::Begin, Event::Answer(true)] + successes(total),
            );
            &&& s.phase == Phase::Finished(Outcome::Completed)
            &&& s.deleted == first_entries(total)
            &&& s.prompts == 1
        }),
{
    let s0 = initial(Mode::BatchConfirm, total);
    let b = seq![Event::Begin, Event::Answer(true)];
    lemma_run_append(s0, b, successes(total));
    lemma_run_two(s0, Event::Begin, Event::Answer(true));
    lemma_successes(run(s0, b), total);
}

/// The entries, among the first `n`, whose question was agreed to and whose
/// deletion succeeded, in order.
pub open spec fn confirmed_entries(answers: Seq<bool>, results: Seq<bool>, n: nat) -> Seq<nat>
    decreases n,
{
    if n == 0 {
        seq![]
    } else {
        let prev = confirmed_entries(answers, results, (n - 1) as nat);
        if answers[n - 1] && results[n - 1] {
            prev.push((n - 1) as nat)
        } else {
            prev
        }
    }
}

proof fn lemma_confirmed_contains(answers: Seq<bool>, results: Seq<bool>, n: nat, x: nat)
    ensures
        confirmed_entries(answers, results, n).contains(x) <==> (x < n && answers[x as int]
            && results[x as int]),
    decreases n,
{
    if n > 0 {
        let i = (n - 1) as nat;
        lemma_confirmed_contains(answers, results, i, x);
        let prev = confirmed_entries(answers, results, i);
        let cur = confirmed_entries(answers, results, n);
        if answers[i as int] && results[i as int] {
            assert(cur == prev.push(i));
            if x == i {
                assert(cur[cur.len() - 1] == i);
            }
            if cur.contains(x) && x != i {
                let k = choose|k: int| 0 <= k < cur.len() && cur[k] == x;
                assert(prev[k] == x);
            }
            if prev.contains(x) {
                let k = choose|k: int| 0 <= k < prev.len() && prev[k] == x;
                assert(cur[k] == x);
            }
        }
    }
}

/// An interactive run after the first `j` entries were dealt with.
proof fn lemma_interactive_prefix(answers: Seq<bool>, results: Seq<bool>, j: nat)
    requires
        0 < answers.len() <= usize::MAX,
        results.len() == answers.len(),
        j <= answers.len(),
    ensures
        ({
            let n = answers.len();
            let s = run(
                run(initial(Mode::Interactive, n), seq![Event::Begin]),
                interactive_events(answers, results, j),
            );
            &&& s.mode == Mode::Interactive
            &&& s.total == n
            &&& j < n ==> s.phase is Asking && s.next == j && s.prompts == j + 1
            &&& j == n ==> s.phase == Phase::Finished(Outcome::Completed) && s.prompts == n
            &&& s.deleted == confirmed_entries(answers, results, j)
        }),
    decreases j,
{
    let n = answers.len();
    let s0 = initial(Mode::Interactive, n);
    lemma_run_one(s0, Event::Begin);
    let s1 = run(s0, seq![Event::Begin]);
    if j == 0 {
        assert(interactive_events(answers, results, 0) =~= Seq::<Event>::empty());
        assert(run(s1, Seq::<Event>::empty()) == s1);
        assert(s1.deleted =~= Seq::<nat>::empty());
    } else {
        let i = (j - 1) as nat;
        lemma_interactive_prefix(answers, results, i);
        let prev = interactive_events(answers, results, i);
        let t = run(s1, prev);
        let entry = entry_events(answers[i as int], results[i as int]);
        lemma_run_append(s1, prev, entry);
        assert(interactive_events(answers, results, j) == prev + entry);
        assert(t.phase is Asking && t.next == i && t.mode == Mode::Interactive);
        if answers[i as int] {
            lemma_run_two(t, Event::Answer(true), Event::Deleted(results[i as int]));
            let t1 = step_spec(t, Event::Answer(true)).0;
            assert(t1 == SessionView { phase: Phase::Deleting, ..t });
            let u = run(t, entry);
            if results[i as int] {
                let pushed = SessionView { deleted: t1.deleted.push(i), ..t1 };
                assert(u == advance_spec(pushed).0);
            } else {
                assert(u == advance_spec(t1).0);
            }
        } else {
            lemma_run_one(t, Event::Answer(false));
            assert(run(t, entry) == advance_spec(t).0);
        }
    }
}

/// In interactive mode one question is asked per matched entry, and an entry
/// is deleted exactly when its question was agreed to and its deletion
/// succeeded; no other entry is deleted.
pub proof fn interactive_asks_each(answers: Seq<bool>, results: Seq<bool>)
    requires
        0 < answers.len() <= usize::MAX,
        results.len() == answers.len(),
    ensures
        ({
            let n = answers.len();
            let s = run(
                initial(Mode::Interactive, n),
                seq![Event::Begin] + interactive_events(answers, results, n),
            );
            &&& s.phase == Phase::Finished(Outcome::Completed)
            &&& s.prompts == n
            &&& forall|i: nat| i < n ==> (s.deleted.contains(i) <==> answers[i as int] && results[i as int])
            &&& forall|x: nat| s.deleted.contains(x) ==> x < n
        }),
{
    let n = answers.len();
    let s0 = initial(Mode::Interactive, n);
    lemma_run_append(s0, seq![Event::Begin], interactive_events(answers, results, n));
    lemma_interactive_prefix(answers, results, n);
    assert forall|x: nat| #[trigger]
        confirmed_entries(answers, results, n).contains(x) <==> (x < n && answers[x as int]
            && results[x as int]) by {
        lemma_confirmed_contains(answers, results, n, x);
    }
}

/// The deleted entries are distinct, in increasing order, and below the entry
/// in hand, or below the number of matches once the run is over.
pub open spec fn deletion_order(s: SessionView) -> bool {
    &&& s.total <= usize::MAX
    &&& s.next <= s.total
    &&& (s.phase is Asking || s.phase is Deleting) ==> s.next < s.total
    &&& (s.phase is Ready || (s.phase is Asking && !(s.mode is Interactive))) ==> s.deleted.len()
        == 0
    &&& forall|a: int, b: int| 0 <= a < b < s.deleted.len() ==> s.deleted[a] < s.deleted[b]
    &&& forall|k: int|
        0 <= k < s.deleted.len() ==> s.deleted[k] < (if s.phase is Finished {
            s.total
        } else {
            s.next
        })
}

proof fn lemma_step_keeps_order(s: SessionView, e: Event)
    requires
        deletion_order(s),
    ensures
        deletion_order(step_spec(s, e).0),
        step_spec(s, e).0.total == s.total,
{
    let t = step_spec(s, e).0;
    if e is Deleted && s.phase is Deleting && e->Deleted_0 {
        let d = s.deleted.push(s.next);
        assert(t.deleted == d);
        assert forall|a: int, b: int| 0 <= a < b < d.len() implies d[a] < d[b] by {
            if b == d.len() - 1 {
                assert(d[a] == s.deleted[a]);
            } else {
                assert(d[a] == s.deleted[a] && d[b] == s.deleted[b]);
            }
        }
        assert forall|k: int| 0 <= k < d.len() implies d[k] <= s.next by {
            if k < d.len() - 1 {
                assert(d[k] == s.deleted[k]);
            }
        }
    }
}

/// No entry is deleted twice and only matched entries are deleted: whatever
/// events a run takes, the entries it has deleted are distinct, in increasing
/// order, and each below the number of matches.
pub proof fn deletes_each_at_most_once(mode: Mode, total: nat, events: Seq<Event>)
    requires
        total <= usize::MAX,
    ensures
        deletion_order(run(initial(mode, total), events)),
        run(initial(mode, total), events).total == total,
        forall|a: int, b: int|
            0 <= a < b < run(initial(mode, total), events).deleted.len() ==> run(
                initial(mode, total),
                events,
            ).deleted[a] < run(initial(mode, total), events).deleted[b],
        forall|k: int|
            0 <= k < run(initial(mode, total), events).deleted.len() ==> run(
                initial(mode, total),
                events,
            ).deleted[k] < total,
    decreases events.len(),
{
    if events.len() > 0 {
        deletes_each_at_most_once(mode, total, events.drop_last());
        lemma_step_keeps_order(run(initial(mode, total), events.drop_last()), events.last());
    }
}

} // verus!
