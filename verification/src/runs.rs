//! Runs of a session: what holds after a whole sequence of events.
//!
//! Everything here is stated over [`Model`], the value that
//! [`Session::step`](crate::session::Session::step) is specified by, so it
//! holds of every session that executes.

use vstd::prelude::*;
use crate::session::{
    answers, delay_of, is_attempt, is_tick, pause, Action, Event, Model, State, BACKOFF,
};

verus! {

/// The session after the events of `events`, first to last.
pub open spec fn run(m: Model, events: Seq<Event>) -> Model
    decreases events.len(),
{
    if events.len() == 0 {
        m
    } else {
        run(m, events.drop_last()).next(events.last())
    }
}

/// How many connection attempts the events of `events` were the outcome of,
/// starting from `m`.
pub open spec fn attempts(m: Model, events: Seq<Event>) -> nat
    decreases events.len(),
{
    if events.len() == 0 {
        0
    } else {
        let before = run(m, events.drop_last());
        let counted: nat = if is_attempt(before.pending) && answers(
            before.pending,
            events.last(),
        ) {
            1
        } else {
            0
        };
        attempts(m, events.drop_last()) + counted
    }
}

/// `n` failed connection attempts in a row.
pub open spec fn failures(n: nat) -> Seq<Event> {
    Seq::new(n, |i: int| Event::ConnectFailed)
}

/// Successful writes, one for each entry of `elapsed`, which is what the
/// write took.
pub open spec fn writes(elapsed: Seq<u128>) -> Seq<Event> {
    Seq::new(elapsed.len(), |i: int| Event::WriteOk { elapsed: elapsed[i] })
}

/// From the start of a tick that took `elapsed` to the start of the next one.
pub open spec fn tick_span(interval: nat, elapsed: nat) -> nat {
    elapsed + pause(interval, elapsed)
}

/// From the start of the first tick to the start of the one after the last,
/// for ticks that took what `elapsed` lists.
pub open spec fn total_span(interval: nat, elapsed: Seq<nat>) -> nat
    decreases elapsed.len(),
{
    if elapsed.len() == 0 {
        0
    } else {
        total_span(interval, elapsed.drop_last()) + tick_span(interval, elapsed.last())
    }
}

/// No event leads out of the valid sessions.
pub proof fn lemma_next_keeps_valid(m: Model, event: Event)
    requires
        m.valid(),
    ensures
        m.next(event).valid(),
        m.next(event).max_tries == m.max_tries,
        m.next(event).interval == m.interval,
{
}

/// No run leads out of the valid sessions, and none changes the configured
/// budget or interval.
pub proof fn lemma_run_keeps_valid(m: Model, events: Seq<Event>)
    requires
        m.valid(),
    ensures
        run(m, events).valid(),
        run(m, events).max_tries == m.max_tries,
        run(m, events).interval == m.interval,
    decreases events.len(),
{
    if events.len() > 0 {
        lemma_run_keeps_valid(m, events.drop_last());
        lemma_next_keeps_valid(run(m, events.drop_last()), events.last());
    }
}

/// A run of two parts is the run of the second part from where the first
/// ended, and its attempts are those of both.
pub proof fn lemma_run_concat(m: Model, first: Seq<Event>, second: Seq<Event>)
    ensures
        run(m, first + second) == run(run(m, first), second),
        attempts(m, first + second) == attempts(m, first) + attempts(run(m, first), second),
    decreases second.len(),
{
    if second.len() == 0 {
        assert(first + second =~= first);
    } else {
        assert((first + second).drop_last() =~= first + second.drop_last());
        assert((first + second).last() == second.last());
        lemma_run_concat(m, first, second.drop_last());
    }
}

/// While the session holds a transport its budget is whole, and it is whole
/// again whenever a transport has to be replaced.
pub proof fn law_budget_whole_while_connected(m: Model)
    requires
        m.valid(),
        m.state() == State::Connected || m.pending == Action::Reconnect,
    ensures
        m.budget == m.max_tries,
{
}

/// A disconnected session that meets `n` failed attempts in a row, with `n` no
/// more than its budget, has spent `n` of the budget, and is waiting out the
/// fixed backoff before the next attempt. One failure more ends it. Each of
/// these failures was the outcome of an attempt.
pub proof fn law_failures_spend_budget(m: Model, n: nat)
    requires
        m.valid(),
        m.state() == State::Disconnected,
        n <= m.budget + 1,
    ensures
        n == 0 ==> run(m, failures(n)) == m,
        0 < n <= m.budget ==> run(m, failures(n)) == (Model {
            budget: (m.budget - n) as nat,
            pending: Action::Backoff(BACKOFF),
            ..m
        }),
        n == m.budget + 1 ==> run(m, failures(n)) == (Model {
            budget: 0,
            pending: Action::Exit,
            ..m
        }),
        attempts(m, failures(n)) == n,
    decreases n,
{
    if n > 0 {
        let shorter = (n - 1) as nat;
        assert(failures(n).drop_last() =~= failures(shorter));
        assert(failures(n).last() == Event::ConnectFailed);
        law_failures_spend_budget(m, shorter);
    }
}

/// A terminated session stays terminated, whatever is reported to it, and
/// makes no further attempt.
pub proof fn law_terminated_is_final(m: Model, events: Seq<Event>)
    requires
        m.pending == Action::Exit,
    ensures
        run(m, events) == m,
        attempts(m, events) == 0,
    decreases events.len(),
{
    if events.len() > 0 {
        law_terminated_is_final(m, events.drop_last());
    }
}

/// When no attempt to connect ever succeeds, a new session makes exactly
/// `max_tries + 1` attempts: it is still trying after each of the first
/// `max_tries` failures, having slept the fixed backoff, it ends at the next
/// one, and however many more failures are reported, none is an attempt of
/// its own.
pub proof fn law_gives_up_after_budget(max_tries: nat, interval: nat, n: nat)
    requires
        interval <= u128::MAX,
    ensures
        n <= max_tries ==> run(Model::fresh(max_tries, interval), failures(n)).state()
            == State::Disconnected,
        0 < n <= max_tries ==> run(Model::fresh(max_tries, interval), failures(n)).pending
            == Action::Backoff(BACKOFF),
        n > max_tries ==> run(Model::fresh(max_tries, interval), failures(n)).state()
            == State::Terminated,
        attempts(Model::fresh(max_tries, interval), failures(n)) == if n <= max_tries {
            n
        } else {
            max_tries + 1
        },
{
    let m = Model::fresh(max_tries, interval);
    if n <= max_tries + 1 {
        law_failures_spend_budget(m, n);
    } else {
        let spent = max_tries + 1;
        let rest = (n - spent) as nat;
        assert(failures(n) =~= failures(spent) + failures(rest));
        law_failures_spend_budget(m, spent);
        lemma_run_concat(m, failures(spent), failures(rest));
        law_terminated_is_final(run(m, failures(spent)), failures(rest));
    }
}

/// Whether each event of `events` is an outcome of the action that the
/// session, started from `m`, awaits when the event comes.
pub open spec fn all_answered(m: Model, events: Seq<Event>) -> bool
    decreases events.len(),
{
    events.len() == 0 || (all_answered(m, events.drop_last()) && answers(
        run(m, events.drop_last()).pending,
        events.last(),
    ))
}

/// Whether the last `n` events of `events` are failed connection attempts.
pub open spec fn ends_with_failures(events: Seq<Event>, n: nat) -> bool {
    &&& n <= events.len()
    &&& forall|i: int| events.len() - n <= i < events.len() ==> events[i] == Event::ConnectFailed
}

/// What a session has spent of its budget, counting the failure that ended
/// it.
pub open spec fn spent(m: Model) -> nat {
    if m.pending == Action::Exit {
        (m.max_tries - m.budget + 1) as nat
    } else {
        (m.max_tries - m.budget) as nat
    }
}

/// Only an unbroken row of failed attempts spends the budget: whatever a
/// session with its whole budget goes through, what it has spent at the end
/// is the number of failures that the run ends with. So a session ends only
/// when the last `max_tries + 1` events were failed attempts, with no success
/// among them.
pub proof fn law_only_unbroken_failures_spend(m: Model, events: Seq<Event>)
    requires
        m.valid(),
        m.budget == m.max_tries,
        m.pending != Action::Exit,
        all_answered(m, events),
    ensures
        ends_with_failures(events, spent(run(m, events))),
        run(m, events).state() == State::Terminated ==> ends_with_failures(
            events,
            m.max_tries + 1,
        ),
    decreases events.len(),
{
    if events.len() > 0 {
        let earlier = events.drop_last();
        law_only_unbroken_failures_spend(m, earlier);
        lemma_run_keeps_valid(m, earlier);
        let before = run(m, earlier);
        let n = spent(run(m, events));
        if events.last() == Event::ConnectFailed {
            assert(n == spent(before) + 1);
            assert forall|i: int| events.len() - n <= i < events.len() implies events[i]
                == Event::ConnectFailed by {
                if i < earlier.len() {
                    assert(events[i] == earlier[i]);
                }
            }
        } else {
            assert(n == 0);
        }
    }
}

/// A failed write, the first or any later one, takes a connected session
/// straight to a new attempt: the transport is replaced with no sleep before
/// the attempt, and the budget is whole.
pub proof fn law_write_failure_reconnects_at_once(m: Model)
    requires
        m.valid(),
        is_tick(m.pending),
    ensures
        m.next(Event::WriteFailed).pending == Action::Reconnect,
        m.next(Event::WriteFailed).state() == State::Disconnected,
        is_attempt(m.next(Event::WriteFailed).pending),
        delay_of(m.next(Event::WriteFailed).pending) == 0,
        m.next(Event::WriteFailed).budget == m.max_tries,
{
}

/// Successful writes keep a connected session connected, each followed by
/// exactly one further tick, which waits for what is left of the interval.
pub proof fn law_writes_keep_connected(m: Model, elapsed: Seq<u128>)
    requires
        m.valid(),
        is_tick(m.pending),
    ensures
        is_tick(run(m, writes(elapsed)).pending),
        run(m, writes(elapsed)).state() == State::Connected,
        run(m, writes(elapsed)).budget == m.max_tries,
        elapsed.len() > 0 ==> delay_of(run(m, writes(elapsed)).pending) == pause(
            m.interval,
            elapsed.last() as nat,
        ),
        attempts(m, writes(elapsed)) == 0,
    decreases elapsed.len(),
{
    if elapsed.len() > 0 {
        assert(writes(elapsed).drop_last() =~= writes(elapsed.drop_last()));
        assert(writes(elapsed).last() == Event::WriteOk { elapsed: elapsed.last() });
        law_writes_keep_connected(m, elapsed.drop_last());
        lemma_run_keeps_valid(m, writes(elapsed.drop_last()));
    }
}

/// A session that connects, greets and writes successfully any number of
/// times leaves the connected state at the first failed write and at no
/// earlier point, whether or not the handshake was written.
pub proof fn law_first_failed_write_disconnects(m: Model, ok: bool, elapsed: Seq<u128>)
    requires
        m.valid(),
        is_attempt(m.pending),
    ensures
        m.next(Event::ConnectOk).state() == State::Connected,
        m.next(Event::ConnectOk).next(Event::GreetDone { ok }).pending == Action::Emit,
        run(
            m.next(Event::ConnectOk).next(Event::GreetDone { ok }),
            writes(elapsed),
        ).state() == State::Connected,
        run(m.next(Event::ConnectOk).next(Event::GreetDone { ok }), writes(elapsed)).next(
            Event::WriteFailed,
        ).pending == Action::Reconnect,
{
    let greeted = m.next(Event::ConnectOk).next(Event::GreetDone { ok });
    law_writes_keep_connected(greeted, elapsed);
    lemma_run_keeps_valid(greeted, writes(elapsed));
}

/// A successful connection restores the whole budget, however little was
/// left. Whatever happens on that connection, once a write on it fails the
/// session again takes `max_tries` failed attempts in its stride and ends at
/// the one after.
pub proof fn law_success_restores_budget(m: Model, during: Seq<Event>, n: nat)
    requires
        m.valid(),
        is_attempt(m.pending),
        is_tick(run(m.next(Event::ConnectOk), during).pending),
        n <= m.max_tries + 1,
    ensures
        m.next(Event::ConnectOk).budget == m.max_tries,
        run(m.next(Event::ConnectOk), during).next(Event::WriteFailed).budget == m.max_tries,
        run(
            run(m.next(Event::ConnectOk), during).next(Event::WriteFailed),
            failures(n),
        ).state() == if n <= m.max_tries {
            State::Disconnected
        } else {
            State::Terminated
        },
        attempts(run(m.next(Event::ConnectOk), during).next(Event::WriteFailed), failures(n))
            == n,
{
    let connected = m.next(Event::ConnectOk);
    lemma_run_keeps_valid(connected, during);
    let dropped = run(connected, during).next(Event::WriteFailed);
    law_failures_spend_budget(dropped, n);
}

/// A tick and the sleep after it together last at least one interval, and
/// exactly one when the tick itself took no longer than that.
pub proof fn law_tick_spans_interval(interval: nat, elapsed: nat)
    ensures
        tick_span(interval, elapsed) >= interval,
        elapsed <= interval ==> tick_span(interval, elapsed) == interval,
        elapsed >= interval ==> tick_span(interval, elapsed) == elapsed,
{
}

/// Over any number of ticks the time from the first start to the start after
/// the last is at least that many intervals, and exactly that many when no
/// tick overran: the mean time between two sends is then the interval.
pub proof fn law_mean_cadence(interval: nat, elapsed: Seq<nat>)
    ensures
        total_span(interval, elapsed) >= elapsed.len() * interval,
        (forall|i: int| 0 <= i < elapsed.len() ==> elapsed[i] <= interval) ==> total_span(
            interval,
            elapsed,
        ) == elapsed.len() * interval,
    decreases elapsed.len(),
{
    if elapsed.len() > 0 {
        let shorter = elapsed.drop_last();
        law_mean_cadence(interval, shorter);
        law_tick_spans_interval(interval, elapsed.last());
        assert(shorter.len() * interval + interval == elapsed.len() * interval)
            by (nonlinear_arith)
            requires
                shorter.len() + 1 == elapsed.len(),
        ;
        if forall|i: int| 0 <= i < elapsed.len() ==> elapsed[i] <= interval {
            assert(forall|i: int| 0 <= i < shorter.len() ==> shorter[i] == elapsed[i]);
            assert(elapsed.last() == elapsed[elapsed.len() - 1]);
        }
    } else {
        assert(elapsed.len() * interval == 0) by (nonlinear_arith)
            requires
                elapsed.len() == 0,
        ;
    }
}

} // verus!
