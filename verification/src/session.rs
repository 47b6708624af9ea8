//! The connection session: which transport operation comes next, how long to
//! wait before it, and how many connection attempts are left.
//!
//! The session performs nothing itself. Its owner carries out the [`Action`]
//! it is handed and reports the outcome as an [`Event`]; [`Session::step`]
//! answers with the next action.

use vstd::prelude::*;

verus! {

/// The wait between two connection attempts, in nanoseconds: one second.
pub const BACKOFF: u128 = 1_000_000_000;

/// The handshake that is written once to every transport that was opened:
/// the letter `S`.
pub const HANDSHAKE: u8 = 0x53;

/// Nanoseconds in a millisecond.
pub const NANOS_PER_MILLI: u128 = 1_000_000;

/// Where the session stands.
#[derive(Clone, Copy, Debug, PartialEq, Eq, Structural)]
pub enum State {
    /// No transport is held.
    Disconnected,
    /// A transport is held.
    Connected,
    /// The retry budget ran out; nothing more will be done.
    Terminated,
}

/// What the owner of the session has to do next.
#[derive(Clone, Copy, Debug, PartialEq, Eq, Structural)]
pub enum Action {
    /// Open a transport now.
    Connect,
    /// Close the transport that is held, ignoring any error, drop it, and open
    /// a new one now.
    Reconnect,
    /// Sleep for this many nanoseconds, then open a transport.
    Backoff(u128),
    /// Write the handshake to the transport that was just opened.
    Greet,
    /// Start a tick now: note the time, sample a reading, encode and write it.
    Emit,
    /// Sleep for this many nanoseconds, then start a tick.
    Pace(u128),
    /// Leave the loop and end the process normally.
    Exit,
}

/// The outcome of an action, as its performer reports it.
#[derive(Clone, Copy, Debug, PartialEq, Eq, Structural)]
pub enum Event {
    /// A transport was opened.
    ConnectOk,
    /// No transport could be opened.
    ConnectFailed,
    /// The handshake was attempted; `ok` tells whether it was written.
    GreetDone { ok: bool },
    /// The reading was written, `elapsed` nanoseconds after the tick started.
    WriteOk { elapsed: u128 },
    /// The reading could not be written.
    WriteFailed,
}

/// The session as a mathematical value.
pub struct Model {
    /// The retry budget that every successful connection restores.
    pub max_tries: nat,
    /// The tick period, in nanoseconds.
    pub interval: nat,
    /// The connection attempts that may still fail before the session ends.
    pub budget: nat,
    /// The action whose outcome is awaited.
    pub pending: Action,
}

/// The state in which `action` is the one awaited.
pub open spec fn state_of(action: Action) -> State {
    match action {
        Action::Connect | Action::Reconnect | Action::Backoff(_) => State::Disconnected,
        Action::Greet | Action::Emit | Action::Pace(_) => State::Connected,
        Action::Exit => State::Terminated,
    }
}

/// The nanoseconds that `action` sleeps before it touches the transport.
pub open spec fn delay_of(action: Action) -> nat {
    match action {
        Action::Backoff(d) => d as nat,
        Action::Pace(d) => d as nat,
        _ => 0,
    }
}

/// Whether `action` ends in an attempt to open a transport.
pub open spec fn is_attempt(action: Action) -> bool {
    action is Connect || action is Reconnect || action is Backoff
}

/// Whether `action` ends in the write of a reading.
pub open spec fn is_tick(action: Action) -> bool {
    action is Emit || action is Pace
}

/// Whether `event` is an outcome that `action` can have.
pub open spec fn answers(action: Action, event: Event) -> bool {
    match action {
        Action::Connect | Action::Reconnect | Action::Backoff(_) => {
            event is ConnectOk || event is ConnectFailed
        },
        Action::Greet => event is GreetDone,
        Action::Emit | Action::Pace(_) => event is WriteOk || event is WriteFailed,
        Action::Exit => false,
    }
}

/// The sleep that fills a tick up to the interval: what is left of `interval`
/// after `elapsed`, and nothing once `elapsed` has reached it.
pub open spec fn pause(interval: nat, elapsed: nat) -> nat {
    if elapsed < interval {
        (interval - elapsed) as nat
    } else {
        0
    }
}

/// The action that starts the tick after one that took `elapsed`.
pub open spec fn paced(interval: nat, elapsed: nat) -> Action {
    if elapsed < interval {
        Action::Pace((interval - elapsed) as u128)
    } else {
        Action::Emit
    }
}

impl Model {
    /// The session before anything has happened: disconnected, with the whole
    /// budget, about to make its first attempt.
    pub open spec fn fresh(max_tries: nat, interval: nat) -> Model {
        Model { max_tries, interval, budget: max_tries, pending: Action::Connect }
    }

    /// The state the session is in.
    pub open spec fn state(self) -> State {
        state_of(self.pending)
    }

    /// What holds of every session that can be reached.
    pub open spec fn valid(self) -> bool {
        &&& self.budget <= self.max_tries
        &&& self.interval <= u128::MAX
        &&& match self.pending {
            Action::Connect | Action::Reconnect | Action::Greet | Action::Emit => {
                self.budget == self.max_tries
            },
            Action::Pace(d) => self.budget == self.max_tries && 0 < d <= self.interval,
            Action::Backoff(d) => self.budget < self.max_tries && d == BACKOFF,
            Action::Exit => self.budget == 0,
        }
    }

    /// The session after `event`. An event that is no outcome of the awaited
    /// action changes nothing.
    pub open spec fn next(self, event: Event) -> Model {
        if !answers(self.pending, event) {
            self
        } else {
            match event {
                Event::ConnectOk => Model {
                    budget: self.max_tries,
                    pending: Action::Greet,
                    ..self
                },
                Event::ConnectFailed => if self.budget > 0 {
                    Model {
                        budget: (self.budget - 1) as nat,
                        pending: Action::Backoff(BACKOFF),
                        ..self
                    }
                } else {
                    Model { pending: Action::Exit, ..self }
                },
                Event::GreetDone { ok } => Model { pending: Action::Emit, ..self },
                Event::WriteOk { elapsed } => Model {
                    pending: paced(self.interval, elapsed as nat),
                    ..self
                },
                Event::WriteFailed => Model { pending: Action::Reconnect, ..self },
            }
        }
    }
}

/// What is left of `interval` after `elapsed`, both in nanoseconds: the sleep
/// that makes the next tick start no earlier than one interval after this one
/// started. It is zero when the tick has overrun.
pub fn pause_after(interval: u128, elapsed: u128) -> (rest: u128)
    ensures
        rest == pause(interval as nat, elapsed as nat),
        elapsed + rest >= interval,
        elapsed <= interval ==> elapsed + rest == interval,
        elapsed >= interval ==> rest == 0,
{
    if elapsed < interval {
        interval - elapsed
    } else {
        0
    }
}

impl Action {
    /// The nanoseconds to sleep before the transport is touched.
    pub fn delay(&self) -> (d: u128)
        ensures
            d == delay_of(*self),
    {
        match self {
            Action::Backoff(d) => *d,
            Action::Pace(d) => *d,
            _ => 0,
        }
    }

    /// Whether the action ends in an attempt to open a transport.
    pub fn is_attempt(&self) -> (b: bool)
        ensures
            b == is_attempt(*self),
    {
        match self {
            Action::Connect | Action::Reconnect | Action::Backoff(_) => true,
            _ => false,
        }
    }

    /// Whether the action ends in the write of a reading.
    pub fn is_tick(&self) -> (b: bool)
        ensures
            b == is_tick(*self),
    {
        match self {
            Action::Emit | Action::Pace(_) => true,
            _ => false,
        }
    }
}

/// The state of one connection loop.
pub struct Session {
    max_tries: usize,
    interval: u128,
    budget: usize,
    pending: Action,
}

impl View for Session {
    type V = Model;

    closed spec fn view(&self) -> Model {
        Model {
            max_tries: self.max_tries as nat,
            interval: self.interval as nat,
            budget: self.budget as nat,
            pending: self.pending,
        }
    }
}

impl Session {
    #[verifier::type_invariant]
    spec fn inv(&self) -> bool {
        self@.valid()
    }

    /// A session that has not connected yet, with `max_tries` as its retry
    /// budget and a tick period of `interval_ms` milliseconds.
    pub fn new(max_tries: usize, interval_ms: u64) -> (session: Session)
        ensures
            session@ == Model::fresh(max_tries as nat, interval_ms as nat * NANOS_PER_MILLI as nat),
            session@.valid(),
    {
        assert(interval_ms * NANOS_PER_MILLI <= u128::MAX) by (nonlinear_arith)
            requires
                interval_ms <= u64::MAX,
                NANOS_PER_MILLI == 1_000_000,
        ;
        let interval: u128 = (interval_ms as u128) * NANOS_PER_MILLI;
        Session { max_tries, interval, budget: max_tries, pending: Action::Connect }
    }

    /// The action whose outcome the session awaits. For a new session this is
    /// the first thing to do.
    pub fn pending(&self) -> (action: Action)
        ensures
            action == self@.pending,
            self@.valid(),
    {
        proof {
            use_type_invariant(self);
        }
        self.pending
    }

    /// The state the session is in.
    pub fn state(&self) -> (state: State)
        ensures
            state == self@.state(),
    {
        match self.pending {
            Action::Connect | Action::Reconnect | Action::Backoff(_) => State::Disconnected,
            Action::Greet | Action::Emit | Action::Pace(_) => State::Connected,
            Action::Exit => State::Terminated,
        }
    }

    /// The connection attempts that may still fail before the session ends.
    pub fn budget(&self) -> (budget: usize)
        ensures
            budget == self@.budget,
            budget <= self@.max_tries,
    {
        proof {
            use_type_invariant(self);
        }
        self.budget
    }

    /// The budget that every successful connection restores.
    pub fn max_tries(&self) -> (max_tries: usize)
        ensures
            max_tries == self@.max_tries,
    {
        self.max_tries
    }

    /// The tick period, in nanoseconds.
    pub fn interval(&self) -> (interval: u128)
        ensures
            interval == self@.interval,
    {
        self.interval
    }

    /// Takes the outcome of the awaited action and answers with the action to
    /// perform next, which the session then awaits.
    ///
    /// An event that is no outcome of the awaited action is refused: the
    /// answer is `None` and the session stays as it was.
    pub fn step(&mut self, event: Event) -> (action: Option<Action>)
        ensures
            final(self)@ == old(self)@.next(event),
            final(self)@.valid(),
            action == if answers(old(self)@.pending, event) {
                Some(final(self)@.pending)
            } else {
                None
            },
    {
        proof {
            use_type_invariant(&*self);
        }
        let awaited = self.pending;
        let (budget, next) = match (awaited, event) {
            (
                Action::Connect | Action::Reconnect | Action::Backoff(_),
                Event::ConnectOk,
            ) => (self.max_tries, Action::Greet),
            (
                Action::Connect | Action::Reconnect | Action::Backoff(_),
                Event::ConnectFailed,
            ) => {
                if self.budget > 0 {
                    (self.budget - 1, Action::Backoff(BACKOFF))
                } else {
                    (self.budget, Action::Exit)
                }
            },
            (Action::Greet, Event::GreetDone { ok: _ }) => (self.budget, Action::Emit),
            (Action::Emit | Action::Pace(_), Event::WriteOk { elapsed }) => {
                let rest = pause_after(self.interval, elapsed);
                if rest > 0 {
                    (self.budget, Action::Pace(rest))
                } else {
                    (self.budget, Action::Emit)
                }
            },
            (Action::Emit | Action::Pace(_), Event::WriteFailed) => {
                (self.budget, Action::Reconnect)
            },
            _ => {
                return None;
            },
        };
        *self = Session {
            max_tries: self.max_tries,
            interval: self.interval,
            budget,
            pending: next,
        };
        Some(next)
    }
}

} // verus!
