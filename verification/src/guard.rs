use vstd::prelude::*;
use vstd::string::StringExecFns;

use crate::errors::DatabaseError;
use crate::ports::health_message;
use crate::ports::DatabaseHealth;

verus! {

/// The two shapes the guarded lifecycle state can take: no handle, or
/// exactly one open handle. Every transition between the two goes through
/// the [`ConnectionGuard`]'s operations, so no caller ever observes a
/// half-initialized state.
pub enum GuardState {
    Empty,
    Open,
}

/// What the embedded engine reported when it was asked for a new handle.
///
/// The engine lives outside the library; the caller performs the engine's
/// open call and hands the outcome back as one of these plain values.
pub enum OpenOutcome<H> {
    /// A fresh handle, already bound to its namespace/database context.
    Opened(H),
    /// The engine refused to create the connection; the detail text the
    /// engine gave.
    CreationFailed(String),
    /// The connection was created but the namespace/database context could
    /// not be selected; the detail text the engine gave.
    ContextFailed(String),
}

/// Model of one full connect call against a state: does it reach the
/// engine at all? A connect invokes the engine exactly when no handle is
/// held — an already-open guard is reused, never reopened.
pub open spec fn open_invokes_engine(s: GuardState) -> bool {
    s is Empty
}

/// Model of one full connect call: the state it leaves behind, given
/// whether the engine would succeed if it were invoked. An open guard
/// stays open untouched; an empty one becomes open exactly when the engine
/// cooperates.
pub open spec fn open_next(s: GuardState, engine_ok: bool) -> GuardState {
    if s is Open {
        GuardState::Open
    } else if engine_ok {
        GuardState::Open
    } else {
        GuardState::Empty
    }
}

/// Model of one full connect call: whether it reports success. Reuse
/// always succeeds; a fresh open succeeds exactly when the engine does.
pub open spec fn open_succeeds(s: GuardState, engine_ok: bool) -> bool {
    s is Open || engine_ok
}

/// Model of one close call: the state is unconditionally emptied, whatever
/// it held before.
pub open spec fn close_next(s: GuardState) -> GuardState {
    GuardState::Empty
}

/// Model of one health inspection: the reported `connected` flag.
pub open spec fn health_connected(s: GuardState) -> bool {
    s is Open
}

/// The state after `n` connect calls in a row against a cooperating
/// engine (every engine open that is invoked succeeds), starting from `s`.
pub open spec fn run_open_calls(s: GuardState, n: nat) -> GuardState
    decreases n,
{
    if n == 0 {
        s
    } else {
        run_open_calls(open_next(s, true), (n - 1) as nat)
    }
}

/// How many of `n` connect calls in a row against a cooperating engine,
/// starting from `s`, invoke the engine — that is, how many handles get
/// created.
pub open spec fn engine_invocations(s: GuardState, n: nat) -> nat
    decreases n,
{
    if n == 0 {
        0
    } else {
        (if open_invokes_engine(s) {
            1nat
        } else {
            0nat
        }) + engine_invocations(open_next(s, true), (n - 1) as nat)
    }
}

/// Whether every one of `n` connect calls in a row against a cooperating
/// engine, starting from `s`, reports success.
pub open spec fn all_open_calls_succeed(s: GuardState, n: nat) -> bool
    decreases n,
{
    n == 0 || (open_succeeds(s, true) && all_open_calls_succeed(open_next(s, true), (n - 1) as nat))
}

/// Idempotent open, the reuse half: once the guard is open, any number of
/// further connect calls all succeed, never invoke the engine — so never
/// create a second handle — and leave the guard open.
pub proof fn lemma_open_reuses_handle(n: nat)
    ensures
        all_open_calls_succeed(GuardState::Open, n),
        engine_invocations(GuardState::Open, n) == 0,
        run_open_calls(GuardState::Open, n) is Open,
    decreases n,
{
    if n > 0 {
        lemma_open_reuses_handle((n - 1) as nat);
    }
}

/// Serialized connects create one handle. The exclusive-access section
/// makes concurrent connect calls linearizable, so any `n` concurrent
/// connect calls against an empty guard run as `n` calls in some order:
/// every one of them reports success, and the engine is invoked exactly
/// once — exactly one handle is ever created.
pub proof fn lemma_connects_create_one_handle(n: nat)
    requires
        n >= 1,
    ensures
        all_open_calls_succeed(GuardState::Empty, n),
        engine_invocations(GuardState::Empty, n) == 1,
        run_open_calls(GuardState::Empty, n) is Open,
{
    lemma_open_reuses_handle((n - 1) as nat);
}

/// Idempotent open, stated for one repeated call: a connect against an
/// open guard succeeds whatever the engine would have said, invokes no
/// engine open, and leaves the state exactly as it was.
pub proof fn lemma_open_idempotent(s: GuardState, engine_ok: bool)
    ensures
        s is Open ==> !open_invokes_engine(s),
        s is Open ==> open_succeeds(s, engine_ok),
        s is Open ==> open_next(s, engine_ok) == s,
{
}

/// Idempotent close: a close always lands in `Empty`, so closing twice is
/// the same as closing once, and closing a never-connected guard leaves it
/// `Empty`.
pub proof fn lemma_close_idempotent(s: GuardState)
    ensures
        close_next(s) is Empty,
        close_next(close_next(s)) == close_next(s),
{
}

/// Health reflects state: after a connect that reports success the health
/// flag reads true; after a close, or on a guard that never connected, it
/// reads false.
pub proof fn lemma_health_reflects_state(s: GuardState, engine_ok: bool)
    ensures
        open_succeeds(s, engine_ok) ==> health_connected(open_next(s, engine_ok)),
        !health_connected(close_next(s)),
        !health_connected(GuardState::Empty),
{
}

/// No leak on a failed open: when the engine refuses, the guard is left
/// `Empty` — health reads disconnected, no residual handle blocks a retry
/// (the next connect reaches the engine again), and a retry against a now
/// cooperating engine succeeds and opens the guard.
pub proof fn lemma_failed_open_leaves_clean_state()
    ensures
        !open_succeeds(GuardState::Empty, false),
        open_next(GuardState::Empty, false) is Empty,
        !health_connected(open_next(GuardState::Empty, false)),
        open_invokes_engine(open_next(GuardState::Empty, false)),
        open_succeeds(open_next(GuardState::Empty, false), true),
        open_next(open_next(GuardState::Empty, false), true) is Open,
{
}

/// Disconnect-after-connect round trip: from any state, a successful
/// connect reads healthy, the following disconnect reads disconnected, and
/// a further connect against a cooperating engine succeeds and opens the
/// guard again.
pub proof fn lemma_connect_disconnect_round_trip(s: GuardState)
    ensures
        open_succeeds(s, true),
        health_connected(open_next(s, true)),
        !health_connected(close_next(open_next(s, true))),
        open_succeeds(close_next(open_next(s, true)), true),
        open_next(close_next(open_next(s, true)), true) is Open,
{
}

/// Owner of the single optional connection handle.
///
/// The guard holds at most one engine handle `H` at a time, together with
/// the immutable storage-location value it was constructed with. All reads
/// and writes of the state go through its methods; the raw handle is never
/// handed out. The caller that drives the engine serializes the calls (one
/// exclusive-access section around the whole guard), so the sequential
/// contracts below describe every interleaving a concurrent caller can
/// observe.
pub struct ConnectionGuard<H> {
    handle: Option<H>,
    storage_target: String,
}

impl<H> ConnectionGuard<H> {
    /// The current lifecycle state, as the model sees it.
    pub closed spec fn state(&self) -> GuardState {
        if self.handle is Some {
            GuardState::Open
        } else {
            GuardState::Empty
        }
    }

    /// The handle currently held, if any.
    pub closed spec fn held_handle(&self) -> Option<H> {
        self.handle
    }

    /// The storage-location value the guard was constructed with.
    pub closed spec fn target(&self) -> Seq<char> {
        self.storage_target@
    }

    /// A fresh guard: no handle, the given storage target kept for the
    /// guard's whole lifetime.
    pub fn new(storage_target: String) -> (g: Self)
        ensures
            g.state() is Empty,
            g.held_handle() is None,
            g.target() == storage_target@,
    {
        ConnectionGuard { handle: None, storage_target }
    }

    /// The storage-location value, for the caller that performs the
    /// engine's open call.
    pub fn storage_target(&self) -> (t: &str)
        ensures
            t@ == self.target(),
    {
        self.storage_target.as_str()
    }

    /// First half of a connect call: under the exclusive-access section,
    /// decide whether the engine must be invoked. Returns true exactly
    /// when no handle is held; an already-open guard is reused and the
    /// connect call reports success without touching the engine.
    pub fn begin_open(&self) -> (acquire: bool)
        ensures
            acquire == open_invokes_engine(self.state()),
    {
        self.handle.is_none()
    }

    /// Second half of a connect call: commit the engine's outcome. On
    /// success the guard transitions to `Open` holding exactly the handle
    /// the engine created; on failure it stays `Empty` — safe, inspectable,
    /// and free to retry — and the call fails as `ConnectionFailed` with
    /// the engine's detail behind a fixed prefix.
    pub fn commit_open(&mut self, outcome: OpenOutcome<H>) -> (r: Result<(), DatabaseError>)
        requires
            old(self).state() is Empty,
        ensures
            final(self).target() == old(self).target(),
            match outcome {
                OpenOutcome::Opened(h) => {
                    &&& r is Ok
                    &&& final(self).state() == open_next(old(self).state(), true)
                    &&& final(self).held_handle() == Some(h)
                },
                OpenOutcome::CreationFailed(d) => {
                    &&& final(self).state() == open_next(old(self).state(), false)
                    &&& final(self).held_handle() is None
                    &&& r matches Err(DatabaseError::ConnectionFailed(m))
                        && m@ == "Failed to create database connection: "@ + d@
                },
                OpenOutcome::ContextFailed(d) => {
                    &&& final(self).state() == open_next(old(self).state(), false)
                    &&& final(self).held_handle() is None
                    &&& r matches Err(DatabaseError::ConnectionFailed(m))
                        && m@ == "Failed to set namespace/database: "@ + d@
                },
            },
    {
        match outcome {
            OpenOutcome::Opened(h) => {
                self.handle = Some(h);
                Ok(())
            },
            OpenOutcome::CreationFailed(d) => {
                Err(DatabaseError::ConnectionFailed(
                    String::from_str("Failed to create database connection: ").concat(d.as_str()),
                ))
            },
            OpenOutcome::ContextFailed(d) => {
                Err(DatabaseError::ConnectionFailed(
                    String::from_str("Failed to set namespace/database: ").concat(d.as_str()),
                ))
            },
        }
    }

    /// Close the connection: unconditionally empty the state, dropping any
    /// held handle. Idempotent and infallible — closing an already-empty
    /// guard is a no-op success, and the guard state stays authoritative
    /// whatever the engine did with the released handle.
    pub fn close(&mut self) -> (r: Result<(), DatabaseError>)
        ensures
            r is Ok,
            final(self).state() == close_next(old(self).state()),
            final(self).held_handle() is None,
            final(self).target() == old(self).target(),
    {
        self.handle = None;
        Ok(())
    }

    /// Report the state at this instant: never mutates, never fails. The
    /// snapshot's `connected` flag equals the model's view of the state,
    /// and the message names the same fact.
    pub fn inspect(&self) -> (h: DatabaseHealth)
        ensures
            h.connected == health_connected(self.state()),
            h.message@ == health_message(h.connected),
    {
        match &self.handle {
            Some(_) => DatabaseHealth {
                connected: true,
                message: String::from_str("Database connection is healthy"),
            },
            None => DatabaseHealth {
                connected: false,
                message: String::from_str("Database is not connected"),
            },
        }
    }
}

} // verus!
