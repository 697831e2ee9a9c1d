//! The manager of one listener: what its worker reports, and what the manager
//! makes of the report.

use crate::error::Error;
use crate::error::ErrorKind;
use crate::os_error::OsError;
use std::sync::mpsc::RecvError;
use vstd::prelude::*;

verus! {

/// What one blocking receive on the startup channel yields: the worker's one
/// message, or the failure of the receive where the worker ended without
/// sending.
pub type Received<L> = Result<Result<L, Error>, RecvError>;

/// What the worker does once its bind attempt has returned.
#[derive(Debug, PartialEq, Eq)]
pub struct Report<L> {
    /// The one message that the worker sends over the startup channel.
    pub message: Result<L, Error>,
    /// Whether the worker then enters its run loop, which does not return
    /// while the listener is up. Otherwise the worker ends.
    pub run_loop: bool,
}

/// A start attempt that failed.
#[derive(Debug, PartialEq, Eq)]
pub struct Failure<W> {
    /// Why the listener did not come up.
    pub error: Error,
    /// The worker of the attempt. It is about to end: the caller waits for it.
    pub worker: W,
}

/// The handles that a manager holds.
pub struct Handles<W, L> {
    /// The worker that runs the listener.
    pub worker: Option<W>,
    /// The running listener.
    pub listener: Option<L>,
}

/// Manages one listener that runs on a worker of its own. `W` is the handle
/// by which the worker is waited for, `L` the handle of the running listener.
pub struct Server<W, L> {
    handle: Option<W>,
    server: Option<L>,
}

impl<W, L> View for Server<W, L> {
    type V = Handles<W, L>;

    closed spec fn view(&self) -> Handles<W, L> {
        Handles { worker: self.handle, listener: self.server }
    }
}

impl<W, L> Server<W, L> {
    /// A manager holds a listener exactly while it holds the worker that runs
    /// it.
    #[verifier::type_invariant]
    spec fn handles_agree(self) -> bool {
        self.handle is Some <==> self.server is Some
    }

    /// The report of a worker whose bind attempt returned `bound`: the
    /// listener itself, after which the worker runs, or the classified
    /// failure, after which it ends.
    pub open spec fn report(bound: Result<L, OsError>) -> Report<L> {
        match bound {
            Ok(listener) => Report { message: Ok(listener), run_loop: true },
            Err(failure) => Report {
                message: Err(Error { kind: ErrorKind::of_bind_failure(failure), source: None }),
                run_loop: false,
            },
        }
    }

    /// What a start attempt returns, given its worker and what was received.
    pub open spec fn outcome(worker: W, received: Received<L>) -> Result<(), Failure<W>> {
        match received {
            Ok(Ok(_)) => Ok(()),
            Ok(Err(error)) => Err(Failure { error, worker }),
            Err(closed) => Err(
                Failure {
                    error: Error { kind: ErrorKind::ServerStartupFailed(closed), source: None },
                    worker,
                },
            ),
        }
    }

    /// What the manager holds after a start attempt.
    pub open spec fn settled(worker: W, received: Received<L>) -> Handles<W, L> {
        match received {
            Ok(Ok(listener)) => Handles { worker: Some(worker), listener: Some(listener) },
            _ => Handles { worker: None, listener: None },
        }
    }

    /// A manager that holds nothing: no start has been attempted.
    pub fn new() -> (server: Self)
        ensures
            server@ == (Handles::<W, L> { worker: None, listener: None }),
    {
        Server { handle: None, server: None }
    }

    /// The worker's part of a start attempt, once its bind attempt has
    /// returned. The worker sends the report's message once, whether or not
    /// anybody still waits for it, and then runs or ends as the report says.
    pub fn start(bound: Result<L, OsError>) -> (report: Report<L>)
        ensures
            report == Self::report(bound),
    {
        match bound {
            Ok(listener) => Report { message: Ok(listener), run_loop: true },
            Err(failure) => Report {
                message: Err(Error::new(ErrorKind::classify(failure), None)),
                run_loop: false,
            },
        }
    }

    /// The caller's part of a start attempt, once the one blocking receive
    /// has returned. On success the manager keeps the listener and the
    /// worker, which runs on. On failure the manager holds nothing and the
    /// worker comes back with the error, for the caller to wait for it.
    /// Handles that the manager held from an earlier attempt are let go of:
    /// nothing waits for that worker or stops that listener.
    pub fn serve(&mut self, worker: W, received: Received<L>) -> (out: Result<(), Failure<W>>)
        ensures
            out == Self::outcome(worker, received),
            final(self)@ == Self::settled(worker, received),
    {
        match received {
            Ok(Ok(listener)) => {
                *self = Server { handle: Some(worker), server: Some(listener) };
                Ok(())
            },
            Ok(Err(error)) => {
                *self = Server { handle: None, server: None };
                Err(Failure { error, worker })
            },
            Err(closed) => {
                *self = Server { handle: None, server: None };
                Err(Failure { error: Error::new(ErrorKind::ServerStartupFailed(closed), None), worker })
            },
        }
    }

    /// Whether a listener is running under this manager.
    pub fn is_serving(&self) -> (serving: bool)
        ensures
            serving == (self@.listener is Some),
            serving == (self@.worker is Some),
    {
        proof {
            use_type_invariant(self);
        }
        self.server.is_some()
    }

    /// The running listener, if there is one.
    pub fn listener(&self) -> (listener: Option<&L>)
        ensures
            listener is Some <==> self@.listener is Some,
            listener matches Some(held) ==> self@.listener == Some(*held),
    {
        self.server.as_ref()
    }

    /// The worker that runs the listener, if there is one.
    pub fn worker(&self) -> (worker: Option<&W>)
        ensures
            worker is Some <==> self@.worker is Some,
            worker matches Some(held) ==> self@.worker == Some(*held),
    {
        self.handle.as_ref()
    }
}

} // verus!
