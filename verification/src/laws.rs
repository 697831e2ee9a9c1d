//! What holds of a start attempt as a whole: the worker's report, handed to
//! the manager through the startup channel.

use crate::error::Error;
use crate::error::ErrorKind;
use crate::os_error::OsError;
use crate::os_error::OsErrorKind;
use crate::pretty::lemma_field_ends_in_comma;
use crate::pretty::lemma_indented_one_line;
use crate::server::Failure;
use crate::server::Handles;
use crate::server::Received;
use crate::server::Server;
use std::sync::mpsc::RecvError;
use vstd::prelude::*;
use vstd::string::*;

verus! {

/// What the caller receives where the worker, whose bind attempt returned
/// `bound`, lives to send its report.
pub open spec fn delivered<W, L>(bound: Result<L, OsError>) -> Received<L> {
    Ok(Server::<W, L>::report(bound).message)
}

/// The outcomes of a run of start attempts on one manager, one after the
/// other, and what the manager holds in the end.
pub open spec fn run<W, L>(before: Handles<W, L>, attempts: Seq<(W, Received<L>)>) -> (
    Handles<W, L>,
    Seq<Result<(), Failure<W>>>,
)
    decreases attempts.len(),
{
    if attempts.len() == 0 {
        (before, Seq::empty())
    } else {
        let earlier = run(before, attempts.drop_last());
        let (worker, received) = attempts.last();
        (
            Server::<W, L>::settled(worker, received),
            earlier.1.push(Server::<W, L>::outcome(worker, received)),
        )
    }
}

/// A bind that fails for any reason but an occupied address makes the start
/// fail with `AddrNotAvailable`, which carries the operating system's
/// description unchanged. The worker ends, its handle goes back to the caller,
/// and the manager holds nothing.
pub proof fn lemma_unavailable_address_fails<W, L>(worker: W, failure: OsError)
    requires
        failure.kind != OsErrorKind::AddrInUse,
    ensures
        !Server::<W, L>::report(Err(failure)).run_loop,
        Server::<W, L>::outcome(worker, delivered::<W, L>(Err(failure))) == Err::<(), Failure<W>>(
            Failure {
                error: Error { kind: ErrorKind::AddrNotAvailable(failure), source: None },
                worker,
            },
        ),
        Server::<W, L>::settled(worker, delivered::<W, L>(Err(failure))) == (Handles::<W, L> {
            worker: None,
            listener: None,
        }),
{
}

/// A bind that fails because the address is occupied makes the start fail
/// with `AddrInUse`, which carries the operating system's description
/// unchanged. The worker ends, its handle goes back to the caller, and the
/// manager holds nothing.
pub proof fn lemma_occupied_address_fails<W, L>(worker: W, failure: OsError)
    requires
        failure.kind == OsErrorKind::AddrInUse,
    ensures
        !Server::<W, L>::report(Err(failure)).run_loop,
        Server::<W, L>::outcome(worker, delivered::<W, L>(Err(failure))) == Err::<(), Failure<W>>(
            Failure {
                error: Error { kind: ErrorKind::AddrInUse(failure), source: None },
                worker,
            },
        ),
        Server::<W, L>::settled(worker, delivered::<W, L>(Err(failure))) == (Handles::<W, L> {
            worker: None,
            listener: None,
        }),
{
}

/// After a successful start the manager holds the listener that was received
/// and the worker that runs it: the worker is not handed back to be waited
/// for, so the listener stays up.
pub proof fn lemma_success_keeps_listener<W, L>(worker: W, listener: L)
    ensures
        Server::<W, L>::outcome(worker, Ok(Ok(listener))) is Ok,
        Server::<W, L>::settled(worker, Ok(Ok(listener))) == (Handles {
            worker: Some(worker),
            listener: Some(listener),
        }),
{
}

/// A start succeeds only where a listener was received, and a worker sends a
/// listener only where its bind attempt returned one: then the worker enters
/// its run loop and the manager holds that very listener. Success is never
/// made up ahead of the bind.
pub proof fn lemma_success_only_after_bind<W, L>(
    worker: W,
    received: Received<L>,
    bound: Result<L, OsError>,
)
    ensures
        Server::<W, L>::outcome(worker, received) is Ok <==> received is Ok && received->Ok_0 is Ok,
        Server::<W, L>::outcome(worker, delivered::<W, L>(bound)) is Ok <==> bound is Ok,
        Server::<W, L>::report(bound).run_loop <==> bound is Ok,
        bound is Ok ==> Server::<W, L>::settled(worker, delivered::<W, L>(bound)).listener
            == Some(bound->Ok_0),
{
}

/// Whatever was received, the manager ends up holding both handles or
/// neither, and holds them exactly where the start succeeded. A failure
/// returns the attempt's own worker.
pub proof fn lemma_handles_follow_outcome<W, L>(worker: W, received: Received<L>)
    ensures
        Server::<W, L>::settled(worker, received).worker is Some <==> Server::<W, L>::outcome(
            worker,
            received,
        ) is Ok,
        Server::<W, L>::settled(worker, received).listener is Some <==> Server::<W, L>::outcome(
            worker,
            received,
        ) is Ok,
        Server::<W, L>::outcome(worker, received) matches Err(failure) ==> failure.worker
            == worker,
{
}

/// A start fails with `ServerStartupFailed` where the receive itself failed,
/// and a worker that reports never files its failure under that kind: the
/// kind tells a worker that ended in silence from one whose bind failed.
pub proof fn lemma_startup_failure_only_from_channel<W, L>(
    worker: W,
    closed: RecvError,
    bound: Result<L, OsError>,
)
    ensures
        Server::<W, L>::outcome(worker, Err(closed)) == Err::<(), Failure<W>>(
            Failure {
                error: Error { kind: ErrorKind::ServerStartupFailed(closed), source: None },
                worker,
            },
        ),
        Server::<W, L>::outcome(worker, delivered::<W, L>(bound)) matches Err(failure)
            ==> !(failure.error.kind is ServerStartupFailed),
{
}

/// The text of a start that failed because the worker ended in silence,
/// with no cause known: the kind's one field on a line of its own.
pub proof fn lemma_startup_failure_text(closed: RecvError)
    ensures
        (Error { kind: ErrorKind::ServerStartupFailed(closed), source: None }).rendering()
            == "ErrorKind: ServerStartupFailed(\n    RecvError,\n), source: None"@,
{
    reveal_strlit("ErrorKind: ");
    reveal_strlit("ServerStartupFailed");
    reveal_strlit("RecvError");
    reveal_strlit("(\n");
    reveal_strlit("    ");
    reveal_strlit(",\n)");
    reveal_strlit(", source: ");
    reveal_strlit("None");
    reveal_strlit("ErrorKind: ServerStartupFailed(\n    RecvError,\n), source: None");
    lemma_indented_one_line("RecvError"@);
    lemma_field_ends_in_comma("RecvError"@);
    let error = Error { kind: ErrorKind::ServerStartupFailed(closed), source: None };
    assert(error.rendering() =~= "ErrorKind: ServerStartupFailed(\n    RecvError,\n), source: None"@);
}

/// A run of start attempts has exactly one outcome for each attempt, in
/// order. Each outcome depends on its own attempt alone, and what the manager
/// holds in the end depends on the last attempt alone.
pub proof fn lemma_one_outcome_per_attempt<W, L>(
    before: Handles<W, L>,
    attempts: Seq<(W, Received<L>)>,
)
    ensures
        run(before, attempts).1.len() == attempts.len(),
        forall|i: int|
            0 <= i < attempts.len() ==> #[trigger] run(before, attempts).1[i] == Server::<
                W,
                L,
            >::outcome(attempts[i].0, attempts[i].1),
        attempts.len() == 0 ==> run(before, attempts).0 == before,
        attempts.len() > 0 ==> run(before, attempts).0 == Server::<W, L>::settled(
            attempts.last().0,
            attempts.last().1,
        ),
    decreases attempts.len(),
{
    if attempts.len() > 0 {
        lemma_one_outcome_per_attempt(before, attempts.drop_last());
    }
}

} // verus!
