//! Handles on the paths of a multipath QUIC connection.
//!
//! A [`QuicConnection`] is a `noq_proto::Connection` with the handle under
//! which its endpoint knows it. A [`Path`] names one path of such a
//! connection and remembers the connection's handle; its queries and updates
//! go to that connection, which the caller hands in. An [`OpenPath`]
//! is an attempt to open a path that the connection's driver answers on a
//! channel; [`OpenPath::on_poll`] says what each answer makes of it.

use core::task::Poll;
use flume::{Receiver, RecvError};
use noq_proto::{
    ClosePathError, ClosedPath, Connection, ConnectionHandle, PathError, PathId, PathStats,
    PathStatus, SetPathStatusError, TransportErrorCode, VarInt,
};
use std::time::Instant;
use vstd::prelude::*;

verus! {

/// Declared so that `PathError`, whose `InvalidRemoteAddress` variant holds
/// one, can be declared with its variants visible.
#[verifier::external_type_specification]
#[verifier::external_body]
pub struct ExSocketAddr(core::net::SocketAddr);

#[verifier::external_type_specification]
pub struct ExPathError(PathError);

#[verifier::external_type_specification]
pub struct ExPathStatus(PathStatus);

#[verifier::external_type_specification]
pub struct ExSetPathStatusError(SetPathStatusError);

#[verifier::external_type_specification]
pub struct ExClosePathError(ClosePathError);

#[verifier::external_type_specification]
#[verifier::external_body]
pub struct ExClosedPath(ClosedPath);

#[verifier::external_type_specification]
#[verifier::external_body]
pub struct ExPathId(PathId);

#[verifier::external_type_specification]
#[verifier::external_body]
pub struct ExPathStats(PathStats);

#[verifier::external_type_specification]
#[verifier::external_body]
pub struct ExConnection(Connection);

#[verifier::external_type_specification]
#[verifier::external_body]
pub struct ExInstant(Instant);

#[verifier::external_type_specification]
pub struct ExConnectionHandle(ConnectionHandle);

#[verifier::external_type_specification]
pub struct ExRecvError(RecvError);

#[verifier::external_type_specification]
pub struct ExPoll<T>(Poll<T>);

#[verifier::external_type_specification]
#[verifier::external_body]
#[verifier::reject_recursive_types(T)]
pub struct ExReceiver<T>(Receiver<T>);

/// `Connection::path_status`: the local status of path `id`, or
/// `ClosedPath` when the connection does not know it. The answer rests on the
/// connection's state, which is not modelled; nothing is stated of it.
#[verifier::external_body]
fn connection_path_status(conn: &Connection, id: PathId) -> Result<PathStatus, ClosedPath> {
    conn.path_status(id)
}

/// `Connection::set_path_status`: sets the local status of path `id` and gives
/// back the previous one. It rests on the connection's state, which is not
/// modelled; nothing is stated of the result or of the connection afterwards.
#[verifier::external_body]
fn connection_set_path_status(
    conn: &mut Connection,
    id: PathId,
    status: PathStatus,
) -> Result<PathStatus, SetPathStatusError> {
    conn.set_path_status(id, status)
}

/// `Connection::path_stats`: the statistics of path `id`, `None` when the
/// connection does not know it. Nothing is stated of the result or of the
/// connection afterwards.
#[verifier::external_body]
fn connection_path_stats(conn: &mut Connection, id: PathId) -> Option<PathStats> {
    conn.path_stats(id)
}

/// `Connection::close_path`: abandons path `id` at time `now`, sending the
/// transport error code `error_code` (made a `VarInt` by `VarInt::from_u32`)
/// to the peer. Nothing is stated of the result or of the connection
/// afterwards.
#[verifier::external_body]
fn connection_close_path(
    conn: &mut Connection,
    now: Instant,
    id: PathId,
    error_code: u32,
) -> Result<(), ClosePathError> {
    conn.close_path(now, id, VarInt::from_u32(error_code))
}

/// `Instant::now`: the current time. Nothing is stated of it.
#[verifier::external_body]
fn instant_now() -> Instant {
    Instant::now()
}

/// `TransportErrorCode::APPLICATION_ABANDON_PATH`, made a `VarInt` by `Into`
/// and read back as a number: the code sent when the application abandons a
/// path, 0x3e in noq-proto's table of transport error codes.
#[verifier::external_body]
fn abandon_path_code() -> (code: u32)
    ensures
        code == 0x3e,
{
    VarInt::from(TransportErrorCode::APPLICATION_ABANDON_PATH).into_inner() as u32
}

/// The transport error code sent when the application abandons a path (noq's
/// `TransportErrorCode::APPLICATION_ABANDON_PATH`).
pub fn application_abandon_path_code() -> (code: u32)
    ensures
        code == 0x3e,
{
    abandon_path_code()
}

/// `conn.path_status(id)` was asked and answered `answer`.
pub closed spec fn status_reported(
    conn: Connection,
    id: PathId,
    answer: Result<PathStatus, ClosedPath>,
) -> bool {
    connection_path_status.ensures((&conn, id), answer)
}

/// `set_path_status(id, status)` was asked through `c` and answered `answer`.
pub closed spec fn set_status_call(
    c: &mut Connection,
    id: PathId,
    status: PathStatus,
    answer: Result<PathStatus, SetPathStatusError>,
) -> bool {
    connection_set_path_status.ensures((c, id, status), answer)
}

/// `path_stats(id)` was asked through `c` and answered `answer`.
pub closed spec fn stats_call(c: &mut Connection, id: PathId, answer: Option<PathStats>) -> bool {
    connection_path_stats.ensures((c, id), answer)
}

/// `close_path(now, id, code)` was asked through `c` and answered `answer`.
pub closed spec fn close_call(
    c: &mut Connection,
    now: Instant,
    id: PathId,
    code: u32,
    answer: Result<(), ClosePathError>,
) -> bool {
    connection_close_path.ensures((c, now, id, code), answer)
}

/// Asks `conn` to set the local status of path `id` to `status`.
fn set_status_on(conn: &mut Connection, id: PathId, status: PathStatus) -> (answer: Result<
    PathStatus,
    SetPathStatusError,
>)
    ensures
        exists|c: &mut Connection|
            *c == *old(conn) && *final(c) == *final(conn)
                && #[trigger] connection_set_path_status.ensures((c, id, status), answer),
{
    connection_set_path_status(conn, id, status)
}

/// Asks `conn` for the statistics of path `id`.
fn stats_on(conn: &mut Connection, id: PathId) -> (answer: Option<PathStats>)
    ensures
        exists|c: &mut Connection|
            *c == *old(conn) && *final(c) == *final(conn)
                && #[trigger] connection_path_stats.ensures((c, id), answer),
{
    connection_path_stats(conn, id)
}

/// Asks `conn` to close path `id` at time `now` with error code `code`.
fn close_on(conn: &mut Connection, now: Instant, id: PathId, code: u32) -> (answer: Result<
    (),
    ClosePathError,
>)
    ensures
        exists|c: &mut Connection|
            *c == *old(conn) && *final(c) == *final(conn)
                && #[trigger] connection_close_path.ensures((c, now, id, code), answer),
{
    connection_close_path(conn, now, id, code)
}

/// `now` was read from the clock.
pub closed spec fn clock_read(now: Instant) -> bool {
    instant_now.ensures((), now)
}

/// What `Path::set_status` reports of the connection's answer `previous`.
pub open spec fn update_outcome(previous: Result<PathStatus, SetPathStatusError>) -> Result<
    (),
    SetPathStatusError,
> {
    match previous {
        Ok(_) => Ok(()),
        Err(e) => Err(e),
    }
}

/// A QUIC connection together with the handle under which its endpoint
/// knows it. Paths remember the handle of the connection they belong to.
pub struct QuicConnection {
    handle: ConnectionHandle,
    conn: Connection,
}

impl QuicConnection {
    /// The endpoint's handle of this connection.
    pub closed spec fn spec_handle(&self) -> usize {
        self.handle.0
    }

    /// The connection's state.
    pub closed spec fn state(&self) -> Connection {
        self.conn
    }

    /// The connection `conn`, known to its endpoint as `handle`.
    pub fn new(handle: ConnectionHandle, conn: Connection) -> (connection: QuicConnection)
        ensures
            connection.spec_handle() == handle.0,
            connection.state() == conn,
    {
        QuicConnection { handle, conn }
    }

    /// The endpoint's handle of this connection.
    pub fn handle(&self) -> (handle: ConnectionHandle)
        ensures
            handle.0 == self.spec_handle(),
    {
        ConnectionHandle(self.handle.0)
    }

    /// The connection's state, for reading.
    pub fn connection(&self) -> (conn: &Connection)
        ensures
            *conn == self.state(),
    {
        &self.conn
    }

    /// The connection's state, for driving it; the handle stays.
    pub fn connection_mut(&mut self) -> (conn: &mut Connection)
        ensures
            *conn == old(self).state(),
            final(self).state() == *final(conn),
            final(self).spec_handle() == old(self).spec_handle(),
    {
        &mut self.conn
    }
}

/// An open path of a multipath connection.
#[derive(Debug, Clone, Copy)]
pub struct Path {
    id: PathId,
    conn: ConnectionHandle,
}

impl Path {
    /// The identifier of the path.
    pub closed spec fn spec_id(&self) -> PathId {
        self.id
    }

    /// The endpoint's handle of the connection the path belongs to.
    pub closed spec fn spec_conn(&self) -> usize {
        self.conn.0
    }

    /// A handle on path `id` of connection `conn` when the connection reports
    /// a status for it (`status` is its answer), `None` when it reports the
    /// path closed.
    pub fn checked(conn: ConnectionHandle, id: PathId, status: Result<PathStatus, ClosedPath>) -> (path:
        Option<Path>)
        ensures
            path is Some <==> status is Ok,
            path matches Some(p) ==> p.spec_id() == id && p.spec_conn() == conn.0,
    {
        match status {
            Ok(_) => Some(Path { id, conn }),
            Err(_) => None,
        }
    }

    /// A handle on path `id` of `conn`, `None` when `conn` does not know the
    /// path. The connection is only read.
    pub fn new(conn: &QuicConnection, id: PathId) -> (path: Option<Path>)
        ensures
            exists|answer: Result<PathStatus, ClosedPath>|
                #[trigger] status_reported(conn.state(), id, answer) && (path is Some <==> answer is Ok),
            path matches Some(p) ==> p.spec_id() == id && p.spec_conn() == conn.spec_handle(),
    {
        let status = connection_path_status(&conn.conn, id);
        assert(status_reported(conn.state(), id, status));
        Path::checked(conn.handle(), id, status)
    }

    /// A handle on path `id` of the connection known as `conn`, with no check
    /// that the connection knows the path.
    pub fn new_unchecked(conn: ConnectionHandle, id: PathId) -> (path: Path)
        ensures
            path.spec_id() == id,
            path.spec_conn() == conn.0,
    {
        Path { id, conn }
    }

    /// The identifier of this path.
    pub fn id(&self) -> (id: PathId)
        ensures
            id == self.spec_id(),
    {
        self.id
    }

    /// The endpoint's handle of the connection this path belongs to.
    pub fn connection_handle(&self) -> (handle: ConnectionHandle)
        ensures
            handle.0 == self.spec_conn(),
    {
        ConnectionHandle(self.conn.0)
    }

    /// The current local status of this path in its connection `conn`.
    pub fn status(&self, conn: &QuicConnection) -> (status: Result<PathStatus, ClosedPath>)
        requires
            conn.spec_handle() == self.spec_conn(),
        ensures
            status_reported(conn.state(), self.spec_id(), status),
    {
        connection_path_status(&conn.conn, self.id)
    }

    /// Sets the local status of this path in its connection `conn`: one call
    /// of `set_path_status`, whose effect on the connection is the whole
    /// change, and whose answer, without the former status, is returned.
    pub fn set_status(&self, conn: &mut QuicConnection, status: PathStatus) -> (outcome: Result<
        (),
        SetPathStatusError,
    >)
        requires
            old(conn).spec_handle() == self.spec_conn(),
        ensures
            final(conn).spec_handle() == old(conn).spec_handle(),
            exists|c: &mut Connection, previous: Result<PathStatus, SetPathStatusError>|
                *c == old(conn).state() && *final(c) == final(conn).state()
                    && #[trigger] set_status_call(c, self.spec_id(), status, previous)
                    && outcome == update_outcome(previous) && (previous is Ok ==> outcome
                    == Ok::<(), SetPathStatusError>(())) && (previous matches Err(e) ==> outcome
                    == Err::<(), SetPathStatusError>(e)),
    {
        let previous = set_status_on(&mut conn.conn, self.id, status);
        proof {
            let c = choose|c: &mut Connection|
                *c == old(conn).state() && *final(c) == final(conn).state()
                    && #[trigger] connection_set_path_status.ensures((c, self.id, status), previous);
            assert(set_status_call(c, self.spec_id(), status, previous));
        }
        status_update_outcome(previous)
    }

    /// The statistics of this path in its connection `conn`: one call of
    /// `path_stats`, whose effect on the connection is the whole change, and
    /// whose answer is returned.
    pub fn stats(&self, conn: &mut QuicConnection) -> (stats: Option<PathStats>)
        requires
            old(conn).spec_handle() == self.spec_conn(),
        ensures
            final(conn).spec_handle() == old(conn).spec_handle(),
            exists|c: &mut Connection|
                *c == old(conn).state() && *final(c) == final(conn).state()
                    && #[trigger] stats_call(c, self.spec_id(), stats),
    {
        let stats = stats_on(&mut conn.conn, self.id);
        proof {
            let c = choose|c: &mut Connection|
                *c == old(conn).state() && *final(c) == final(conn).state()
                    && #[trigger] connection_path_stats.ensures((c, self.id), stats);
            assert(stats_call(c, self.spec_id(), stats));
        }
        stats
    }

    /// Closes this path locally, telling the peer that the application
    /// abandoned it: one call of `close_path` with the clock's time, this
    /// path's identifier and code 0x3e, whose effect on the connection is the
    /// whole change, and whose answer is returned.
    pub fn close(&self, conn: &mut QuicConnection) -> (outcome: Result<(), ClosePathError>)
        requires
            old(conn).spec_handle() == self.spec_conn(),
        ensures
            final(conn).spec_handle() == old(conn).spec_handle(),
            exists|c: &mut Connection, now: Instant|
                clock_read(now) && *c == old(conn).state() && *final(c) == final(conn).state()
                    && #[trigger] close_call(c, now, self.spec_id(), 0x3e, outcome),
    {
        let now = instant_now();
        let code = abandon_path_code();
        let outcome = close_on(&mut conn.conn, now, self.id, code);
        proof {
            let c = choose|c: &mut Connection|
                *c == old(conn).state() && *final(c) == final(conn).state()
                    && #[trigger] connection_close_path.ensures((c, now, self.id, code), outcome);
            assert(close_call(c, now, self.spec_id(), 0x3e, outcome));
        }
        outcome
    }
}

/// What `Path::set_status` reports of the connection's answer `previous` (the
/// former status, or the error): success without the former status, or the
/// same error.
pub fn status_update_outcome(previous: Result<PathStatus, SetPathStatusError>) -> (outcome: Result<
    (),
    SetPathStatusError,
>)
    ensures
        outcome == update_outcome(previous),
        previous is Ok ==> outcome == Ok::<(), SetPathStatusError>(()),
        previous matches Err(e) ==> outcome == Err::<(), SetPathStatusError>(e),
{
    match previous {
        Ok(_) => Ok(()),
        Err(e) => Err(e),
    }
}

#[derive(Debug)]
enum OpenPathInner {
    Ongoing {
        opened: Receiver<Result<(), PathError>>,
        path_id: PathId,
        conn: ConnectionHandle,
    },
    Rejected { err: PathError },
}

/// An attempt to open a path: either waiting for the connection's driver to
/// say on a channel whether path `path_id` of connection `conn` opened, or
/// already rejected.
#[derive(Debug)]
pub struct OpenPath(OpenPathInner);

/// What polling an [`OpenPath`] yields, given what the channel yielded.
pub open spec fn open_path_outcome(
    pending: Option<PathId>,
    rejection: Option<PathError>,
    received: Poll<Result<Result<(), PathError>, RecvError>>,
) -> Poll<Result<PathId, PathError>> {
    match rejection {
        Some(err) => Poll::Ready(Err(err)),
        None => match received {
            Poll::Ready(Ok(Ok(()))) => Poll::Ready(Ok(pending.unwrap())),
            Poll::Ready(Ok(Err(err))) => Poll::Ready(Err(err)),
            Poll::Ready(Err(_)) => Poll::Ready(Err(PathError::ValidationFailed)),
            Poll::Pending => Poll::Pending,
        },
    }
}

/// `outcome` is `expected` with each opened path given by its identifier,
/// and every opened path belongs to connection `conn`.
pub open spec fn poll_matches(
    outcome: Poll<Result<Path, PathError>>,
    expected: Poll<Result<PathId, PathError>>,
    conn: Option<usize>,
) -> bool {
    match (outcome, expected) {
        (Poll::Pending, Poll::Pending) => true,
        (Poll::Ready(Ok(p)), Poll::Ready(Ok(id))) => p.spec_id() == id && conn == Some(
            p.spec_conn(),
        ),
        (Poll::Ready(Err(e)), Poll::Ready(Err(f))) => e == f,
        _ => false,
    }
}

impl OpenPath {
    /// The path being opened, while the attempt waits for its answer.
    pub closed spec fn pending_id(&self) -> Option<PathId> {
        match self.0 {
            OpenPathInner::Ongoing { path_id, .. } => Some(path_id),
            OpenPathInner::Rejected { .. } => None,
        }
    }

    /// The handle of the connection the path is opened on, while the attempt
    /// waits for its answer.
    pub closed spec fn pending_conn(&self) -> Option<usize> {
        match self.0 {
            OpenPathInner::Ongoing { conn, .. } => Some(conn.0),
            OpenPathInner::Rejected { .. } => None,
        }
    }

    /// The channel on which the answer comes, while the attempt waits for it.
    pub closed spec fn channel(&self) -> Option<Receiver<Result<(), PathError>>> {
        match self.0 {
            OpenPathInner::Ongoing { opened, .. } => Some(opened),
            OpenPathInner::Rejected { .. } => None,
        }
    }

    /// Why the attempt was refused, when it was refused at once.
    pub closed spec fn rejection(&self) -> Option<PathError> {
        match self.0 {
            OpenPathInner::Ongoing { .. } => None,
            OpenPathInner::Rejected { err } => Some(err),
        }
    }

    /// An attempt to open path `path_id` of connection `conn`, whose answer
    /// will come on `opened`.
    pub fn new(
        path_id: PathId,
        opened: Receiver<Result<(), PathError>>,
        conn: ConnectionHandle,
    ) -> (attempt: OpenPath)
        ensures
            attempt.pending_id() == Some(path_id),
            attempt.pending_conn() == Some(conn.0),
            attempt.channel() == Some(opened),
            attempt.rejection() is None,
    {
        OpenPath(OpenPathInner::Ongoing { opened, path_id, conn })
    }

    /// An attempt refused at once with `err`.
    pub fn rejected(err: PathError) -> (attempt: OpenPath)
        ensures
            attempt.pending_id() is None,
            attempt.pending_conn() is None,
            attempt.channel() is None,
            attempt.rejection() == Some(err),
    {
        OpenPath(OpenPathInner::Rejected { err })
    }

    /// The identifier allocated for the path, unless the attempt was refused at once.
    pub fn path_id(&self) -> (id: Option<PathId>)
        ensures
            id == self.pending_id(),
    {
        match &self.0 {
            OpenPathInner::Ongoing { path_id, .. } => Some(*path_id),
            OpenPathInner::Rejected { .. } => None,
        }
    }

    /// The channel on which the answer comes, while the attempt waits for it:
    /// the one given to `new`.
    pub fn opened_channel(&self) -> (channel: Option<&Receiver<Result<(), PathError>>>)
        ensures
            channel is Some <==> self.channel() is Some,
            channel matches Some(r) ==> self.channel() == Some(*r),
    {
        match &self.0 {
            OpenPathInner::Ongoing { opened, .. } => Some(opened),
            OpenPathInner::Rejected { .. } => None,
        }
    }

    /// What a poll of the attempt yields when polling its channel yielded
    /// `received` (ignored once the attempt was refused): the opened path, on
    /// the attempt's connection, the error that came, `ValidationFailed` when
    /// the channel was closed, or `Pending` while no answer has come.
    pub fn on_poll(&self, received: Poll<Result<Result<(), PathError>, RecvError>>) -> (outcome:
        Poll<Result<Path, PathError>>)
        ensures
            poll_matches(
                outcome,
                open_path_outcome(self.pending_id(), self.rejection(), received),
                self.pending_conn(),
            ),
            self.rejection() matches Some(err) ==> outcome == Poll::<Result<Path, PathError>>::Ready(
                Err(err),
            ),
            self.rejection() is None ==> (received matches Poll::Ready(Ok(Err(e))) ==> outcome
                == Poll::<Result<Path, PathError>>::Ready(Err(e))),
            self.rejection() is None ==> (received matches Poll::Ready(Err(_)) ==> outcome
                == Poll::<Result<Path, PathError>>::Ready(Err(PathError::ValidationFailed))),
            outcome is Pending <==> (self.rejection() is None && received is Pending),
            outcome matches Poll::Ready(Ok(p)) ==> {
                &&& self.rejection() is None
                &&& received matches Poll::Ready(Ok(Ok(_)))
                &&& self.pending_id() == Some(p.spec_id())
                &&& self.pending_conn() == Some(p.spec_conn())
            },
    {
        match &self.0 {
            OpenPathInner::Ongoing { path_id, conn, .. } => match received {
                Poll::Ready(Ok(Ok(()))) => Poll::Ready(
                    Ok(Path::new_unchecked(ConnectionHandle(conn.0), *path_id)),
                ),
                Poll::Ready(Ok(Err(err))) => Poll::Ready(Err(err)),
                Poll::Ready(Err(_)) => Poll::Ready(Err(PathError::ValidationFailed)),
                Poll::Pending => Poll::Pending,
            },
            OpenPathInner::Rejected { err } => Poll::Ready(Err(*err)),
        }
    }
}

/// Every attempt either waits for its answer on a channel, with the
/// identifier of the path it opens, or has been refused, with its error;
/// never both, never neither.
pub proof fn lemma_pending_or_rejected(attempt: OpenPath)
    ensures
        attempt.pending_id() is Some <==> attempt.rejection() is None,
{
}

/// A refused attempt yields its error on every poll, whatever its channel
/// yielded.
pub proof fn lemma_rejected_attempt_always_fails(
    err: PathError,
    received: Poll<Result<Result<(), PathError>, RecvError>>,
)
    ensures
        open_path_outcome(None, Some(err), received) == Poll::<Result<PathId, PathError>>::Ready(
            Err(err),
        ),
{
}

/// A waiting attempt is `Pending` exactly while its channel is, and it opens
/// the very path whose identifier it was allocated.
pub proof fn lemma_waiting_attempt_follows_channel(
    id: PathId,
    received: Poll<Result<Result<(), PathError>, RecvError>>,
)
    ensures
        open_path_outcome(Some(id), None, received) is Pending <==> received is Pending,
        open_path_outcome(Some(id), None, received) matches Poll::Ready(Ok(opened)) ==> opened
            == id,
        received matches Poll::Ready(Err(_)) ==> open_path_outcome(Some(id), None, received)
            == Poll::<Result<PathId, PathError>>::Ready(Err(PathError::ValidationFailed)),
{
}

/// Setting a path's status succeeds, with nothing more to report, exactly
/// when the connection accepts the new status, whatever the former status
/// was; a refusal is passed on as the connection gave it.
pub proof fn lemma_status_update_reports_the_connection(
    previous: Result<PathStatus, SetPathStatusError>,
    former: PathStatus,
    e: SetPathStatusError,
)
    ensures
        update_outcome(Ok(former)) == Ok::<(), SetPathStatusError>(()),
        update_outcome(Err(e)) == Err::<(), SetPathStatusError>(e),
        update_outcome(previous) is Ok <==> previous is Ok,
{
}

/// A waiting attempt opens a path only when its channel brings a success:
/// every error that comes on the channel is what the poll yields, and a
/// closed channel yields `ValidationFailed`.
pub proof fn lemma_waiting_attempt_reports_errors(
    id: PathId,
    e: PathError,
    received: Poll<Result<Result<(), PathError>, RecvError>>,
)
    ensures
        open_path_outcome(Some(id), None, Poll::Ready(Ok(Err(e)))) == Poll::<
            Result<PathId, PathError>,
        >::Ready(Err(e)),
        open_path_outcome(Some(id), None, Poll::Ready(Ok(Ok(())))) == Poll::<
            Result<PathId, PathError>,
        >::Ready(Ok(id)),
        open_path_outcome(Some(id), None, received) matches Poll::Ready(Ok(_)) ==> (received matches Poll::Ready(Ok(Ok(_)))),
        open_path_outcome(Some(id), None, received) matches Poll::Ready(Err(f)) ==> (
        received == Poll::<Result<Result<(), PathError>, RecvError>>::Ready(Ok(Err(f))) || (
        received matches Poll::Ready(Err(_)) && f == PathError::ValidationFailed)),
{
}

} // verus!
