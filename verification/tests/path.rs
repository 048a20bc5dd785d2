use std::task::Poll;

use compio_lite::path::{application_abandon_path_code, status_update_outcome, OpenPath, Path};
use flume::RecvError;
use noq_proto::{
    ClosedPath, ConnectionHandle, PathError, PathId, PathStatus, SetPathStatusError,
    TransportErrorCode, VarInt,
};

#[test]
fn open_path_reports_its_id() {
    let (_tx, rx) = flume::unbounded();
    let attempt = OpenPath::new(PathId::from(3u32), rx, ConnectionHandle(4));
    assert_eq!(attempt.path_id(), Some(PathId::from(3u32)));
    assert!(attempt.opened_channel().is_some());
}

#[test]
fn rejected_open_path_has_no_id() {
    let attempt = OpenPath::rejected(PathError::MaxPathIdReached);
    assert_eq!(attempt.path_id(), None);
    assert!(attempt.opened_channel().is_none());
}

#[test]
fn opened_path_gets_its_id() {
    let (tx, rx) = flume::unbounded();
    let attempt = OpenPath::new(PathId::from(7u32), rx, ConnectionHandle(4));
    tx.send(Ok(())).unwrap();
    let received = attempt.opened_channel().unwrap().recv();
    match attempt.on_poll(Poll::Ready(received)) {
        Poll::Ready(Ok(path)) => {
            assert_eq!(path.id(), PathId::from(7u32));
            assert_eq!(path.connection_handle(), ConnectionHandle(4));
        }
        _ => panic!("the path should have opened"),
    }
}

#[test]
fn open_path_passes_the_error_on() {
    let (tx, rx) = flume::unbounded();
    let attempt = OpenPath::new(PathId::from(1u32), rx, ConnectionHandle(4));
    tx.send(Err(PathError::RemoteCidsExhausted)).unwrap();
    let received = attempt.opened_channel().unwrap().recv();
    assert!(matches!(
        attempt.on_poll(Poll::Ready(received)),
        Poll::Ready(Err(PathError::RemoteCidsExhausted))
    ));
}

#[test]
fn closed_channel_means_validation_failed() {
    let (tx, rx) = flume::unbounded::<Result<(), PathError>>();
    let attempt = OpenPath::new(PathId::from(1u32), rx, ConnectionHandle(4));
    drop(tx);
    let received = attempt.opened_channel().unwrap().recv();
    assert!(matches!(received, Err(RecvError::Disconnected)));
    assert!(matches!(
        attempt.on_poll(Poll::Ready(received)),
        Poll::Ready(Err(PathError::ValidationFailed))
    ));
}

#[test]
fn waiting_attempt_stays_pending() {
    let (_tx, rx) = flume::unbounded();
    let attempt = OpenPath::new(PathId::from(1u32), rx, ConnectionHandle(4));
    assert!(matches!(attempt.on_poll(Poll::Pending), Poll::Pending));
}

#[test]
fn rejected_attempt_always_fails() {
    let attempt = OpenPath::rejected(PathError::MultipathNotNegotiated);
    assert!(matches!(
        attempt.on_poll(Poll::Pending),
        Poll::Ready(Err(PathError::MultipathNotNegotiated))
    ));
    assert!(matches!(
        attempt.on_poll(Poll::Ready(Ok(Ok(())))),
        Poll::Ready(Err(PathError::MultipathNotNegotiated))
    ));
}

#[test]
fn checked_path_needs_a_status() {
    let path = Path::checked(ConnectionHandle(5), PathId::from(2u32), Ok(PathStatus::Backup)).unwrap();
    assert_eq!(path.id(), PathId::from(2u32));
    assert_eq!(path.connection_handle(), ConnectionHandle(5));
    assert!(Path::checked(ConnectionHandle(5), PathId::from(2u32), Err(ClosedPath::default())).is_none());
}

#[test]
fn unchecked_path_keeps_its_id() {
    assert_eq!(Path::new_unchecked(ConnectionHandle(0), PathId::ZERO).id(), PathId::ZERO);
}

#[test]
fn status_update_drops_the_previous_status() {
    assert_eq!(status_update_outcome(Ok(PathStatus::Available)), Ok(()));
    assert_eq!(
        status_update_outcome(Err(SetPathStatusError::ClosedPath)),
        Err(SetPathStatusError::ClosedPath)
    );
    assert_eq!(
        status_update_outcome(Err(SetPathStatusError::MultipathNotNegotiated)),
        Err(SetPathStatusError::MultipathNotNegotiated)
    );
}

#[test]
fn abandon_code_is_noqs_application_abandon_path() {
    let code: VarInt = TransportErrorCode::APPLICATION_ABANDON_PATH.into();
    assert_eq!(code.into_inner(), u64::from(application_abandon_path_code()));
    assert_eq!(application_abandon_path_code(), 0x3e);
}
