//! The decisions of the library on outcomes that are written out by hand.

use unix_datagram::addr::SocketAddr;
use unix_datagram::datagram::UnixDatagram;
use unix_datagram::error::{ErrorKind, IoError};
use unix_datagram::readiness::{Direction, Phase, Step};
use unix_datagram::request::{Request, Shutdown};

fn would_block() -> IoError {
    IoError::new(ErrorKind::WouldBlock, 11)
}

#[test]
fn success_completes_without_a_suspension() {
    let socket = UnixDatagram::from(5);
    let mut op = socket.send();
    assert_eq!(op.phase(), Phase::Attempting);
    assert_eq!(op.on_outcome(Ok(11usize)), Step::Complete(Ok(11)));
    assert_eq!(op.phase(), Phase::Finished);
}

#[test]
fn would_block_suspends_and_is_never_a_result() {
    let socket = UnixDatagram::from(5);
    let mut op = socket.recv();
    let step: Step<usize> = op.on_outcome(Err(would_block()));
    assert_eq!(step, Step::Suspend(Direction::Read));
    assert_ne!(step, Step::Complete(Err(would_block())));
    assert_eq!(op.phase(), Phase::Waiting);
}

#[test]
fn each_wake_leads_to_one_more_attempt() {
    let socket = UnixDatagram::from(5);
    let mut op = socket.recv();
    let mut suspensions = 0;
    let outcomes: Vec<Result<usize, IoError>> =
        vec![Err(would_block()), Err(would_block()), Err(would_block()), Ok(4), Ok(9)];
    let mut result = None;
    for outcome in outcomes {
        if !op.on_wake() {
            break;
        }
        match op.on_outcome(outcome) {
            Step::Suspend(d) => {
                assert_eq!(d, Direction::Read);
                assert_eq!(op.phase(), Phase::Waiting);
                suspensions += 1;
            },
            Step::Complete(r) => result = Some(r),
        }
    }
    assert_eq!(suspensions, 3);
    assert_eq!(result, Some(Ok(4)));
    assert_eq!(op.phase(), Phase::Finished);
    assert!(!op.on_wake());
}

#[test]
fn a_wake_changes_nothing_unless_the_operation_waits() {
    let socket = UnixDatagram::from(5);
    let mut op = socket.send();
    assert!(op.on_wake());
    assert!(op.on_wake());
    assert_eq!(op.phase(), Phase::Attempting);
    assert_eq!(op.on_outcome(Ok(1usize)), Step::Complete(Ok(1)));
    assert!(!op.on_wake());
    assert_eq!(op.phase(), Phase::Finished);
}

#[test]
fn an_error_is_handed_on_as_it_came() {
    let socket = UnixDatagram::from(5);
    let refused = IoError::new(ErrorKind::ConnectionRefused, 111);
    let mut op = socket.send();
    assert_eq!(op.on_outcome::<usize>(Err(refused)), Step::Complete(Err(refused)));
    let odd = IoError::new(ErrorKind::Other, 4242);
    let mut op = socket.recv_from();
    assert_eq!(op.on_outcome::<(usize, SocketAddr)>(Err(odd)), Step::Complete(Err(odd)));
    let mut op = socket.recv();
    let step: Step<usize> = op.on_outcome(Err(IoError::new(ErrorKind::BrokenPipe, 32)));
    match step {
        Step::Complete(Err(e)) => {
            assert_eq!(e.kind(), ErrorKind::BrokenPipe);
            assert_eq!(e.raw_os_error(), 32);
            assert!(!e.is_would_block());
        },
        other => panic!("{:?}", other),
    }
}

#[test]
fn an_error_after_a_wait_ends_the_operation() {
    let socket = UnixDatagram::from(5);
    let mut op = socket.send();
    assert_eq!(op.on_outcome::<usize>(Err(would_block())), Step::Suspend(Direction::Write));
    assert!(op.on_wake());
    let down = IoError::new(ErrorKind::BrokenPipe, 32);
    assert_eq!(op.on_outcome::<usize>(Err(down)), Step::Complete(Err(down)));
    assert_eq!(op.phase(), Phase::Finished);
}

#[test]
fn receives_wait_for_read_and_sends_for_write() {
    let socket = UnixDatagram::from(3);
    assert_eq!(socket.recv_from().direction(), Direction::Read);
    assert_eq!(socket.recv().direction(), Direction::Read);
    assert_eq!(socket.send_to("/tmp/s1").direction(), Direction::Write);
    assert_eq!(socket.send().direction(), Direction::Write);
    let mut op = socket.recv_from();
    assert_eq!(
        op.on_outcome::<(usize, SocketAddr)>(Err(would_block())),
        Step::Suspend(Direction::Read)
    );
    let mut op = socket.send_to("/tmp/s1");
    assert_eq!(op.on_outcome::<usize>(Err(would_block())), Step::Suspend(Direction::Write));
}

#[test]
fn a_read_and_a_write_wait_side_by_side() {
    let socket = UnixDatagram::from(3);
    let mut reading = socket.recv();
    let mut writing = socket.send();
    assert_eq!(reading.on_outcome::<usize>(Err(would_block())), Step::Suspend(Direction::Read));
    assert_eq!(writing.on_outcome::<usize>(Err(would_block())), Step::Suspend(Direction::Write));
    assert!(writing.on_wake());
    assert_eq!(writing.on_outcome(Ok(2usize)), Step::Complete(Ok(2)));
    assert_eq!(reading.phase(), Phase::Waiting);
    assert!(reading.on_wake());
    assert_eq!(reading.on_outcome(Ok(7usize)), Step::Complete(Ok(7)));
}

#[test]
fn cancelling_a_waiting_operation_names_its_registration() {
    let socket = UnixDatagram::from(3);
    let mut op = socket.recv();
    let _: Step<usize> = op.on_outcome(Err(would_block()));
    assert_eq!(op.cancel(), Some(Direction::Read));
    assert_eq!(op.phase(), Phase::Finished);
    assert_eq!(op.cancel(), None);
    assert!(!op.on_wake());

    let mut op = socket.send();
    let _: Step<usize> = op.on_outcome(Err(would_block()));
    assert_eq!(op.cancel(), Some(Direction::Write));
}

#[test]
fn cancelling_before_any_wait_removes_nothing() {
    let socket = UnixDatagram::from(3);
    let mut op = socket.send();
    assert_eq!(op.cancel(), None);
    assert_eq!(op.phase(), Phase::Finished);
    let mut op = socket.recv();
    assert_eq!(op.on_outcome(Ok(0usize)), Step::Complete(Ok(0)));
    assert_eq!(op.cancel(), None);
}

#[test]
fn requests_name_the_call_the_descriptor_and_the_path() {
    let socket = UnixDatagram::from(9);
    assert_eq!(UnixDatagram::bind("/tmp/s1"), Request::Bind { path: "/tmp/s1".to_string() });
    assert_eq!(UnixDatagram::unbound(), Request::Unbound);
    assert_eq!(UnixDatagram::pair(), Request::Pair);
    assert_eq!(socket.connect("/tmp/s1"), Request::Connect { fd: 9, path: "/tmp/s1".to_string() });
    assert_eq!(socket.local_addr(), Request::LocalAddr { fd: 9 });
    assert_eq!(socket.peer_addr(), Request::PeerAddr { fd: 9 });
    assert_eq!(socket.shutdown(Shutdown::Both), Request::Shutdown { fd: 9, how: Shutdown::Both });
    assert_eq!(socket.shutdown(Shutdown::Read), Request::Shutdown { fd: 9, how: Shutdown::Read });
    assert_eq!(socket.recv_from().request(), &Request::RecvFrom { fd: 9 });
    assert_eq!(socket.recv().request(), &Request::Recv { fd: 9 });
    assert_eq!(
        socket.send_to("/tmp/s2").request(),
        &Request::SendTo { fd: 9, path: "/tmp/s2".to_string() }
    );
    assert_eq!(socket.send().request(), &Request::Send { fd: 9 });
}

#[test]
fn paths_are_not_tidied() {
    let socket = UnixDatagram::from(1);
    let odd = "./a/../b//c/";
    assert_eq!(UnixDatagram::bind(odd), Request::Bind { path: odd.to_string() });
    assert_eq!(socket.connect(odd), Request::Connect { fd: 1, path: odd.to_string() });
    assert_eq!(SocketAddr::from_pathname(odd).as_pathname(), Some(odd));
    assert_eq!(SocketAddr::from_reply(Some(odd.to_string())).as_pathname(), Some(odd));
}

#[test]
fn only_transfers_can_wait() {
    let socket = UnixDatagram::from(2);
    assert_eq!(UnixDatagram::bind("/tmp/s1").direction(), None);
    assert_eq!(UnixDatagram::unbound().direction(), None);
    assert_eq!(UnixDatagram::pair().direction(), None);
    assert_eq!(socket.connect("/tmp/s1").direction(), None);
    assert_eq!(socket.local_addr().direction(), None);
    assert_eq!(socket.peer_addr().direction(), None);
    assert_eq!(socket.shutdown(Shutdown::Write).direction(), None);
    assert_eq!(socket.recv().request().direction(), Some(Direction::Read));
    assert_eq!(socket.recv_from().request().direction(), Some(Direction::Read));
    assert_eq!(socket.send().request().direction(), Some(Direction::Write));
    assert_eq!(socket.send_to("/x").request().direction(), Some(Direction::Write));
}

#[test]
fn requests_on_a_socket_name_its_descriptor() {
    let socket = UnixDatagram::from(12);
    assert_eq!(UnixDatagram::bind("/tmp/s1").descriptor(), None);
    assert_eq!(UnixDatagram::unbound().descriptor(), None);
    assert_eq!(UnixDatagram::pair().descriptor(), None);
    assert_eq!(socket.connect("/tmp/s1").descriptor(), Some(12));
    assert_eq!(socket.local_addr().descriptor(), Some(12));
    assert_eq!(socket.peer_addr().descriptor(), Some(12));
    assert_eq!(socket.shutdown(Shutdown::Read).descriptor(), Some(12));
    assert_eq!(socket.recv().request().descriptor(), Some(12));
    assert_eq!(socket.send_to("/x").request().descriptor(), Some(12));
}

#[test]
fn shutdown_disables_its_directions() {
    assert!(Shutdown::Read.disables(Direction::Read));
    assert!(!Shutdown::Read.disables(Direction::Write));
    assert!(!Shutdown::Write.disables(Direction::Read));
    assert!(Shutdown::Write.disables(Direction::Write));
    assert!(Shutdown::Both.disables(Direction::Read));
    assert!(Shutdown::Both.disables(Direction::Write));
}

#[test]
fn a_failed_creation_leaves_no_socket() {
    let in_use = IoError::new(ErrorKind::AddrInUse, 98);
    assert_eq!(UnixDatagram::opened(Err(in_use)).unwrap_err(), in_use);
    let denied = IoError::new(ErrorKind::PermissionDenied, 13);
    assert_eq!(UnixDatagram::opened_pair(Err(denied)).unwrap_err(), denied);
    let limit = IoError::new(ErrorKind::Other, 24);
    assert_eq!(UnixDatagram::opened(Err(limit)).unwrap_err(), limit);
}

#[test]
fn a_creation_hands_out_the_descriptors_it_was_given() {
    assert_eq!(UnixDatagram::opened(Ok(4)).unwrap().as_raw_fd(), 4);
    let (a, b) = UnixDatagram::opened_pair(Ok((6, 7))).unwrap();
    assert_eq!(a.as_raw_fd(), 6);
    assert_eq!(b.as_raw_fd(), 7);
    assert_eq!(UnixDatagram::from(0).as_raw_fd(), 0);
    let s = UnixDatagram::from(i32::MAX);
    assert_eq!(s.clone().as_raw_fd(), i32::MAX);
}

#[test]
fn an_address_is_unnamed_or_has_a_path() {
    let none = SocketAddr::unnamed();
    assert!(none.is_unnamed());
    assert_eq!(none.as_pathname(), None);
    assert_eq!(none, SocketAddr::Unnamed);
    assert_eq!(SocketAddr::from_reply(None), SocketAddr::Unnamed);

    let named = SocketAddr::from_pathname("/tmp/s1");
    assert!(!named.is_unnamed());
    assert_eq!(named.as_pathname(), Some("/tmp/s1"));
    assert_eq!(named, SocketAddr::Pathname("/tmp/s1".to_string()));
    assert_eq!(named.clone(), named);
    assert_eq!(none.clone(), none);
    assert_ne!(named, none);
}

#[test]
fn an_unbound_socket_that_connects_stays_unnamed() {
    let socket = UnixDatagram::opened(Ok(3)).unwrap();
    assert_eq!(socket.connect("/tmp/s1"), Request::Connect { fd: 3, path: "/tmp/s1".to_string() });
    let local = SocketAddr::from_reply(None);
    assert!(local.is_unnamed());
    let peer = SocketAddr::from_reply(Some("/tmp/s1".to_string()));
    assert_eq!(peer.as_pathname(), Some("/tmp/s1"));
}

#[test]
fn a_send_after_a_shutdown_fails_and_does_not_wait() {
    let socket = UnixDatagram::opened(Ok(3)).unwrap();
    assert_eq!(socket.shutdown(Shutdown::Both), Request::Shutdown { fd: 3, how: Shutdown::Both });
    let mut op = socket.send();
    let step: Step<usize> = op.on_outcome(Err(IoError::new(ErrorKind::BrokenPipe, 32)));
    assert_eq!(step, Step::Complete(Err(IoError::new(ErrorKind::BrokenPipe, 32))));
    assert_eq!(op.phase(), Phase::Finished);
    assert_eq!(op.cancel(), None);
}

#[test]
fn only_would_block_is_would_block() {
    assert!(IoError::new(ErrorKind::WouldBlock, 11).is_would_block());
    assert!(IoError::new(ErrorKind::WouldBlock, 0).is_would_block());
    for kind in [
        ErrorKind::NotFound,
        ErrorKind::PermissionDenied,
        ErrorKind::AddrInUse,
        ErrorKind::ConnectionRefused,
        ErrorKind::NotConnected,
        ErrorKind::BrokenPipe,
        ErrorKind::InvalidInput,
        ErrorKind::Other,
    ] {
        let e = IoError::new(kind, 11);
        assert!(!e.is_would_block());
        assert_eq!(e.kind(), kind);
        assert_eq!(e.raw_os_error(), 11);
    }
}
