//! The datagram socket handle.
//!
//! A `UnixDatagram` stands for one open, non-blocking kernel descriptor. It
//! keeps nothing but the descriptor: the peer that the socket is connected to
//! and the directions that are shut down are the kernel's state, and the
//! handle asks for them rather than remembering them.

use vstd::prelude::*;
use crate::error::IoError;
use crate::readiness::{started, Direction, Operation};
use crate::request::{Call, Request, Shutdown};

verus! {

/// A Unix datagram socket.
///
/// Several handles may stand for the same descriptor; a copy made with
/// `clone` does.
#[derive(Debug)]
pub struct UnixDatagram {
    fd: i32,
}

impl View for UnixDatagram {
    type V = i32;

    /// The descriptor that the handle stands for.
    closed spec fn view(&self) -> i32 {
        self.fd
    }
}

impl Clone for UnixDatagram {
    /// A second handle on the same descriptor.
    fn clone(&self) -> (other: UnixDatagram)
        ensures
            other@ == self@,
    {
        UnixDatagram { fd: self.fd }
    }
}

impl From<i32> for UnixDatagram {
    /// A handle on a descriptor that is already open.
    ///
    /// The descriptor has to be in non-blocking mode already. Nothing here
    /// checks that, and on a blocking descriptor an attempt may hold the
    /// thread instead of reporting that it would block.
    fn from(fd: i32) -> (socket: UnixDatagram)
        ensures
            socket@ == fd,
    {
        UnixDatagram { fd }
    }
}

impl vstd::std_specs::convert::FromSpecImpl<i32> for UnixDatagram {
    open spec fn obeys_from_spec() -> bool {
        true
    }

    closed spec fn from_spec(fd: i32) -> UnixDatagram {
        UnixDatagram { fd }
    }
}

impl UnixDatagram {
    /// The request that creates a socket bound to `path`. The path is handed
    /// on character for character.
    pub fn bind(path: &str) -> (r: Request)
        ensures
            r@ == Call::Bind(path@),
    {
        Request::Bind { path: path.to_owned() }
    }

    /// The request that creates a socket without an address.
    pub fn unbound() -> (r: Request)
        ensures
            r@ == Call::Unbound,
    {
        Request::Unbound
    }

    /// The request that creates two sockets connected to each other.
    pub fn pair() -> (r: Request)
        ensures
            r@ == Call::Pair,
    {
        Request::Pair
    }

    /// Takes the kernel's reply to a request that creates one socket: a handle
    /// on the new descriptor, or the kernel's error and no handle.
    pub fn opened(reply: Result<i32, IoError>) -> (r: Result<UnixDatagram, IoError>)
        ensures
            match reply {
                Ok(fd) => r matches Ok(socket) && socket@ == fd,
                Err(e) => r matches Err(f) && f == e,
            },
    {
        match reply {
            Ok(fd) => Ok(UnixDatagram { fd }),
            Err(e) => Err(e),
        }
    }

    /// Takes the kernel's reply to a request for a pair: a handle on each of
    /// the two descriptors, in the kernel's order, or the kernel's error and
    /// no handle at all.
    pub fn opened_pair(reply: Result<(i32, i32), IoError>) -> (r: Result<
        (UnixDatagram, UnixDatagram),
        IoError,
    >)
        ensures
            match reply {
                Ok(fds) => r matches Ok(sockets) && sockets.0@ == fds.0 && sockets.1@ == fds.1,
                Err(e) => r matches Err(f) && f == e,
            },
    {
        match reply {
            Ok((a, b)) => Ok((UnixDatagram { fd: a }, UnixDatagram { fd: b })),
            Err(e) => Err(e),
        }
    }

    /// The descriptor, as a number. The handle still owns it: whoever gets the
    /// number must not close it.
    pub fn as_raw_fd(&self) -> (fd: i32)
        ensures
            fd == self@,
    {
        self.fd
    }

    /// The request that fixes this socket's peer to the socket at `path`.
    pub fn connect(&self, path: &str) -> (r: Request)
        ensures
            r@ == Call::Connect(self@, path@),
    {
        Request::Connect { fd: self.fd, path: path.to_owned() }
    }

    /// The request for this socket's own address.
    pub fn local_addr(&self) -> (r: Request)
        ensures
            r@ == Call::LocalAddr(self@),
    {
        Request::LocalAddr { fd: self.fd }
    }

    /// The request for the address of this socket's peer.
    pub fn peer_addr(&self) -> (r: Request)
        ensures
            r@ == Call::PeerAddr(self@),
    {
        Request::PeerAddr { fd: self.fd }
    }

    /// The request that disables the directions `how` of this socket.
    pub fn shutdown(&self, how: Shutdown) -> (r: Request)
        ensures
            r@ == Call::Shutdown(self@, how),
    {
        Request::Shutdown { fd: self.fd, how }
    }

    /// Starts a receive that also reports the sender's address. It waits for
    /// read readiness.
    pub fn recv_from(&self) -> (op: Operation)
        ensures
            op@ == started(Call::RecvFrom(self@), Direction::Read),
    {
        Operation::new(Request::RecvFrom { fd: self.fd }, Direction::Read)
    }

    /// Starts a receive. It waits for read readiness.
    pub fn recv(&self) -> (op: Operation)
        ensures
            op@ == started(Call::Recv(self@), Direction::Read),
    {
        Operation::new(Request::Recv { fd: self.fd }, Direction::Read)
    }

    /// Starts a send to the socket at `path`. It waits for write readiness.
    pub fn send_to(&self, path: &str) -> (op: Operation)
        ensures
            op@ == started(Call::SendTo(self@, path@), Direction::Write),
    {
        Operation::new(Request::SendTo { fd: self.fd, path: path.to_owned() }, Direction::Write)
    }

    /// Starts a send to the connected peer. It waits for write readiness.
    pub fn send(&self) -> (op: Operation)
        ensures
            op@ == started(Call::Send(self@), Direction::Write),
    {
        Operation::new(Request::Send { fd: self.fd }, Direction::Write)
    }
}

/// Every operation that a socket starts is made on that socket's descriptor
/// and waits for the readiness that belongs to its call: read for the two
/// receives, write for the two sends.
pub proof fn lemma_started_operations_are_consistent(fd: i32, path: Seq<char>)
    ensures
        started(Call::RecvFrom(fd), Direction::Read).consistent(),
        started(Call::Recv(fd), Direction::Read).consistent(),
        started(Call::SendTo(fd, path), Direction::Write).consistent(),
        started(Call::Send(fd), Direction::Write).consistent(),
        started(Call::RecvFrom(fd), Direction::Read).call.descriptor() == Some(fd),
        started(Call::Recv(fd), Direction::Read).call.descriptor() == Some(fd),
        started(Call::SendTo(fd, path), Direction::Write).call.descriptor() == Some(fd),
        started(Call::Send(fd), Direction::Write).call.descriptor() == Some(fd),
{
}

} // verus!
