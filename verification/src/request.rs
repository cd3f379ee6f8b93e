//! What the facade asks of the kernel.
//!
//! Every call on a socket is one kernel call on one descriptor. A `Request`
//! names that call and carries what the kernel needs besides the caller's
//! buffer: the descriptor, and the path or the directions where the call has
//! them. The driver performs the request as it stands.

use vstd::prelude::*;
use crate::readiness::Direction;

verus! {

/// Which directions of a socket a shutdown disables.
#[derive(Clone, Copy, Debug, PartialEq, Eq, Structural)]
pub enum Shutdown {
    /// No more receives.
    Read,
    /// No more sends.
    Write,
    /// Neither.
    Both,
}

impl Shutdown {
    /// Whether a shutdown of this sort disables `direction`.
    pub open spec fn spec_disables(&self, direction: Direction) -> bool {
        match (*self, direction) {
            (Shutdown::Both, _) => true,
            (Shutdown::Read, Direction::Read) => true,
            (Shutdown::Write, Direction::Write) => true,
            _ => false,
        }
    }

    /// Whether a shutdown of this sort disables `direction`.
    #[verifier::when_used_as_spec(spec_disables)]
    pub fn disables(&self, direction: Direction) -> (b: bool)
        ensures
            b == self.spec_disables(direction),
    {
        match self {
            Shutdown::Both => true,
            Shutdown::Read => direction == Direction::Read,
            Shutdown::Write => direction == Direction::Write,
        }
    }
}

/// A kernel call, with each path as a sequence of characters.
pub enum Call {
    /// Create a socket bound to the path.
    Bind(Seq<char>),
    /// Create a socket without an address.
    Unbound,
    /// Create two sockets connected to each other.
    Pair,
    /// Fix the peer of the descriptor to the socket at the path.
    Connect(i32, Seq<char>),
    /// Ask for the descriptor's own address.
    LocalAddr(i32),
    /// Ask for the address of the descriptor's peer.
    PeerAddr(i32),
    /// Disable directions of the descriptor.
    Shutdown(i32, Shutdown),
    /// Receive one datagram and its sender's address.
    RecvFrom(i32),
    /// Receive one datagram.
    Recv(i32),
    /// Send one datagram to the socket at the path.
    SendTo(i32, Seq<char>),
    /// Send one datagram to the connected peer.
    Send(i32),
}

impl Call {
    /// The readiness that the call waits for when it would block: read for a
    /// receive, write for a send. Every other call is made once and never
    /// waits.
    pub open spec fn direction(self) -> Option<Direction> {
        match self {
            Call::RecvFrom(_) | Call::Recv(_) => Some(Direction::Read),
            Call::SendTo(_, _) | Call::Send(_) => Some(Direction::Write),
            _ => None,
        }
    }

    /// The descriptor that the call is made on, for a call on an existing
    /// socket.
    pub open spec fn descriptor(self) -> Option<i32> {
        match self {
            Call::Bind(_) | Call::Unbound | Call::Pair => None,
            Call::Connect(fd, _) => Some(fd),
            Call::LocalAddr(fd) => Some(fd),
            Call::PeerAddr(fd) => Some(fd),
            Call::Shutdown(fd, _) => Some(fd),
            Call::RecvFrom(fd) => Some(fd),
            Call::Recv(fd) => Some(fd),
            Call::SendTo(fd, _) => Some(fd),
            Call::Send(fd) => Some(fd),
        }
    }
}

/// A kernel call that the driver is to make.
#[derive(Debug, PartialEq, Eq)]
pub enum Request {
    /// Create a socket bound to `path`.
    Bind { path: String },
    /// Create a socket without an address.
    Unbound,
    /// Create two sockets connected to each other.
    Pair,
    /// Fix the peer of `fd` to the socket at `path`.
    Connect { fd: i32, path: String },
    /// Ask for the address of `fd`.
    LocalAddr { fd: i32 },
    /// Ask for the address of the peer of `fd`.
    PeerAddr { fd: i32 },
    /// Disable the directions `how` of `fd`.
    Shutdown { fd: i32, how: Shutdown },
    /// Receive one datagram on `fd`, with its sender's address.
    RecvFrom { fd: i32 },
    /// Receive one datagram on `fd`.
    Recv { fd: i32 },
    /// Send one datagram on `fd` to the socket at `path`.
    SendTo { fd: i32, path: String },
    /// Send one datagram on `fd` to its peer.
    Send { fd: i32 },
}

impl View for Request {
    type V = Call;

    open spec fn view(&self) -> Call {
        match *self {
            Request::Bind { path } => Call::Bind(path@),
            Request::Unbound => Call::Unbound,
            Request::Pair => Call::Pair,
            Request::Connect { fd, path } => Call::Connect(fd, path@),
            Request::LocalAddr { fd } => Call::LocalAddr(fd),
            Request::PeerAddr { fd } => Call::PeerAddr(fd),
            Request::Shutdown { fd, how } => Call::Shutdown(fd, how),
            Request::RecvFrom { fd } => Call::RecvFrom(fd),
            Request::Recv { fd } => Call::Recv(fd),
            Request::SendTo { fd, path } => Call::SendTo(fd, path@),
            Request::Send { fd } => Call::Send(fd),
        }
    }
}

impl Request {
    /// The readiness that the request waits for when it would block, if it is
    /// one that can wait at all.
    pub fn direction(&self) -> (d: Option<Direction>)
        ensures
            d == self@.direction(),
    {
        match self {
            Request::RecvFrom { .. } => Some(Direction::Read),
            Request::Recv { .. } => Some(Direction::Read),
            Request::SendTo { .. } => Some(Direction::Write),
            Request::Send { .. } => Some(Direction::Write),
            _ => None,
        }
    }

    /// The descriptor that the request is made on, if it is made on an
    /// existing socket.
    pub fn descriptor(&self) -> (fd: Option<i32>)
        ensures
            fd == self@.descriptor(),
    {
        match self {
            Request::Bind { .. } => None,
            Request::Unbound => None,
            Request::Pair => None,
            Request::Connect { fd, .. } => Some(*fd),
            Request::LocalAddr { fd } => Some(*fd),
            Request::PeerAddr { fd } => Some(*fd),
            Request::Shutdown { fd, .. } => Some(*fd),
            Request::RecvFrom { fd } => Some(*fd),
            Request::Recv { fd } => Some(*fd),
            Request::SendTo { fd, .. } => Some(*fd),
            Request::Send { fd } => Some(*fd),
        }
    }
}

/// A shutdown of both directions disables all that the two one-sided
/// shutdowns disable, and each of those disables only its own direction.
pub proof fn lemma_shutdown_covers(direction: Direction)
    ensures
        Shutdown::Both.spec_disables(direction),
        Shutdown::Both.spec_disables(direction) == (Shutdown::Read.spec_disables(direction)
            || Shutdown::Write.spec_disables(direction)),
        Shutdown::Read.spec_disables(direction) <==> direction == Direction::Read,
        Shutdown::Write.spec_disables(direction) <==> direction == Direction::Write,
{
}

} // verus!
