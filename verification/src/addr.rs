//! Addresses of Unix datagram sockets.

use vstd::prelude::*;

verus! {

/// What an address is, with the path as a sequence of characters.
pub enum Address {
    /// No path is bound.
    Unnamed,
    /// Bound to this filesystem path.
    Path(Seq<char>),
}

/// The address of a Unix datagram socket: unnamed, or a filesystem path.
///
/// A path is kept exactly as it was given. It is never resolved, normalised or
/// made absolute, so the path that a socket was bound or connected with is the
/// path that its address reports.
#[derive(Debug, PartialEq, Eq)]
pub enum SocketAddr {
    /// The socket has no path: it was never bound, or it is one end of a pair.
    Unnamed,
    /// The socket is bound to this path.
    Pathname(String),
}

impl View for SocketAddr {
    type V = Address;

    open spec fn view(&self) -> Address {
        match *self {
            SocketAddr::Unnamed => Address::Unnamed,
            SocketAddr::Pathname(p) => Address::Path(p@),
        }
    }
}

impl Clone for SocketAddr {
    /// A copy: the same path, or none.
    fn clone(&self) -> (a: SocketAddr)
        ensures
            a@ == self@,
    {
        match self {
            SocketAddr::Unnamed => SocketAddr::Unnamed,
            SocketAddr::Pathname(path) => SocketAddr::Pathname(path.clone()),
        }
    }
}

impl SocketAddr {
    /// The address of a socket without a path.
    pub fn unnamed() -> (a: SocketAddr)
        ensures
            a@ == Address::Unnamed,
    {
        SocketAddr::Unnamed
    }

    /// The address of a socket bound to `path`, character for character.
    pub fn from_pathname(path: &str) -> (a: SocketAddr)
        ensures
            a@ == Address::Path(path@),
    {
        SocketAddr::Pathname(path.to_owned())
    }

    /// The address that a kernel reply describes: the path where the reply
    /// carries one, and unnamed where it carries none.
    pub fn from_reply(path: Option<String>) -> (a: SocketAddr)
        ensures
            a@ == match path {
                Some(p) => Address::Path(p@),
                None => Address::Unnamed,
            },
    {
        match path {
            Some(p) => SocketAddr::Pathname(p),
            None => SocketAddr::Unnamed,
        }
    }

    /// Whether the address carries no path.
    pub fn is_unnamed(&self) -> (b: bool)
        ensures
            b == (self@ == Address::Unnamed),
    {
        match self {
            SocketAddr::Unnamed => true,
            SocketAddr::Pathname(_) => false,
        }
    }

    /// The path of the address, if it has one.
    pub fn as_pathname(&self) -> (p: Option<&str>)
        ensures
            match p {
                Some(s) => self@ == Address::Path(s@),
                None => self@ == Address::Unnamed,
            },
    {
        match self {
            SocketAddr::Unnamed => None,
            SocketAddr::Pathname(path) => Some(path.as_str()),
        }
    }
}

/// An address is unnamed exactly when it has no path at all.
pub proof fn lemma_unnamed_has_no_path(a: SocketAddr)
    ensures
        (a@ == Address::Unnamed) <==> !(exists|p: Seq<char>| a@ == Address::Path(p)),
{
    match a {
        SocketAddr::Unnamed => {
            assert forall|p: Seq<char>| a@ != Address::Path(p) by {}
        },
        SocketAddr::Pathname(s) => {
            assert(a@ == Address::Path(s@));
        },
    }
}

} // verus!
