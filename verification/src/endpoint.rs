//! Where the daemon listens: the socket below the user's home directory.
//!
//! A path is the bytes that the operating system takes it for, so a home
//! directory whose name is not text is served like any other.
use vstd::prelude::*;
use vstd::slice::*;
use vstd::string::*;

verus! {

/// The byte that separates the parts of a path.
pub const SEPARATOR: u8 = 0x2f;

/// Whether something can be put behind `path` as it stands: an empty path
/// and one that ends in a separator take no separator more.
pub open spec fn is_open(path: Seq<u8>) -> bool {
    path.len() == 0 || path.last() == SEPARATOR
}

/// The daemon's directory below `home`: `.jsi/daemon`.
pub open spec fn server_home_under(home: Seq<u8>) -> Seq<u8> {
    if is_open(home) {
        home + ".jsi/daemon".spec_bytes()
    } else {
        home + "/.jsi/daemon".spec_bytes()
    }
}

/// The daemon's socket below `home`: `server.sock` in the daemon's directory.
pub open spec fn socket_path_under(home: Seq<u8>) -> Seq<u8> {
    server_home_under(home) + "/server.sock".spec_bytes()
}

/// The daemon's directory for the user whose home directory is `home`.
pub fn server_home(home: &[u8]) -> (path: Vec<u8>)
    ensures
        path@ == server_home_under(home@),
{
    let mut path = slice_to_vec(home);
    let n: usize = path.len();
    if n == 0 || path[n - 1] == SEPARATOR {
        path.extend_from_slice(".jsi/daemon".as_bytes());
    } else {
        path.extend_from_slice("/.jsi/daemon".as_bytes());
    }
    path
}

/// The path of the daemon's socket for the user whose home directory is
/// `home`. The daemon binds it, the client connects to it.
pub fn socket_path(home: &[u8]) -> (path: Vec<u8>)
    ensures
        path@ == socket_path_under(home@),
{
    let mut path = server_home(home);
    path.extend_from_slice("/server.sock".as_bytes());
    path
}

} // verus!
