//! Reading the standard input without blocking: the descriptor and the
//! flags it had before.
use vstd::prelude::*;

verus! {

/// `libc::STDIN_FILENO`: the descriptor of the standard input, which the
/// C library fixes at 0.
#[verifier::external_body]
fn stdin_fileno() -> (r: i32)
    ensures
        r == 0,
{
    libc::STDIN_FILENO
}

/// The standard input, with the flags it had before it was made
/// non-blocking.
pub struct Nonblocking {
    pub fd: i32,
    pub orig_fl: Option<i32>,
}

impl Nonblocking {
    /// The standard input, its flags not yet read.
    pub fn new() -> (n: Self)
        ensures
            n.fd == 0,
            n.orig_fl is None,
    {
        Nonblocking { fd: stdin_fileno(), orig_fl: None }
    }
}

} // verus!
