//! Identity of a CAN interface.

use nix::errno::Errno;
use vstd::prelude::*;

verus! {

/// The error number type of `nix`, carried through unopened.
#[verifier::external_type_specification]
#[verifier::external_body]
pub struct ExErrno(Errno);

/// A CAN interface as the kernel knows it.
///
/// The index is the kernel's handle and stays the same when the interface is
/// renamed, so everything that tells interfaces apart goes by `idx`; the name
/// is carried along for people to read.
#[derive(Debug)]
pub struct CanInterfaceInfo {
    /// Interface index assigned by the kernel.
    pub idx: u32,
    /// Interface name, such as `can0`.
    pub name: String,
}

/// An interface name the kernel could not resolve.
#[derive(Debug)]
pub struct LookupError {
    /// The name that was asked for.
    pub name: String,
    /// What the kernel answered.
    pub cause: Errno,
}

/// Asks the kernel for the index of the interface called `name`, through
/// `nix::net::if_::if_nametoindex`.
///
/// The answer depends on the interfaces present when the call is made, so the
/// only thing claimed is what `nix` guarantees of every answer: it reports
/// index zero as an error, never as a success.
#[verifier::external_body]
fn interface_index(name: &str) -> (answer: Result<u32, Errno>)
    ensures
        answer matches Ok(idx) ==> idx != 0,
{
    nix::net::if_::if_nametoindex(name)
}

impl CanInterfaceInfo {
    /// What a lookup of `name` amounts to, given the kernel's answer.
    pub open spec fn resolved(name: Seq<char>, answer: Result<u32, Errno>, found: Result<Self, LookupError>) -> bool {
        match answer {
            Ok(idx) => found matches Ok(info) && info.idx == idx && info.name@ == name,
            Err(cause) => found matches Err(e) && e.cause == cause && e.name@ == name,
        }
    }

    /// Looks the interface up by name.
    ///
    /// Whether the name resolves is the kernel's decision. Whatever it
    /// decides, a success carries the name asked for and a nonzero index, and
    /// a failure carries the name asked for.
    pub fn new(name: &str) -> (found: Result<Self, LookupError>)
        ensures
            found matches Ok(info) ==> info.name@ == name@ && info.idx != 0,
            found matches Err(e) ==> e.name@ == name@,
    {
        Self::from_lookup(name, interface_index(name))
    }

    /// Turns the kernel's answer to a lookup of `name` into an interface or a
    /// lookup error.
    pub fn from_lookup(name: &str, answer: Result<u32, Errno>) -> (found: Result<Self, LookupError>)
        ensures
            Self::resolved(name@, answer, found),
    {
        match answer {
            Ok(idx) => Ok(Self { idx, name: name.to_owned() }),
            Err(cause) => Err(LookupError { name: name.to_owned(), cause }),
        }
    }
}

impl Clone for CanInterfaceInfo {
    /// The copy equals the interface it was taken from.
    fn clone(&self) -> (copy: Self)
        ensures
            copy == *self,
    {
        Self { idx: self.idx, name: self.name.clone() }
    }
}

} // verus!
