//! The versions of the API.

use vstd::prelude::*;

verus! {

/// The major version of the API that a client speaks.
#[derive(Debug, Clone, Copy, PartialEq, Eq, Structural)]
pub enum APIMajorVersion {
    V7,
    V8,
}

/// An answer in the form of the version of the API that the client speaks.
#[derive(Debug)]
pub enum Versioned<A, B> {
    V7(A),
    V8(B),
}

/// The version of the API that the server offers.
#[derive(Debug)]
pub struct Version {
    pub major: i32,
    pub minor: i32,
}

/// The version that a server of API version `major`.`minor` tells its clients.
pub fn get_version(major: i32, minor: i32) -> (version: Version)
    ensures
        version == (Version { major, minor }),
{
    Version { major, minor }
}

} // verus!
