use vstd::prelude::*;

verus! {

/// What can stop a replica from starting or running.
#[derive(Debug, PartialEq)]
pub enum ServidorError {
    IoError(String),
    BindError(String),
    InvalidSockets(String),
}

} // verus!
