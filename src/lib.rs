use vstd::prelude::*;

pub mod build_arg;
pub mod monitor;
pub mod outcome;

verus! {

/// Configuration for calls on a remote host: the path of a private key, if any.
pub struct RemoteHostCall {
    pub private_key: Option<String>,
}

} // verus!
