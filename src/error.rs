//! Errors raised by user callbacks, and the sentinels handed back to the
//! handshake engine.
use vstd::prelude::*;

verus! {

/// A fatal error to be returned from async select certificate callbacks.
#[derive(Debug, Copy, Clone, PartialEq, Eq)]
pub struct AsyncSelectCertError;

/// A fatal error to be returned from async private key methods.
#[derive(Debug, Copy, Clone, PartialEq, Eq)]
pub struct AsyncPrivateKeyMethodError;

/// What a certificate selection entry reports to the handshake engine when
/// it does not succeed.
#[derive(Debug, Copy, Clone, PartialEq, Eq)]
pub enum SelectCertSignal {
    /// The operation is still in flight: call this entry point again later.
    Retry,
    /// Certificate selection failed; the handshake step is aborted.
    Error,
}

/// What a private key entry reports to the handshake engine when it does not
/// produce a byte count.
#[derive(Debug, Copy, Clone, PartialEq, Eq)]
pub enum PrivateKeySignal {
    /// The operation is still in flight: call `complete` later.
    Retry,
    /// The operation failed; the handshake step is aborted.
    Failure,
}

} // verus!
