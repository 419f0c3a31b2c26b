//! Private key operations: `sign` and `decrypt` start an operation, and
//! `complete` resumes the one in flight. All three share one slot, so only one
//! operation per session is ever in flight.
use vstd::prelude::*;
use crate::driver::{polled_once, with_ex_data_future, Drive, Polled};
use crate::error::{AsyncPrivateKeyMethodError, PrivateKeySignal};

verus! {

/// The engine's answer once a finish closure reported `out`.
pub open spec fn private_key_answer(out: Result<usize, AsyncPrivateKeyMethodError>) -> Result<usize, PrivateKeySignal> {
    match out {
        Ok(n) => Ok(n),
        Err(_) => Err(PrivateKeySignal::Failure),
    }
}

/// The finish closure accepts what `polled` would hand it.
pub open spec fn can_finish_private_key<T, A>(polled: Drive<Result<T, AsyncPrivateKeyMethodError>>, apply: A) -> bool where
    A: FnOnce(T) -> Result<usize, AsyncPrivateKeyMethodError>,
 {
    forall|t: T| polled == Drive::Ready(Ok::<T, AsyncPrivateKeyMethodError>(t)) ==> #[trigger] apply.requires((t,))
}

/// Answers the handshake engine after one `sign`, `decrypt` or `complete`
/// entry whose outcome is `polled`.
///
/// A pending operation asks for a retry, a failed one aborts, and a finished
/// one hands its finish closure to `apply` (which calls it on the session and
/// the output buffer): the byte count it reports is the answer, and a failure
/// there aborts.
pub fn finish_private_key_method<T, A>(
    polled: Drive<Result<T, AsyncPrivateKeyMethodError>>,
    apply: A,
) -> (r: Result<usize, PrivateKeySignal>) where A: FnOnce(T) -> Result<usize, AsyncPrivateKeyMethodError>
    requires
        can_finish_private_key(polled, apply),
    ensures
        match polled {
            Drive::Pending => r == Err::<usize, PrivateKeySignal>(PrivateKeySignal::Retry),
            Drive::Ready(Err(_)) => r == Err::<usize, PrivateKeySignal>(PrivateKeySignal::Failure),
            Drive::Ready(Ok(t)) => exists|out: Result<usize, AsyncPrivateKeyMethodError>|
                #[trigger] apply.ensures((t,), out) && r == private_key_answer(out),
        },
{
    match polled {
        Drive::Pending => Err(PrivateKeySignal::Retry),
        Drive::Ready(Err(_)) => Err(PrivateKeySignal::Failure),
        Drive::Ready(Ok(finish)) => {
            let out = apply(finish);
            match out {
                Ok(n) => Ok(n),
                Err(_) => Err(PrivateKeySignal::Failure),
            }
        },
    }
}

/// Resumes the private key operation in flight in `slot`, polling it once.
///
/// Returns `None`, touching nothing, when no operation is in flight: the
/// handshake engine called `complete` without a pending `sign` or `decrypt`,
/// a defect that callers treat as fatal. Never starts a new operation.
pub fn complete_private_key_method<W, F, T, P>(
    slot: &mut Option<F>,
    waker: &W,
    poll: P,
) -> (r: Option<Drive<Result<T, AsyncPrivateKeyMethodError>>>) where
    P: FnOnce(F, &W) -> Polled<F, Result<T, AsyncPrivateKeyMethodError>>,

    requires
        *old(slot) matches Some(f) ==> poll.requires((f, waker)),
    ensures
        match *old(slot) {
            None => r is None && *final(slot) is None,
            Some(f) => r matches Some(d) && polled_once(poll, waker, f, *final(slot), d),
        },
{
    if slot.is_none() {
        return None;
    }
    // The slot holds the operation in flight, so the engine resumes it and
    // never runs this creation closure.
    let nothing_pending = || -> (c: Result<F, AsyncPrivateKeyMethodError>) { Err(AsyncPrivateKeyMethodError) };
    Some(with_ex_data_future(slot, waker, nothing_pending, poll))
}

} // verus!
