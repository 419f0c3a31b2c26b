//! Certificate selection: turns the outcome of one entry into the engine's
//! select-certificate result, applying the selected certificate on success.
use vstd::prelude::*;
use crate::driver::Drive;
use crate::error::{AsyncSelectCertError, SelectCertSignal};

verus! {

/// The engine's answer once a finish closure reported `out`.
pub open spec fn select_cert_answer(out: Result<(), AsyncSelectCertError>) -> Result<(), SelectCertSignal> {
    match out {
        Ok(()) => Ok(()),
        Err(_) => Err(SelectCertSignal::Error),
    }
}

/// The finish closure accepts what `polled` would hand it.
pub open spec fn can_finish_select_cert<T, A>(polled: Drive<Result<T, AsyncSelectCertError>>, apply: A) -> bool where
    A: FnOnce(T) -> Result<(), AsyncSelectCertError>,
 {
    forall|t: T| polled == Drive::Ready(Ok::<T, AsyncSelectCertError>(t)) ==> #[trigger] apply.requires((t,))
}

/// Answers the handshake engine after one entry whose outcome is `polled`.
///
/// A pending operation asks for a retry, a failed one aborts, and a finished
/// one hands its finish closure to `apply` (which calls it on the handshake
/// data); a failure there aborts too.
pub fn finish_select_certificate<T, A>(
    polled: Drive<Result<T, AsyncSelectCertError>>,
    apply: A,
) -> (r: Result<(), SelectCertSignal>) where A: FnOnce(T) -> Result<(), AsyncSelectCertError>
    requires
        can_finish_select_cert(polled, apply),
    ensures
        match polled {
            Drive::Pending => r == Err::<(), SelectCertSignal>(SelectCertSignal::Retry),
            Drive::Ready(Err(_)) => r == Err::<(), SelectCertSignal>(SelectCertSignal::Error),
            Drive::Ready(Ok(t)) => exists|out: Result<(), AsyncSelectCertError>|
                #[trigger] apply.ensures((t,), out) && r == select_cert_answer(out),
        },
{
    match polled {
        Drive::Pending => Err(SelectCertSignal::Retry),
        Drive::Ready(Err(_)) => Err(SelectCertSignal::Error),
        Drive::Ready(Ok(finish)) => {
            let out = apply(finish);
            match out {
                Ok(()) => Ok(()),
                Err(_) => Err(SelectCertSignal::Error),
            }
        },
    }
}

} // verus!
