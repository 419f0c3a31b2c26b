//! The poll-once, store-if-pending engine shared by all async callbacks.
//!
//! A session owns one slot per kind of operation. Each synchronous entry
//! polls the stored future once, or creates and polls a new one when the
//! slot is empty; a future that is still pending afterwards is kept in the
//! slot for the next entry, and one that finished leaves the slot empty.
use vstd::prelude::*;

verus! {

/// What a single poll of a future gives back: its output, or the future
/// itself, still pending, to be kept for a later poll.
pub enum Polled<F, R> {
    Ready(R),
    Pending(F),
}

/// The outcome of one synchronous entry into the engine.
#[derive(Debug, PartialEq, Eq)]
pub enum Drive<R> {
    Ready(R),
    Pending,
}

/// The slot and the result after one poll gave `p`: a ready output leaves
/// the slot empty, a pending future is kept in it.
pub open spec fn settled<F, R>(p: Polled<F, R>, slot_after: Option<F>, r: Drive<R>) -> bool {
    match p {
        Polled::Ready(x) => slot_after is None && r == Drive::Ready(x),
        Polled::Pending(g) => slot_after == Some(g) && r is Pending,
    }
}

/// `f` was polled exactly once, with `waker`, and settled into `slot_after`
/// and `r`.
pub open spec fn polled_once<W, F, R, P>(
    poll: P,
    waker: &W,
    f: F,
    slot_after: Option<F>,
    r: Drive<R>,
) -> bool where P: FnOnce(F, &W) -> Polled<F, R> {
    exists|p: Polled<F, R>| #[trigger] poll.ensures((f, waker), p) && settled(p, slot_after, r)
}

/// One synchronous entry from slot contents `slot`: a stored future is
/// resumed and `create` is not consulted; otherwise `create` runs once, its
/// error is returned at once with the slot left empty, and the future it
/// made is polled once.
pub open spec fn drive_step<W, F, T, E, C, P>(
    slot: Option<F>,
    waker: &W,
    create: C,
    poll: P,
    slot_after: Option<F>,
    r: Drive<Result<T, E>>,
) -> bool where C: FnOnce() -> Result<F, E>, P: FnOnce(F, &W) -> Polled<F, Result<T, E>> {
    match slot {
        Some(f) => polled_once(poll, waker, f, slot_after, r),
        None => exists|c: Result<F, E>|
            #[trigger] create.ensures((), c) && match c {
                Err(e) => slot_after is None && r == Drive::<Result<T, E>>::Ready(Err(e)),
                Ok(f) => polled_once(poll, waker, f, slot_after, r),
            },
    }
}

/// The closures accept what an entry from slot contents `slot` hands them.
pub open spec fn can_drive<W, F, T, E, C, P>(slot: Option<F>, waker: &W, create: C, poll: P) -> bool where
    C: FnOnce() -> Result<F, E>,
    P: FnOnce(F, &W) -> Polled<F, Result<T, E>>,
 {
    match slot {
        Some(f) => poll.requires((f, waker)),
        None => create.requires(()) && forall|f: F|
            #[trigger] create.ensures((), Ok::<F, E>(f)) ==> poll.requires((f, waker)),
    }
}

/// Polls the future stored in `slot`, or one made by `create` when the slot
/// is empty, exactly once with `waker`.
///
/// A future that is ready on its first poll is never stored; one that is
/// pending is stored; a stored future is removed once it is ready. A
/// creation error is returned as a ready error and stores nothing. `poll`
/// can be called once only, so no entry polls a future twice.
pub fn with_ex_data_future<W, F, T, E, C, P>(
    slot: &mut Option<F>,
    waker: &W,
    create: C,
    poll: P,
) -> (r: Drive<Result<T, E>>) where
    C: FnOnce() -> Result<F, E>,
    P: FnOnce(F, &W) -> Polled<F, Result<T, E>>,

    requires
        can_drive(*old(slot), waker, create, poll),
    ensures
        drive_step(*old(slot), waker, create, poll, *final(slot), r),
{
    if slot.is_some() {
        let f = slot.take().unwrap();
        let p = poll(f, waker);
        match p {
            Polled::Ready(x) => Drive::Ready(x),
            Polled::Pending(g) => {
                *slot = Some(g);
                Drive::Pending
            },
        }
    } else {
        let c = create();
        match c {
            Err(e) => Drive::Ready(Err(e)),
            Ok(f) => {
                let p = poll(f, waker);
                match p {
                    Polled::Ready(x) => Drive::Ready(x),
                    Polled::Pending(g) => {
                        *slot = Some(g);
                        Drive::Pending
                    },
                }
            },
        }
    }
}

/// A future that is ready on its first poll is never stored: an entry into an
/// empty slot whose new future is ready at once leaves the slot empty and
/// returns the output.
pub proof fn lemma_ready_on_first_poll_never_stored<W, F, T, E, C, P>(
    waker: &W,
    create: C,
    poll: P,
    slot_after: Option<F>,
    r: Drive<Result<T, E>>,
) where C: FnOnce() -> Result<F, E>, P: FnOnce(F, &W) -> Polled<F, Result<T, E>>
    requires
        forall|f: F, p: Polled<F, Result<T, E>>| #[trigger] poll.ensures((f, waker), p) ==> p is Ready,
        drive_step(None, waker, create, poll, slot_after, r),
    ensures
        slot_after is None,
        r is Ready,
{
}

/// A future that is pending on its first poll is stored, once, and the next
/// entry resumes that same future instead of creating a new one.
pub proof fn lemma_pending_future_stored_then_resumed<W, F, T, E, C, P, C2, P2>(
    waker: &W,
    create: C,
    poll: P,
    slot_mid: Option<F>,
    r: Drive<Result<T, E>>,
    next_waker: &W,
    next_create: C2,
    next_poll: P2,
    slot_after: Option<F>,
    next_r: Drive<Result<T, E>>,
) where
    C: FnOnce() -> Result<F, E>,
    P: FnOnce(F, &W) -> Polled<F, Result<T, E>>,
    C2: FnOnce() -> Result<F, E>,
    P2: FnOnce(F, &W) -> Polled<F, Result<T, E>>,

    requires
        forall|c: Result<F, E>| #[trigger] create.ensures((), c) ==> c is Ok,
        forall|f: F, p: Polled<F, Result<T, E>>| #[trigger] poll.ensures((f, waker), p) ==> p is Pending,
        drive_step(None, waker, create, poll, slot_mid, r),
        drive_step(slot_mid, next_waker, next_create, next_poll, slot_after, next_r),
    ensures
        r is Pending,
        exists|f: F, g: F|
            #[trigger] create.ensures((), Ok::<F, E>(f)) && #[trigger] poll.ensures((f, waker), Polled::<F, Result<T, E>>::Pending(g))
                && slot_mid == Some(g) && polled_once(next_poll, next_waker, g, slot_after, next_r),
{
    let c = choose|c: Result<F, E>| #[trigger] create.ensures((), c) && match c {
        Err(e) => slot_mid is None && r == Drive::<Result<T, E>>::Ready(Err(e)),
        Ok(f) => polled_once(poll, waker, f, slot_mid, r),
    };
    let f = c->Ok_0;
    let p = choose|p: Polled<F, Result<T, E>>| #[trigger] poll.ensures((f, waker), p) && settled(p, slot_mid, r);
    let g = p->Pending_0;
    assert(create.ensures((), Ok::<F, E>(f)) && poll.ensures((f, waker), Polled::<F, Result<T, E>>::Pending(g)));
}

/// Once an entry returns a ready result the slot is empty, so the next entry,
/// whatever operation it serves, starts afresh from its own creation closure.
pub proof fn lemma_ready_empties_slot<W, F, T, E, C, P, C2, P2>(
    slot: Option<F>,
    waker: &W,
    create: C,
    poll: P,
    slot_mid: Option<F>,
    r: Drive<Result<T, E>>,
    next_waker: &W,
    next_create: C2,
    next_poll: P2,
    slot_after: Option<F>,
    next_r: Drive<Result<T, E>>,
) where
    C: FnOnce() -> Result<F, E>,
    P: FnOnce(F, &W) -> Polled<F, Result<T, E>>,
    C2: FnOnce() -> Result<F, E>,
    P2: FnOnce(F, &W) -> Polled<F, Result<T, E>>,

    requires
        drive_step(slot, waker, create, poll, slot_mid, r),
        r is Ready,
        drive_step(slot_mid, next_waker, next_create, next_poll, slot_after, next_r),
    ensures
        slot_mid is None,
        exists|c: Result<F, E>| #[trigger] next_create.ensures((), c),
{
}

} // verus!
