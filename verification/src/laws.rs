//! Laws relating several registry operations, stated over the spec-level
//! transitions that the operations' contracts describe.

use vstd::prelude::*;

use crate::registry::{with_occupied, with_reserved, ParkingLot};

verus! {

/// After an automatic allocation takes the first free spot, that spot is no
/// longer free, so a further automatic allocation can never return the same
/// id until the spot is released.
pub proof fn lemma_park_car_never_repeats(pre: ParkingLot, post: ParkingLot, id: usize)
    requires
        pre.is_first_free(id as int),
        post.spots@ == pre.spots@.update(
            id as int,
            with_occupied(pre.spots@[id as int], true),
        ),
    ensures
        !post.spots@[id as int].is_free(),
        forall|j: int| post.is_first_free(j) ==> j != id,
{
}

/// Reserving a free spot and then immediately cancelling that reservation
/// restores the registry exactly: the same spot sequence and the same
/// reservation map as before the reservation.
pub proof fn lemma_reserve_cancel_round_trip(
    pre: ParkingLot,
    mid: ParkingLot,
    post: ParkingLot,
    id: usize,
    details: String,
)
    requires
        pre.wf(),
        pre.free_at(id as int),
        mid.spots@ == pre.spots@.update(id as int, with_reserved(pre.spots@[id as int], true)),
        mid.reservations@ == pre.reservations@.insert(id, details),
        post.spots@ == mid.spots@.update(id as int, with_reserved(mid.spots@[id as int], false)),
        post.reservations@ == mid.reservations@.remove(id),
    ensures
        post.spots@ == pre.spots@,
        post.reservations@ == pre.reservations@,
{
    assert(post.spots@ =~= pre.spots@);
    assert(!pre.reservations@.contains_key(id));
    assert(post.reservations@ =~= pre.reservations@);
}

} // verus!
