//! The spot registry: a fixed, ordered sequence of parking spots together
//! with a map from spot id to reservation details. Every mutating operation
//! either performs its whole state transition or leaves the registry
//! untouched and reports one error kind.

use std::collections::HashMap;
use vstd::prelude::*;

verus! {

broadcast use vstd::std_specs::hash::group_hash_axioms;

/// One unit of parking capacity, identified by a stable, zero-based id.
/// A spot is never simultaneously occupied and reserved.
#[derive(Clone, Copy, PartialEq, Eq, Structural, Debug)]
pub struct ParkingSpot {
    pub id: usize,
    pub occupied: bool,
    pub reserved: bool,
}

/// The status of a spot, as reported in a snapshot of the registry.
#[derive(Clone, Copy, PartialEq, Eq, Structural, Debug)]
pub enum SpotStatus {
    Free,
    Occupied,
    Reserved,
}

/// Every way a registry operation can fail. All errors are recoverable:
/// the registry is left exactly as it was.
#[derive(Clone, Copy, PartialEq, Eq, Structural, Debug)]
pub enum ParkingError {
    /// An automatic allocation found no free spot.
    NoAvailableSpot,
    /// The referenced id is not below the registry's capacity.
    InvalidSpotId,
    /// The spot exists but is occupied or reserved, so it cannot be taken.
    SpotUnavailable,
    /// Release found the spot out of range or not occupied.
    SpotNotFound,
    /// Cancellation found the spot out of range or not reserved.
    InvalidOrNotReserved,
}

impl ParkingSpot {
    /// A spot is free when it is neither occupied nor reserved.
    pub open spec fn is_free(self) -> bool {
        !self.occupied && !self.reserved
    }

    /// A spot never holds a car and a reservation at once.
    pub open spec fn valid(self) -> bool {
        !(self.occupied && self.reserved)
    }

    /// The status a spot reports: occupation takes precedence, then
    /// reservation, else the spot is free.
    pub open spec fn spec_status(self) -> SpotStatus {
        if self.occupied {
            SpotStatus::Occupied
        } else if self.reserved {
            SpotStatus::Reserved
        } else {
            SpotStatus::Free
        }
    }

    pub fn new(id: usize) -> (spot: ParkingSpot)
        ensures
            spot.id == id,
            !spot.occupied,
            !spot.reserved,
    {
        ParkingSpot { id, occupied: false, reserved: false }
    }

    /// The status of this spot.
    pub fn status(&self) -> (st: SpotStatus)
        ensures
            st == self.spec_status(),
    {
        if self.occupied {
            SpotStatus::Occupied
        } else if self.reserved {
            SpotStatus::Reserved
        } else {
            SpotStatus::Free
        }
    }
}

/// The spot at `s` with its `occupied` flag set to `b`.
pub open spec fn with_occupied(s: ParkingSpot, b: bool) -> ParkingSpot {
    ParkingSpot { occupied: b, ..s }
}

/// The spot at `s` with its `reserved` flag set to `b`.
pub open spec fn with_reserved(s: ParkingSpot, b: bool) -> ParkingSpot {
    ParkingSpot { reserved: b, ..s }
}

/// The distance between a spot id and a caller's position.
pub open spec fn dist(id: int, position: int) -> int {
    if id >= position {
        id - position
    } else {
        position - id
    }
}

/// A registry of parking spots. The sequence of spots is fixed at
/// construction; `reservations` maps the id of each reserved spot to the
/// details supplied when it was reserved.
pub struct ParkingLot {
    pub spots: Vec<ParkingSpot>,
    pub reservations: HashMap<usize, String>,
}

impl ParkingLot {
    /// Well-formedness: each spot's id is its index, no spot is both
    /// occupied and reserved, and the reservation map holds an entry for a
    /// spot exactly when that spot is reserved.
    pub open spec fn wf(self) -> bool {
        &&& forall|i: int|
            0 <= i < self.spots@.len() ==> (#[trigger] self.spots@[i]).id == i
        &&& forall|i: int| 0 <= i < self.spots@.len() ==> (#[trigger] self.spots@[i]).valid()
        &&& forall|i: int|
            0 <= i < self.spots@.len() ==> ((#[trigger] self.spots@[i]).reserved
                <==> self.reservations@.contains_key(i as usize))
        &&& forall|k: usize|
            #[trigger] self.reservations@.contains_key(k) ==> k < self.spots@.len()
    }

    /// The spot at index `i` exists and is free.
    pub open spec fn free_at(self, i: int) -> bool {
        0 <= i < self.spots@.len() && self.spots@[i].is_free()
    }

    /// Some spot of the registry is free.
    pub open spec fn has_free(self) -> bool {
        exists|i: int| self.free_at(i)
    }

    /// `i` is the lowest index of a free spot.
    pub open spec fn is_first_free(self, i: int) -> bool {
        &&& self.free_at(i)
        &&& forall|j: int| 0 <= j < i ==> !(#[trigger] self.spots@[j]).is_free()
    }

    /// A registry with `size` spots, all free, and no reservations.
    pub fn new(size: usize) -> (lot: ParkingLot)
        ensures
            lot.wf(),
            lot.spots@.len() == size,
            forall|i: int| 0 <= i < size ==> (#[trigger] lot.spots@[i]).is_free(),
            lot.reservations@ == Map::<usize, String>::empty(),
    {
        let mut spots: Vec<ParkingSpot> = Vec::with_capacity(size);
        let mut i: usize = 0;
        while i < size
            invariant
                i <= size,
                spots@.len() == i,
                forall|j: int|
                    0 <= j < i ==> (#[trigger] spots@[j]) == (ParkingSpot {
                        id: j as usize,
                        occupied: false,
                        reserved: false,
                    }),
            decreases size - i,
        {
            spots.push(ParkingSpot::new(i));
            i = i + 1;
        }
        ParkingLot { spots, reservations: HashMap::new() }
    }

    /// The free spot with the lowest id, if any spot is free.
    pub fn find_available_spot(&self) -> (r: Option<&ParkingSpot>)
        requires
            self.wf(),
        ensures
            r is Some <==> self.has_free(),
            match r {
                Some(spot) => {
                    &&& self.is_first_free(spot.id as int)
                    &&& *spot == self.spots@[spot.id as int]
                },
                None => true,
            },
    {
        let n = self.spots.len();
        let mut i: usize = 0;
        while i < n
            invariant
                self.wf(),
                n == self.spots@.len(),
                i <= n,
                forall|j: int| 0 <= j < i ==> !(#[trigger] self.spots@[j]).is_free(),
            decreases n - i,
        {
            if !self.spots[i].occupied && !self.spots[i].reserved {
                proof {
                    assert(self.free_at(i as int));
                }
                return Some(&self.spots[i]);
            }
            i = i + 1;
        }
        None
    }

    /// Among the free spots, the one whose id is nearest to `position`;
    /// on a tie in distance, the lower id. `position` need not name an
    /// existing spot.
    pub fn find_nearest_available_spot(&self, position: usize) -> (r: Option<&ParkingSpot>)
        requires
            self.wf(),
        ensures
            r is Some <==> self.has_free(),
            match r {
                Some(spot) => {
                    &&& self.free_at(spot.id as int)
                    &&& *spot == self.spots@[spot.id as int]
                    &&& forall|j: int|
                        self.free_at(j) ==> dist(spot.id as int, position as int) <= dist(
                            j,
                            position as int,
                        )
                    &&& forall|j: int|
                        self.free_at(j) && dist(j, position as int) == dist(
                            spot.id as int,
                            position as int,
                        ) ==> spot.id <= j
                },
                None => true,
            },
    {
        let n = self.spots.len();
        let mut best: Option<usize> = None;
        let mut min_distance: usize = 0;
        let mut i: usize = 0;
        while i < n
            invariant
                self.wf(),
                n == self.spots@.len(),
                i <= n,
                match best {
                    Some(b) => {
                        &&& self.free_at(b as int)
                        &&& b < i
                        &&& min_distance == dist(b as int, position as int)
                        &&& forall|j: int|
                            0 <= j < i && self.free_at(j) ==> min_distance as int <= dist(
                                j,
                                position as int,
                            )
                        &&& forall|j: int|
                            0 <= j < i && self.free_at(j) && dist(j, position as int)
                                == min_distance as int ==> b <= j
                    },
                    None => forall|j: int|
                        0 <= j < i ==> !(#[trigger] self.spots@[j]).is_free(),
                },
            decreases n - i,
        {
            if !self.spots[i].occupied && !self.spots[i].reserved {
                let distance: usize = if self.spots[i].id >= position {
                    self.spots[i].id - position
                } else {
                    position - self.spots[i].id
                };
                let take: bool = match best {
                    Some(_) => distance < min_distance,
                    None => true,
                };
                if take {
                    min_distance = distance;
                    best = Some(i);
                }
            }
            i = i + 1;
        }
        match best {
            Some(b) => Some(&self.spots[b]),
            None => None,
        }
    }

    /// Parks a car in the first free spot, in ascending id order, and
    /// returns that spot's id; fails when no spot is free.
    pub fn park_car(&mut self) -> (r: Result<usize, ParkingError>)
        requires
            old(self).wf(),
        ensures
            final(self).wf(),
            r is Ok <==> old(self).has_free(),
            match r {
                Ok(id) => {
                    &&& old(self).is_first_free(id as int)
                    &&& final(self).spots@ == old(self).spots@.update(
                        id as int,
                        with_occupied(old(self).spots@[id as int], true),
                    )
                    &&& final(self).reservations == old(self).reservations
                },
                Err(e) => {
                    &&& e == ParkingError::NoAvailableSpot
                    &&& *final(self) == *old(self)
                },
            },
    {
        let n = self.spots.len();
        let mut i: usize = 0;
        while i < n
            invariant
                self.wf(),
                *self == *old(self),
                n == self.spots@.len(),
                i <= n,
                forall|j: int| 0 <= j < i ==> !(#[trigger] self.spots@[j]).is_free(),
            decreases n - i,
        {
            if !self.spots[i].occupied && !self.spots[i].reserved {
                proof {
                    assert(self.free_at(i as int));
                }
                self.spots[i].occupied = true;
                return Ok(i);
            }
            i = i + 1;
        }
        Err(ParkingError::NoAvailableSpot)
    }

    /// Parks a car in the spot named by `id`, which must exist and be free.
    pub fn park_car_in_spot(&mut self, id: usize) -> (r: Result<(), ParkingError>)
        requires
            old(self).wf(),
        ensures
            final(self).wf(),
            r is Ok <==> old(self).free_at(id as int),
            match r {
                Ok(_) => {
                    &&& final(self).spots@ == old(self).spots@.update(
                        id as int,
                        with_occupied(old(self).spots@[id as int], true),
                    )
                    &&& final(self).reservations == old(self).reservations
                },
                Err(e) => {
                    &&& *final(self) == *old(self)
                    &&& (e == ParkingError::InvalidSpotId <==> id >= old(self).spots@.len())
                    &&& (e == ParkingError::SpotUnavailable <==> id < old(self).spots@.len()
                        && !old(self).spots@[id as int].is_free())
                },
            },
    {
        if id >= self.spots.len() {
            return Err(ParkingError::InvalidSpotId);
        }
        if self.spots[id].occupied || self.spots[id].reserved {
            return Err(ParkingError::SpotUnavailable);
        }
        self.spots[id].occupied = true;
        Ok(())
    }

    /// Parks a car in the free spot nearest to `position` (lowest id on a
    /// tie in distance) and returns that spot's id; fails when no spot is
    /// free.
    pub fn park_car_nearest(&mut self, position: usize) -> (r: Result<usize, ParkingError>)
        requires
            old(self).wf(),
        ensures
            final(self).wf(),
            r is Ok <==> old(self).has_free(),
            match r {
                Ok(id) => {
                    &&& old(self).free_at(id as int)
                    &&& forall|j: int|
                        old(self).free_at(j) ==> dist(id as int, position as int) <= dist(
                            j,
                            position as int,
                        )
                    &&& forall|j: int|
                        old(self).free_at(j) && dist(j, position as int) == dist(
                            id as int,
                            position as int,
                        ) ==> id <= j
                    &&& final(self).spots@ == old(self).spots@.update(
                        id as int,
                        with_occupied(old(self).spots@[id as int], true),
                    )
                    &&& final(self).reservations == old(self).reservations
                },
                Err(e) => {
                    &&& e == ParkingError::NoAvailableSpot
                    &&& *final(self) == *old(self)
                },
            },
    {
        let id: usize = match self.find_nearest_available_spot(position) {
            Some(spot) => spot.id,
            None => {
                return Err(ParkingError::NoAvailableSpot);
            },
        };
        self.spots[id].occupied = true;
        Ok(id)
    }

    /// Removes the car from the spot named by `id`, which must exist and be
    /// occupied; releasing a merely reserved spot is an error.
    pub fn remove_car(&mut self, id: usize) -> (r: Result<(), ParkingError>)
        requires
            old(self).wf(),
        ensures
            final(self).wf(),
            r is Ok <==> id < old(self).spots@.len() && old(self).spots@[id as int].occupied,
            match r {
                Ok(_) => {
                    &&& final(self).spots@ == old(self).spots@.update(
                        id as int,
                        with_occupied(old(self).spots@[id as int], false),
                    )
                    &&& final(self).reservations == old(self).reservations
                },
                Err(e) => {
                    &&& e == ParkingError::SpotNotFound
                    &&& *final(self) == *old(self)
                },
            },
    {
        if id >= self.spots.len() || !self.spots[id].occupied {
            return Err(ParkingError::SpotNotFound);
        }
        self.spots[id].occupied = false;
        Ok(())
    }

    /// Reserves the spot named by `id`, which must exist and be free, and
    /// stores `details` for it.
    pub fn reserve_spot(&mut self, id: usize, details: String) -> (r: Result<(), ParkingError>)
        requires
            old(self).wf(),
        ensures
            final(self).wf(),
            r is Ok <==> old(self).free_at(id as int),
            match r {
                Ok(_) => {
                    &&& final(self).spots@ == old(self).spots@.update(
                        id as int,
                        with_reserved(old(self).spots@[id as int], true),
                    )
                    &&& final(self).reservations@ == old(self).reservations@.insert(id, details)
                },
                Err(e) => {
                    &&& *final(self) == *old(self)
                    &&& (e == ParkingError::InvalidSpotId <==> id >= old(self).spots@.len())
                    &&& (e == ParkingError::SpotUnavailable <==> id < old(self).spots@.len()
                        && !old(self).spots@[id as int].is_free())
                },
            },
    {
        if id >= self.spots.len() {
            return Err(ParkingError::InvalidSpotId);
        }
        if self.spots[id].occupied || self.spots[id].reserved {
            return Err(ParkingError::SpotUnavailable);
        }
        self.spots[id].reserved = true;
        self.reservations.insert(id, details);
        Ok(())
    }

    /// Cancels the reservation on the spot named by `id`, which must exist
    /// and be reserved; the spot becomes free and its entry is removed.
    pub fn cancel_reservation(&mut self, id: usize) -> (r: Result<(), ParkingError>)
        requires
            old(self).wf(),
        ensures
            final(self).wf(),
            r is Ok <==> id < old(self).spots@.len() && old(self).spots@[id as int].reserved,
            match r {
                Ok(_) => {
                    &&& final(self).spots@ == old(self).spots@.update(
                        id as int,
                        with_reserved(old(self).spots@[id as int], false),
                    )
                    &&& final(self).reservations@ == old(self).reservations@.remove(id)
                },
                Err(e) => {
                    &&& e == ParkingError::InvalidOrNotReserved
                    &&& *final(self) == *old(self)
                },
            },
    {
        if id >= self.spots.len() || !self.spots[id].reserved {
            return Err(ParkingError::InvalidOrNotReserved);
        }
        self.spots[id].reserved = false;
        self.reservations.remove(&id);
        Ok(())
    }

    /// An ordered snapshot of every spot: its id and its current status,
    /// ascending by id. Read-only.
    pub fn snapshot(&self) -> (r: Vec<(usize, SpotStatus)>)
        ensures
            r@.len() == self.spots@.len(),
            forall|i: int|
                0 <= i < r@.len() ==> #[trigger] r@[i] == (
                    self.spots@[i].id,
                    self.spots@[i].spec_status(),
                ),
    {
        let n = self.spots.len();
        let mut r: Vec<(usize, SpotStatus)> = Vec::with_capacity(n);
        let mut i: usize = 0;
        while i < n
            invariant
                n == self.spots@.len(),
                i <= n,
                r@.len() == i,
                forall|j: int|
                    0 <= j < i ==> #[trigger] r@[j] == (
                        self.spots@[j].id,
                        self.spots@[j].spec_status(),
                    ),
            decreases n - i,
        {
            r.push((self.spots[i].id, self.spots[i].status()));
            i = i + 1;
        }
        r
    }
}

} // verus!
