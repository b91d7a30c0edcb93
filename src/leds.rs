//! The compass ring of eight user LEDs (LD3 to LD10).

use vstd::prelude::*;

use crate::leds::cursor::pull;
use crate::leds::hal::Led;

pub mod cursor;
pub mod hal;

verus! {

/// Number of LEDs on the compass ring.
pub const RING_SIZE: usize = 8;

/// LED compass direction as noted on the board.
#[derive(Clone, Copy, Debug, PartialEq, Eq, Structural)]
pub enum Direction {
    North,
    NorthEast,
    East,
    SouthEast,
    South,
    SouthWest,
    West,
    NorthWest,
}

impl Direction {
    /// Position of the direction going clockwise from North.
    pub open spec fn slot(self) -> int {
        match self {
            Direction::North => 0,
            Direction::NorthEast => 1,
            Direction::East => 2,
            Direction::SouthEast => 3,
            Direction::South => 4,
            Direction::SouthWest => 5,
            Direction::West => 6,
            Direction::NorthWest => 7,
        }
    }

    /// The eight directions clockwise, starting at North.
    pub open spec fn clockwise() -> Seq<Direction> {
        seq![
            Direction::North,
            Direction::NorthEast,
            Direction::East,
            Direction::SouthEast,
            Direction::South,
            Direction::SouthWest,
            Direction::West,
            Direction::NorthWest,
        ]
    }

    /// The GPIOE pin wired to the LED of this direction.
    pub open spec fn pin(self) -> u8 {
        match self {
            Direction::North => 9,
            Direction::NorthEast => 10,
            Direction::East => 11,
            Direction::SouthEast => 12,
            Direction::South => 13,
            Direction::SouthWest => 14,
            Direction::West => 15,
            Direction::NorthWest => 8,
        }
    }

    /// Provides the directions starting with North and moving clockwise
    /// around the compass, e.g. N -> NE -> E, etc.
    pub fn iter() -> (r: [Direction; 8])
        ensures
            r@ == Direction::clockwise(),
    {
        let r = [
            Direction::North,
            Direction::NorthEast,
            Direction::East,
            Direction::SouthEast,
            Direction::South,
            Direction::SouthWest,
            Direction::West,
            Direction::NorthWest,
        ];
        assert(r@ =~= Direction::clockwise());
        r
    }

    fn index(self) -> (r: usize)
        ensures
            r == self.slot(),
    {
        match self {
            Direction::North => 0,
            Direction::NorthEast => 1,
            Direction::East => 2,
            Direction::SouthEast => 3,
            Direction::South => 4,
            Direction::SouthWest => 5,
            Direction::West => 6,
            Direction::NorthWest => 7,
        }
    }
}

/// Distinct directions own distinct slots of the ring, the slots run over
/// the whole ring in clockwise order, and distinct directions are wired to
/// distinct pins among PE8 to PE15; so `for_direction` lends eight different
/// LEDs for the eight directions.
pub proof fn lemma_direction_slots_distinct(a: Direction, b: Direction)
    ensures
        0 <= a.slot() < 8,
        Direction::clockwise()[a.slot()] == a,
        a.slot() == b.slot() ==> a == b,
        8 <= a.pin() <= 15,
        a.pin() == b.pin() ==> a == b,
{
}

/// The eight user LEDs, held in clockwise order starting at North.
pub struct Leds<P> {
    slots: [P; 8],
}

impl<P> View for Leds<P> {
    type V = Seq<P>;

    /// The handles in clockwise order: index `d.slot()` holds direction `d`.
    closed spec fn view(&self) -> Seq<P> {
        self.slots@
    }
}

impl<P: Led> Leds<P> {
    /// Takes the eight LED outputs, given by their GPIOE pin number (PE8 to
    /// PE15), places each at its compass direction and switches all of them
    /// off.
    pub fn new(pe8: P, pe9: P, pe10: P, pe11: P, pe12: P, pe13: P, pe14: P, pe15: P) -> (r: Self)
        ensures
            r@.len() == 8,
            forall|d: Direction|
                (#[trigger] r@[d.slot()]).pin_number() == seq![
                    pe8,
                    pe9,
                    pe10,
                    pe11,
                    pe12,
                    pe13,
                    pe14,
                    pe15,
                ][d.pin() - 8].pin_number(),
            forall|i: int| 0 <= i < 8 ==> !(#[trigger] r@[i]).is_on(),
    {
        let mut north = pe9;
        let mut north_east = pe10;
        let mut east = pe11;
        let mut south_east = pe12;
        let mut south = pe13;
        let mut south_west = pe14;
        let mut west = pe15;
        let mut north_west = pe8;
        let _ = north.off();
        let _ = north_east.off();
        let _ = east.off();
        let _ = south_east.off();
        let _ = south.off();
        let _ = south_west.off();
        let _ = west.off();
        let _ = north_west.off();
        let leds = Leds {
            slots: [north, north_east, east, south_east, south, south_west, west, north_west],
        };
        assert(forall|i: int| 0 <= i < 8 ==> !(#[trigger] leds@[i]).is_on());
        leds
    }
}

impl<P> Leds<P> {
    /// Mutably borrows the LED of the given direction.
    pub fn for_direction(&mut self, direction: Direction) -> (r: &mut P)
        ensures
            *r == old(self)@[direction.slot()],
            final(self)@ == old(self)@.update(direction.slot(), *final(r)),
    {
        let i = direction.index();
        let all: &mut [P] = &mut self.slots;
        let (_, from_i) = all.split_at_mut(i);
        from_i.first_mut().unwrap()
    }

    /// Provides a mutable iterator over the LEDs, starting at North and
    /// moving clockwise; it stops once all eight have been handed out.
    pub fn iter_mut<'a>(&'a mut self) -> (r: LedsMutIterator<'a, P>)
        ensures
            r.wf(),
            r.front() == 0,
            r.back() == 8,
            r.remaining() == old(self)@,
            final(self)@ == final(r.unyielded())@,
    {
        LedsMutIterator::new(self)
    }

    /// Consumes the ring and returns its LEDs as an array, where index 0 is
    /// North and each following index rotates clockwise around the compass.
    pub fn into_array(self) -> (r: [P; 8])
        ensures
            r@ == self@,
    {
        self.slots
    }
}

/// Hands out each LED of a ring once, from North clockwise with `next` and
/// from North-West counter-clockwise with `next_back`.
///
/// The LEDs not yet handed out are the slots `front .. back` of the ring.
pub struct LedsMutIterator<'a, P> {
    index: usize,
    index_back: usize,
    rest: Option<&'a mut [P]>,
}

impl<'a, P> LedsMutIterator<'a, P> {
    /// The bounds stay within the ring and the unyielded part spans them.
    pub closed spec fn wf(self) -> bool {
        &&& self.index <= self.index_back <= 8
        &&& self.rest is Some
        &&& self.rest.unwrap()@.len() == self.index_back - self.index
    }

    /// Slot that the next call of `next` hands out.
    pub closed spec fn front(self) -> int {
        self.index as int
    }

    /// One past the slot that the next call of `next_back` hands out.
    pub closed spec fn back(self) -> int {
        self.index_back as int
    }

    /// The part of the ring not handed out yet.
    pub closed spec fn unyielded(self) -> &'a mut [P] {
        self.rest.unwrap()
    }

    /// The LEDs not handed out yet, as they were when the iterator began.
    pub closed spec fn remaining(self) -> Seq<P> {
        self.rest.unwrap()@
    }

    fn new(leds: &'a mut Leds<P>) -> (r: Self)
        ensures
            r.wf(),
            r.front() == 0,
            r.back() == 8,
            r.remaining() == old(leds)@,
            final(leds)@ == final(r.unyielded())@,
    {
        let all: &'a mut [P] = &mut leds.slots;
        LedsMutIterator { index: 0, index_back: RING_SIZE, rest: Some(all) }
    }

    /// Number of LEDs still to be handed out.
    pub fn len(&self) -> (r: usize)
        requires
            self.wf(),
        ensures
            r == self.back() - self.front(),
            0 <= self.front() <= self.back() <= 8,
            self.remaining().len() == r,
    {
        self.index_back - self.index
    }

    /// Exact bounds on the number of LEDs still to be handed out.
    pub fn size_hint(&self) -> (r: (usize, Option<usize>))
        requires
            self.wf(),
        ensures
            r.0 == self.back() - self.front(),
            r.1 == Some(r.0),
    {
        let length = self.len();
        (length, Some(length))
    }

    /// Hands out the LED at slot `front`, or nothing once exhausted.
    pub fn next(&mut self) -> (r: Option<&'a mut P>)
        requires
            old(self).wf(),
        ensures
            final(self).wf(),
            0 <= final(self).front() <= final(self).back() <= 8,
            final(self).remaining().len() == final(self).back() - final(self).front(),
            pull(old(self).front(), old(self).back(), true) == (
                if r is Some { Some(old(self).front()) } else { None::<int> },
                final(self).front(),
                final(self).back(),
            ),
            r is None ==> *final(self) == *old(self),
            r is Some ==> {
                &&& *r.unwrap() == old(self).remaining()[0]
                &&& final(self).remaining() == old(self).remaining().drop_first()
                &&& final(old(self).unyielded())@
                    == seq![*final(r.unwrap())] + final(final(self).unyielded())@
            },
    {
        if self.index == self.index_back {
            return None;
        }
        let mut taken: Option<&'a mut [P]> = None;
        std::mem::swap(&mut self.rest, &mut taken);
        let rest = taken.unwrap();
        let (head, tail) = rest.split_at_mut(1);
        self.rest = Some(tail);
        self.index = self.index + 1;
        head.first_mut()
    }

    /// Hands out the LED at slot `back - 1`, or nothing once exhausted.
    pub fn next_back(&mut self) -> (r: Option<&'a mut P>)
        requires
            old(self).wf(),
        ensures
            final(self).wf(),
            0 <= final(self).front() <= final(self).back() <= 8,
            final(self).remaining().len() == final(self).back() - final(self).front(),
            pull(old(self).front(), old(self).back(), false) == (
                if r is Some { Some(old(self).back() - 1) } else { None::<int> },
                final(self).front(),
                final(self).back(),
            ),
            r is None ==> *final(self) == *old(self),
            r is Some ==> {
                &&& *r.unwrap() == old(self).remaining().last()
                &&& final(self).remaining() == old(self).remaining().drop_last()
                &&& final(old(self).unyielded())@
                    == final(final(self).unyielded())@ + seq![*final(r.unwrap())]
            },
    {
        if self.index == self.index_back {
            return None;
        }
        let mut taken: Option<&'a mut [P]> = None;
        std::mem::swap(&mut self.rest, &mut taken);
        let rest = taken.unwrap();
        let last = rest.len() - 1;
        let (head, tail) = rest.split_at_mut(last);
        self.rest = Some(head);
        self.index_back = self.index_back - 1;
        tail.first_mut()
    }
}

} // verus!
