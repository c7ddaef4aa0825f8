use vstd::prelude::*;

use crate::message::Event;
use crate::multi::Multi;

verus! {

/// A turn of the encoder.
#[derive(Copy, Clone, Debug, PartialEq, Eq, Structural, Hash)]
pub enum Direction {
    CW,
    ACW,
}

/// The turn, if any, that the two encoder lines going from `last` to
/// `next` mean.
pub open spec fn turn(last: (bool, bool), next: (bool, bool)) -> Option<Direction> {
    if (last == (true, false) && next == (false, true)) || (last == (false, true) && next == (
    true, false)) || (last == (true, true) && next == (true, false)) || (last == (false, false)
        && next == (false, true)) {
        Some(Direction::ACW)
    } else if (last == (false, false) && next == (true, true)) || (last == (true, true) && next
        == (false, false)) || (last == (false, true) && next == (false, false)) || (last == (
    true, false) && next == (true, true)) {
        Some(Direction::CW)
    } else {
        None
    }
}

/// The rotary encoder, read as two keys of the matrix: a turn presses the
/// key for its direction, and the matching release follows at the next
/// scan.
pub struct Rotary {
    pub last: (bool, bool),
    pub cw_coord: (u8, u8),
    pub acw_coord: (u8, u8),
    pub release: Multi<Event>,
}

impl Rotary {
    pub fn new(cw_coord: (u8, u8), acw_coord: (u8, u8)) -> (r: Self)
        ensures
            r.last == (false, false),
            r.cw_coord == cw_coord,
            r.acw_coord == acw_coord,
            r.release@.len() == 0,
    {
        Rotary { last: (false, false), cw_coord, acw_coord, release: Multi::Zero }
    }

    /// Takes the new levels of the two lines and returns the turn they make.
    pub fn read_and_debounce(&mut self, next: (bool, bool)) -> (r: Option<Direction>)
        ensures
            r == turn(old(self).last, next),
            *final(self) == (Rotary { last: next, ..*old(self) }),
    {
        let last = self.last;
        self.last = next;
        match (last, next) {
            ((true, false), (false, true))
            | ((false, true), (true, false))
            | ((true, true), (true, false))
            | ((false, false), (false, true)) => Some(Direction::ACW),
            ((false, false), (true, true))
            | ((true, true), (false, false))
            | ((false, true), (false, false))
            | ((true, false), (true, true)) => Some(Direction::CW),
            _ => None,
        }
    }

    /// The key of a direction.
    pub open spec fn coord_of(self, d: Direction) -> (u8, u8) {
        match d {
            Direction::CW => self.cw_coord,
            Direction::ACW => self.acw_coord,
        }
    }

    /// Presses the key for `d` and queues its release.
    pub fn event_for(&mut self, d: Direction) -> (r: Multi<Event>)
        ensures
            r@ == seq![Event::Press(old(self).coord_of(d).0, old(self).coord_of(d).1)],
            final(self).release@ == if old(self).release@.len() < 4 {
                old(self).release@.push(
                    Event::Release(old(self).coord_of(d).0, old(self).coord_of(d).1),
                )
            } else {
                Seq::<Event>::empty()
            },
            final(self).last == old(self).last,
            final(self).cw_coord == old(self).cw_coord,
            final(self).acw_coord == old(self).acw_coord,
    {
        proof {
            old(self).release.lemma_len_bound();
        }
        match d {
            Direction::CW => {
                self.release.append(Event::Release(self.cw_coord.0, self.cw_coord.1));
                Multi::One(Event::Press(self.cw_coord.0, self.cw_coord.1))
            },
            Direction::ACW => {
                self.release.append(Event::Release(self.acw_coord.0, self.acw_coord.1));
                Multi::One(Event::Press(self.acw_coord.0, self.acw_coord.1))
            },
        }
    }

    /// Reads the lines: a turn presses its key.
    pub fn poll(&mut self, levels: (bool, bool)) -> (r: Multi<Event>)
        ensures
            final(self).last == levels,
            match turn(old(self).last, levels) {
                Some(d) => {
                    &&& r@ == seq![Event::Press(old(self).coord_of(d).0, old(self).coord_of(d).1)]
                    &&& final(self).release@ == if old(self).release@.len() < 4 {
                        old(self).release@.push(
                            Event::Release(old(self).coord_of(d).0, old(self).coord_of(d).1),
                        )
                    } else {
                        Seq::<Event>::empty()
                    }
                },
                None => r@.len() == 0 && final(self).release == old(self).release,
            },
    {
        match self.read_and_debounce(levels) {
            Some(d) => self.event_for(d),
            None => Multi::Zero,
        }
    }

    /// The releases queued since the last call.
    pub fn release(&mut self) -> (r: Multi<Event>)
        ensures
            r == old(self).release,
            final(self).release@.len() == 0,
            final(self).last == old(self).last,
    {
        let out = self.release;
        self.release = Multi::Zero;
        out
    }
}

} // verus!
