//! Per-neighbor sequence numbers. Each node remembers the last SeqNum used
//! with each neighbor; the value is a lollipop counter that starts at 0,
//! counts 1..255 and wraps from 255 to 1, so that a 0 seen after activity
//! reveals that the neighbor was reset.
use std::collections::HashMap;
use vstd::prelude::*;

use crate::types::NeighborID;

verus! {

broadcast use vstd::std_specs::hash::group_hash_axioms;

pub type SeqNum = u8;

pub const DEFAULT_SEQNUM: SeqNum = 0;

/// The received SeqNum does not fit the one stored for the neighbor.
#[derive(Debug, Clone, Copy, PartialEq, Eq, Structural)]
pub struct Inconsistency;

/// Table from neighbor to its stored SeqNum.
#[derive(Debug)]
pub struct SeqNums {
    values: HashMap<NeighborID, SeqNum>,
}

/// The value that follows `s` on the lollipop counter.
pub open spec fn lollipop_next(s: SeqNum) -> SeqNum {
    if s == 0xFF {
        1
    } else {
        (s + 1) as SeqNum
    }
}

/// What the check of a received SeqNum against the table concludes: the
/// SeqNum agreed for the transaction, or an inconsistency.
pub open spec fn verify_outcome(
    table: Map<NeighborID, SeqNum>,
    neighbor: NeighborID,
    received: SeqNum,
) -> Result<SeqNum, Inconsistency> {
    if !table.contains_key(neighbor) {
        Ok(received)
    } else if received == 0 {
        if table[neighbor] == 0 {
            Ok(0)
        } else {
            Err(Inconsistency)
        }
    } else if received > table[neighbor] {
        Ok(table[neighbor])
    } else {
        Err(Inconsistency)
    }
}

/// The table after a received SeqNum was checked: a neighbor seen for the
/// first time is recorded with the SeqNum it sent.
pub open spec fn after_verify(
    table: Map<NeighborID, SeqNum>,
    neighbor: NeighborID,
    received: SeqNum,
) -> Map<NeighborID, SeqNum> {
    if table.contains_key(neighbor) {
        table
    } else {
        table.insert(neighbor, received)
    }
}

/// The table after the neighbor's counter was advanced; an unknown
/// neighbor leaves it as it was.
pub open spec fn after_increment(table: Map<NeighborID, SeqNum>, neighbor: NeighborID) -> Map<
    NeighborID,
    SeqNum,
> {
    if table.contains_key(neighbor) {
        table.insert(neighbor, lollipop_next(table[neighbor]))
    } else {
        table
    }
}

/// The table after the neighbor's counter was forced back to 0.
pub open spec fn after_reset(table: Map<NeighborID, SeqNum>, neighbor: NeighborID) -> Map<
    NeighborID,
    SeqNum,
> {
    if table.contains_key(neighbor) {
        table.insert(neighbor, 0)
    } else {
        table
    }
}

impl View for SeqNums {
    type V = Map<NeighborID, SeqNum>;

    closed spec fn view(&self) -> Map<NeighborID, SeqNum> {
        self.values@
    }
}

impl Default for SeqNums {
    fn default() -> (r: SeqNums)
        ensures
            r@ == Map::<NeighborID, SeqNum>::empty(),
    {
        SeqNums { values: HashMap::new() }
    }
}

impl SeqNums {
    pub fn new() -> (r: SeqNums)
        ensures
            r@ == Map::<NeighborID, SeqNum>::empty(),
    {
        SeqNums::default()
    }

    /// Returns the stored SeqNum of `neighbor`, recording it with
    /// `DEFAULT_SEQNUM` first if it is unknown.
    pub fn guaranteed_get_seqnum(&mut self, neighbor: NeighborID) -> (r: SeqNum)
        ensures
            old(self)@.contains_key(neighbor) ==> r == old(self)@[neighbor] && final(self)@ == old(
                self,
            )@,
            !old(self)@.contains_key(neighbor) ==> r == DEFAULT_SEQNUM && final(self)@ == old(
                self,
            )@.insert(neighbor, DEFAULT_SEQNUM),
    {
        match self.values.get(&neighbor) {
            None => {
                self.add_neighbor(neighbor, DEFAULT_SEQNUM);
                DEFAULT_SEQNUM
            },
            Some(seqnum) => *seqnum,
        }
    }

    /// Checks the SeqNum received from `neighbor` against the stored one.
    ///
    /// A neighbor seen for the first time is recorded with `seqnum` and
    /// accepted. A received 0 is accepted only while the stored value is 0
    /// too; otherwise the neighbor was reset and this node was not. A
    /// nonzero SeqNum greater than the stored one is accepted and the stored
    /// one is returned. Anything else is an inconsistency.
    pub fn update_seqnum(&mut self, neighbor: NeighborID, seqnum: SeqNum) -> (r: Result<
        SeqNum,
        Inconsistency,
    >)
        ensures
            r == verify_outcome(old(self)@, neighbor, seqnum),
            final(self)@ == after_verify(old(self)@, neighbor, seqnum),
    {
        match self.values.get(&neighbor) {
            Some(known) => {
                let known_seqnum: SeqNum = *known;
                if seqnum == 0 {
                    if known_seqnum == 0 {
                        Ok(seqnum)
                    } else {
                        Err(Inconsistency)
                    }
                } else if seqnum > known_seqnum {
                    Ok(known_seqnum)
                } else {
                    Err(Inconsistency)
                }
            },
            None => {
                self.add_neighbor(neighbor, seqnum);
                Ok(seqnum)
            },
        }
    }

    /// Records `seqnum` as the stored value of `neighbor`.
    pub fn add_neighbor(&mut self, neighbor: NeighborID, seqnum: SeqNum)
        ensures
            final(self)@ == old(self)@.insert(neighbor, seqnum),
    {
        self.values.insert(neighbor, seqnum);
    }

    pub fn get_seqnum(&mut self, neighbor: NeighborID) -> (r: Option<&SeqNum>)
        ensures
            final(self)@ == old(self)@,
            match r {
                Some(s) => old(self)@.contains_key(neighbor) && *s == old(self)@[neighbor],
                None => !old(self)@.contains_key(neighbor),
            },
    {
        self.values.get(&neighbor)
    }

    /// Forces the stored value of a known neighbor to 0.
    pub fn reset_seqnum(&mut self, neighbor: NeighborID)
        ensures
            final(self)@ == after_reset(old(self)@, neighbor),
    {
        if self.values.contains_key(&neighbor) {
            self.values.insert(neighbor, 0);
        }
    }

    /// Advances the stored value of a known neighbor on the lollipop
    /// counter: 255 is followed by 1, never by 0. An unknown neighbor is
    /// left unknown.
    pub fn increment_seqnum(&mut self, neighbor: NeighborID)
        ensures
            final(self)@ == after_increment(old(self)@, neighbor),
    {
        match self.values.get(&neighbor) {
            Some(s) => {
                let current: SeqNum = *s;
                let next: SeqNum = if current == 0xFF {
                    1
                } else {
                    current + 1
                };
                self.values.insert(neighbor, next);
            },
            None => {},
        }
    }
}

/// Lollipop wraparound: advancing a known neighbor never stores 0, and a
/// stored 255 is followed by 1.
pub proof fn lemma_increment_skips_zero(table: Map<NeighborID, SeqNum>, neighbor: NeighborID)
    requires
        table.contains_key(neighbor),
    ensures
        after_increment(table, neighbor).contains_key(neighbor),
        after_increment(table, neighbor)[neighbor] != 0,
        table[neighbor] == 255 ==> after_increment(table, neighbor)[neighbor] == 1,
{
}

/// First contact: a neighbor never seen before that sends SeqNum 0 is
/// accepted, and 0 is recorded for it.
pub proof fn lemma_first_contact_accepted(table: Map<NeighborID, SeqNum>, neighbor: NeighborID)
    requires
        !table.contains_key(neighbor),
    ensures
        verify_outcome(table, neighbor, 0) == Ok::<SeqNum, Inconsistency>(0),
        after_verify(table, neighbor, 0) == table.insert(neighbor, 0),
{
}

/// Reset detection: SeqNum 0 from a neighbor whose stored SeqNum is not 0
/// is an inconsistency, and the table is left as it was.
pub proof fn lemma_reset_detected(table: Map<NeighborID, SeqNum>, neighbor: NeighborID)
    requires
        table.contains_key(neighbor),
        table[neighbor] != 0,
    ensures
        verify_outcome(table, neighbor, 0) == Err::<SeqNum, Inconsistency>(Inconsistency),
        after_verify(table, neighbor, 0) == table,
{
}

} // verus!
