//! The content of a room's tombstone: the room that replaces it and why.

use vstd::prelude::*;

verus! {

/// A room's tombstone: the replacement room and the message that explains it.
pub struct Tombstone {
    pub body: String,
    pub replacement_room: String,
}

impl Tombstone {
    pub fn copy(&self) -> (r: Tombstone)
        ensures
            r.body@ == self.body@,
            r.replacement_room@ == self.replacement_room@,
    {
        Tombstone { body: self.body.clone(), replacement_room: self.replacement_room.clone() }
    }
}

/// The tombstone of a room, or nothing where the room has none.
pub struct RoomTombstoneEventContent(pub Option<Tombstone>);

impl RoomTombstoneEventContent {
    /// The explaining message; empty without a tombstone.
    pub fn body(&self) -> (r: String)
        ensures
            r@ == match self.0 {
                Some(t) => t.body@,
                None => Seq::<char>::empty(),
            },
    {
        match &self.0 {
            None => String::new(),
            Some(inner) => inner.body.clone(),
        }
    }

    /// The identifier of the replacement room; empty without a tombstone.
    pub fn replacement_room(&self) -> (r: String)
        ensures
            r@ == match self.0 {
                Some(t) => t.replacement_room@,
                None => Seq::<char>::empty(),
            },
    {
        match &self.0 {
            None => String::new(),
            Some(inner) => inner.replacement_room.clone(),
        }
    }

    /// The content of a room without a tombstone.
    pub fn empty() -> (r: RoomTombstoneEventContent)
        ensures
            r.0 is None,
    {
        RoomTombstoneEventContent(None)
    }
}

} // verus!
