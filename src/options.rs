//! What a request to create a room asks for.

use vstd::prelude::*;

verus! {

/// Whether a new room is listed in the server's public directory.
#[derive(PartialEq, Eq, Structural, Clone, Copy, Debug)]
pub enum Visibility {
    Public,
    Private,
}

/// The settings of a room to be created.
pub struct RoomCreateOptions {
    /// Account identifiers of the users to invite.
    pub invite: Vec<String>,
    pub name: Option<String>,
    /// Local part of the room's alias.
    pub room_alias_name: Option<String>,
    pub topic: Option<String>,
    pub visibility: Visibility,
}

/// A private room with no name, alias, topic or invitations.
pub fn room_create_options_new() -> (r: Box<RoomCreateOptions>)
    ensures
        r.invite@.len() == 0,
        r.name is None,
        r.room_alias_name is None,
        r.topic is None,
        r.visibility == Visibility::Private,
{
    Box::new(
        RoomCreateOptions {
            invite: Vec::new(),
            name: None,
            room_alias_name: None,
            topic: None,
            visibility: Visibility::Private,
        },
    )
}

impl RoomCreateOptions {
    /// Replaces the list of users to invite.
    pub fn set_invite(&mut self, users: Vec<String>)
        ensures
            final(self).invite@ == users@,
            final(self).name == old(self).name,
            final(self).room_alias_name == old(self).room_alias_name,
            final(self).topic == old(self).topic,
            final(self).visibility == old(self).visibility,
    {
        self.invite = users;
    }

    pub fn set_name(&mut self, name: String)
        ensures
            final(self).name == Some(name),
            final(self).invite == old(self).invite,
            final(self).room_alias_name == old(self).room_alias_name,
            final(self).topic == old(self).topic,
            final(self).visibility == old(self).visibility,
    {
        self.name = Some(name);
    }

    pub fn set_room_alias(&mut self, alias: String)
        ensures
            final(self).room_alias_name == Some(alias),
            final(self).invite == old(self).invite,
            final(self).name == old(self).name,
            final(self).topic == old(self).topic,
            final(self).visibility == old(self).visibility,
    {
        self.room_alias_name = Some(alias);
    }

    pub fn set_topic(&mut self, topic: String)
        ensures
            final(self).topic == Some(topic),
            final(self).invite == old(self).invite,
            final(self).name == old(self).name,
            final(self).room_alias_name == old(self).room_alias_name,
            final(self).visibility == old(self).visibility,
    {
        self.topic = Some(topic);
    }

    /// Lists the room publicly, or keeps it private.
    pub fn set_visibility_public(&mut self, visibility_public: bool)
        ensures
            final(self).visibility == (if visibility_public {
                Visibility::Public
            } else {
                Visibility::Private
            }),
            final(self).invite == old(self).invite,
            final(self).name == old(self).name,
            final(self).room_alias_name == old(self).room_alias_name,
            final(self).topic == old(self).topic,
    {
        self.visibility = if visibility_public {
            Visibility::Public
        } else {
            Visibility::Private
        };
    }
}

} // verus!
