//! The stored documents: accounts, rooms and messages.

use crate::object_id::ObjectId;
use vstd::prelude::*;

verus! {

/// An account.
#[derive(Clone, Debug)]
pub struct User {
    pub id: ObjectId,
    pub name: String,
    pub email: String,
    /// The digest of the password, never the password.
    pub password: String,
}

/// A room, with its owner and those who take part in it.
#[derive(Clone, Debug)]
pub struct Room {
    pub id: ObjectId,
    pub name: String,
    pub owner: ObjectId,
    pub participants: Vec<ObjectId>,
}

/// Whom a message is for.
#[derive(Clone, Copy, Debug, PartialEq, Eq)]
pub enum Recipient {
    /// Everyone in a room.
    Room(ObjectId),
    /// One user.
    User(ObjectId),
}

/// A message, to a room or to a user.
#[derive(Clone, Debug)]
pub struct Message {
    pub id: ObjectId,
    pub sender_id: ObjectId,
    pub receiver_id: Option<ObjectId>,
    pub room_id: Option<ObjectId>,
    pub content: String,
    /// Milliseconds since the epoch.
    pub timestamp: i64,
}

/// `s` without any occurrence of `x`, the rest in its order.
pub open spec fn without(s: Seq<ObjectId>, x: ObjectId) -> Seq<ObjectId>
    decreases s.len(),
{
    if s.len() == 0 {
        s
    } else if s.last() == x {
        without(s.drop_last(), x)
    } else {
        without(s.drop_last(), x).push(s.last())
    }
}

/// `without(s, x)` holds `y` exactly where `s` holds it and it is not `x`.
pub proof fn lemma_without_holds(s: Seq<ObjectId>, x: ObjectId, y: ObjectId)
    ensures
        without(s, x).contains(y) <==> s.contains(y) && y != x,
    decreases s.len(),
{
    if s.len() > 0 {
        let front = s.drop_last();
        let rest = without(front, x);
        lemma_without_holds(front, x, y);
        if front.contains(y) {
            let i = choose|i: int| 0 <= i < front.len() && front[i] == y;
            assert(s[i] == y);
        }
        if s.contains(y) {
            let i = choose|i: int| 0 <= i < s.len() && s[i] == y;
            if i < front.len() {
                assert(front[i] == y);
            } else {
                assert(s.last() == y);
            }
        }
        if s.last() != x {
            let out = rest.push(s.last());
            assert(out[out.len() - 1] == s.last());
            assert(s[s.len() - 1] == s.last());
            if rest.contains(y) {
                let k = choose|k: int| 0 <= k < rest.len() && rest[k] == y;
                assert(out[k] == y);
            }
            if out.contains(y) {
                let k = choose|k: int| 0 <= k < out.len() && out[k] == y;
                if k < rest.len() {
                    assert(rest[k] == y);
                }
            }
        }
    }
}

/// `without(s, x)` holds what `s` holds but `x`, lists nothing twice that `s`
/// lists once, and is `s` where `s` does not hold `x`.
pub proof fn lemma_without(s: Seq<ObjectId>, x: ObjectId)
    ensures
        forall|y: ObjectId| #[trigger] without(s, x).contains(y) <==> s.contains(y) && y != x,
        s.no_duplicates() ==> without(s, x).no_duplicates(),
        !s.contains(x) ==> without(s, x) == s,
    decreases s.len(),
{
    assert forall|y: ObjectId| #[trigger] without(s, x).contains(y) <==> s.contains(y) && y
        != x by {
        lemma_without_holds(s, x, y);
    }
    if s.len() > 0 {
        let front = s.drop_last();
        let rest = without(front, x);
        lemma_without(front, x);
        lemma_without_holds(front, x, s.last());
        assert(s =~= front.push(s.last()));
        if s.no_duplicates() {
            assert(front.no_duplicates());
            if s.last() != x {
                if front.contains(s.last()) {
                    let i = choose|i: int| 0 <= i < front.len() && front[i] == s.last();
                    assert(s[i] == s[s.len() - 1]);
                }
                assert(!rest.contains(s.last()));
                assert(rest.push(s.last()).no_duplicates());
            }
        }
        if !s.contains(x) {
            if front.contains(x) {
                let i = choose|i: int| 0 <= i < front.len() && front[i] == x;
                assert(s[i] == x);
            }
            assert(s[s.len() - 1] == s.last());
        }
    }
}

impl Room {
    /// Those who take part in the room, as a set.
    pub open spec fn members(self) -> Set<ObjectId> {
        self.participants@.to_set()
    }

    /// A room is well formed when its owner takes part in it and nobody is
    /// listed twice. The store does not see to this: a room that was read from
    /// it may not be well formed.
    pub open spec fn well_formed(self) -> bool {
        self.participants@.contains(self.owner) && self.participants@.no_duplicates()
    }

    /// A new room: its owner is the one who takes part in it.
    pub fn new(id: ObjectId, name: String, owner: ObjectId) -> (room: Room)
        ensures
            room.id == id,
            room.name@ == name@,
            room.owner == owner,
            room.participants@ == seq![owner],
            room.well_formed(),
    {
        let mut participants: Vec<ObjectId> = Vec::new();
        participants.push(owner);
        assert(participants@ =~= seq![owner]);
        assert(participants@[0] == owner);
        Room { id, name, owner, participants }
    }

    /// Whether `user` takes part in the room.
    pub fn has_participant(&self, user: ObjectId) -> (found: bool)
        ensures
            found == self.participants@.contains(user),
    {
        let mut i: usize = 0;
        while i < self.participants.len()
            invariant
                i <= self.participants.len(),
                forall|j: int| 0 <= j < i ==> self.participants@[j] != user,
            decreases self.participants.len() - i,
        {
            if self.participants[i] == user {
                return true;
            }
            i = i + 1;
        }
        false
    }

    /// Lets `user` take part in the room. Where `user` does so already,
    /// nothing changes.
    pub fn add_participant(&mut self, user: ObjectId)
        ensures
            final(self).id == old(self).id,
            final(self).name == old(self).name,
            final(self).owner == old(self).owner,
            final(self).participants@ == if old(self).participants@.contains(user) {
                old(self).participants@
            } else {
                old(self).participants@.push(user)
            },
            final(self).members() == old(self).members().insert(user),
            old(self).well_formed() ==> final(self).well_formed(),
    {
        let ghost before = self.participants@;
        if !self.has_participant(user) {
            self.participants.push(user);
            proof {
                let after = self.participants@;
                assert forall|y: ObjectId| after.contains(y) <==> before.contains(y) || y == user by {
                    if before.contains(y) {
                        let i = choose|i: int| 0 <= i < before.len() && before[i] == y;
                        assert(after[i] == y);
                    }
                    if y == user {
                        assert(after[after.len() - 1] == y);
                    }
                }
                assert(after.to_set() =~= before.to_set().insert(user));
            }
        } else {
            assert(before.to_set() =~= before.to_set().insert(user));
        }
    }

    /// Ends the part that `user` takes in the room, however often `user` is
    /// listed.
    pub fn remove_participant(&mut self, user: ObjectId)
        ensures
            final(self).id == old(self).id,
            final(self).name == old(self).name,
            final(self).owner == old(self).owner,
            final(self).participants@ == without(old(self).participants@, user),
            final(self).members() == old(self).members().remove(user),
            old(self).participants@.no_duplicates() ==> final(self).participants@.no_duplicates(),
    {
        let ghost before = self.participants@;
        let mut kept: Vec<ObjectId> = Vec::new();
        let mut i: usize = 0;
        while i < self.participants.len()
            invariant
                i <= self.participants.len(),
                self.participants@ == before,
                kept@ == without(before.take(i as int), user),
            decreases self.participants.len() - i,
        {
            let p = self.participants[i];
            proof {
                assert(before.take(i + 1).drop_last() =~= before.take(i as int));
                assert(before.take(i + 1).last() == p);
            }
            if !(p == user) {
                kept.push(p);
            }
            i = i + 1;
        }
        proof {
            assert(before.take(i as int) =~= before);
            lemma_without(before, user);
            assert(kept@.to_set() =~= before.to_set().remove(user));
        }
        self.participants = kept;
    }
}

impl Message {
    /// A message is well formed when it is for a room or for a user, and not
    /// for both.
    pub open spec fn well_formed(self) -> bool {
        self.room_id is Some != self.receiver_id is Some
    }

    /// Whom the message is for.
    pub open spec fn addressed_to(self) -> Option<Recipient> {
        match (self.room_id, self.receiver_id) {
            (Some(room), None) => Some(Recipient::Room(room)),
            (None, Some(user)) => Some(Recipient::User(user)),
            _ => None,
        }
    }

    /// A message from `sender_id` for `recipient`.
    pub fn new(
        id: ObjectId,
        sender_id: ObjectId,
        recipient: Recipient,
        content: String,
        timestamp: i64,
    ) -> (message: Message)
        ensures
            message.id == id,
            message.sender_id == sender_id,
            message.content@ == content@,
            message.timestamp == timestamp,
            message.addressed_to() == Some(recipient),
            message.well_formed(),
    {
        match recipient {
            Recipient::Room(room) => Message {
                id,
                sender_id,
                receiver_id: None,
                room_id: Some(room),
                content,
                timestamp,
            },
            Recipient::User(user) => Message {
                id,
                sender_id,
                receiver_id: Some(user),
                room_id: None,
                content,
                timestamp,
            },
        }
    }

    /// Whom the message is for; `None` for a message that is not well formed.
    pub fn recipient(&self) -> (recipient: Option<Recipient>)
        ensures
            recipient == self.addressed_to(),
    {
        match (self.room_id, self.receiver_id) {
            (Some(room), None) => Some(Recipient::Room(room)),
            (None, Some(user)) => Some(Recipient::User(user)),
            _ => None,
        }
    }
}

} // verus!
