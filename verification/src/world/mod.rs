//! The world: the hub that knows the answer channel of every logged-in player.
pub mod message;

use crate::player::Player;
use crate::world::message::PlayerToWorld;
use std::collections::BTreeMap;
use vstd::prelude::*;

verus! {

broadcast use vstd::std_specs::btree::group_btree_axioms, vstd::laws_cmp::group_laws_cmp;

/// The answer channels of the logged-in players, by player id.
pub struct Registry<S> {
    senders: BTreeMap<u32, S>,
}

/// What the world does with a message: whether it keeps running, and the
/// channels afterwards. A login registers the player's channel (replacing an
/// earlier one with the same id), a logout removes it, and a closed world
/// channel (no message) stops the world.
pub open spec fn after_message<S>(senders: Map<u32, S>, msg: Option<PlayerToWorld<S>>) -> (bool, Map<
    u32,
    S,
>) {
    match msg {
        Some(PlayerToWorld::Login(player, sender)) => (true, senders.insert(player.id, sender)),
        Some(PlayerToWorld::Logout(player)) => (true, senders.remove(player.id)),
        None => (false, senders),
    }
}

/// A logged-in player can be reached through the channel it logged in with,
/// and after it logs out it can no longer be reached; the other players are
/// not affected by either.
pub proof fn lemma_login_logout<S>(senders: Map<u32, S>, player: Player, sender: S, other: u32)
    requires
        other != player.id,
    ensures
        ({
            let (running, after_login) = after_message(
                senders,
                Some(PlayerToWorld::Login(player, sender)),
            );
            &&& running
            &&& after_login.contains_key(player.id)
            &&& after_login[player.id] == sender
            &&& after_login.contains_key(other) == senders.contains_key(other)
            &&& senders.contains_key(other) ==> after_login[other] == senders[other]
            &&& ({
                let (still_running, after_logout) = after_message(
                    after_login,
                    Some(PlayerToWorld::Logout(player)),
                );
                &&& still_running
                &&& !after_logout.contains_key(player.id)
                &&& after_logout.contains_key(other) == senders.contains_key(other)
                &&& senders.contains_key(other) ==> after_logout[other] == senders[other]
            })
        }),
{
}

impl<S> Registry<S> {
    /// The registered channels by player id.
    pub closed spec fn channels(&self) -> Map<u32, S> {
        self.senders@
    }

    /// A registry without players.
    pub fn new() -> (r: Self)
        ensures
            r.channels() == Map::<u32, S>::empty(),
    {
        Registry { senders: BTreeMap::new() }
    }

    /// Handles one message received by the world (`None` when its channel is
    /// closed); returns whether the world keeps running.
    pub fn handle_message(&mut self, msg: Option<PlayerToWorld<S>>) -> (running: bool)
        ensures
            (running, final(self).channels()) == after_message(old(self).channels(), msg),
    {
        match msg {
            Some(PlayerToWorld::Login(player, sender)) => {
                self.senders.insert(player.id, sender);
                true
            },
            Some(PlayerToWorld::Logout(player)) => {
                self.senders.remove(&player.id);
                true
            },
            None => false,
        }
    }

    /// The channel of a logged-in player.
    pub fn sender(&self, id: u32) -> (r: Option<&S>)
        ensures
            match r {
                Some(s) => self.channels().contains_key(id) && self.channels()[id] == *s,
                None => !self.channels().contains_key(id),
            },
    {
        self.senders.get(&id)
    }

    /// The number of logged-in players.
    pub fn len(&self) -> (r: usize)
        ensures
            r == self.channels().len(),
    {
        self.senders.len()
    }
}

} // verus!
