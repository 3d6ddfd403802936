//! Messages between the connections and the world.
use crate::player::Player;
use vstd::prelude::*;

verus! {

/// A message from a connection to the world; `S` is the channel on which the
/// world answers the player.
#[derive(Clone, Debug)]
pub enum PlayerToWorld<S> {
    Login(Player, S),
    Logout(Player),
}

} // verus!
