//! The camera, which follows the player.

use vstd::prelude::*;
use crate::player::Player;
use crate::transform::Position;

verus! {

/// The camera: the place the view is centred on.
#[derive(Clone, Copy, Debug, PartialEq, Eq, Structural)]
pub struct CameraMaker {
    pub position: Position,
}

/// Centres the camera on the player. Without a player it stays where it is.
pub fn update_camera(player: &Option<Player>, camera: &mut CameraMaker)
    ensures
        final(camera).position == match *player {
            Some(p) => p.position,
            None => old(camera).position,
        },
{
    if let Some(p) = *player {
        camera.position = p.position;
    }
}

} // verus!
