//! Gameplay logic of a first-person horror game: a kinematic character
//! controller with crouching, jumping, gravity and ground detection, and the
//! stamina and fear meters of the player.
//!
//! All quantities are fixed-point integers: lengths in micrometres, times in
//! microseconds, angles in nanoradians, meters in thousandths of a point. The
//! physics world is queried by the caller, which hands the answers (probe
//! hits, the resolver's effective translation) back to the step functions of
//! [`movement`].

pub mod components;
pub mod crouch;
pub mod fear;
pub mod input;
pub mod look;
pub mod math;
pub mod movement;
pub mod stamina;
pub mod structures;

pub use components::SphereOfTear;
pub use math::Vec3;
pub use structures::{
    PlayerCameraPivot, PlayerComponent, PlayerControllerData, PlayerInputEnabled, PlayersInput,
};
