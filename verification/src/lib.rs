pub mod input;
pub mod point;
pub mod ratio;
pub mod rng;
pub mod scene;
pub mod space;
pub mod state;
pub mod time;

pub use point::Point2;
pub use ratio::Ratio;
pub use rng::LehmerRnd;
pub use space::galaxy::Galaxy;
pub use space::moon::Moon;
pub use space::planet::Planet;
pub use space::star::{Depth, Star};
pub use space::{Colour, SpaceObject, SpaceObjectTrait};
pub use state::State;
pub use time::Time;

use vstd::prelude::*;

verus! {

/// The width of the view in pixels.
pub const WIDTH: u32 = 800;

/// The height of the view in pixels.
pub const HEIGHT: u32 = 600;

/// The side of a sector in pixels.
pub const SECTOR_SIZE: u32 = 16;

/// The number of sectors across the view.
pub const X_SECTORS: u32 = WIDTH / SECTOR_SIZE;

/// The number of sectors down the view.
pub const Y_SECTORS: u32 = HEIGHT / SECTOR_SIZE;

} // verus!
