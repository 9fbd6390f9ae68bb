//! A population of creatures on a tile grid: the grid itself, the layer
//! shapes that every creature's feedforward network obeys, and the state
//! machine that a creature's physiology drives from tick to tick.

pub mod creature;
pub mod map;
pub mod topology;
