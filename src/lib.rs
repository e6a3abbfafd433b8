//! Decision core of a small life simulation: agents on a tile world keep three
//! decaying needs, perceive the terrain around them, remember their tasks and
//! choose each tick between exploring and exploiting.
//!
//! The library holds no floating point: needs are counted in hundredths of a
//! point, continuous positions in thousandths of a world unit, and trade-off
//! weights in units of 2^-24.

pub mod positioning;
pub mod tilemap;
pub mod random;
pub mod needs;
pub mod task;
pub mod agent_view;
pub mod text;
pub mod tradeoff;
pub mod agent;
