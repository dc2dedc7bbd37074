
pub mod boards;
pub mod catalog;
pub mod grid;
pub mod nonempty;
pub mod occupancy;
pub mod render;
pub mod search;
pub mod solve;
