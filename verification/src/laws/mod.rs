//! What the operations of the library are for, stated of their inputs and results.

pub mod commanding;
pub mod counting;
pub mod helping;
pub mod joining;
pub mod locating;
pub mod media_flow;
pub mod planning;
pub mod properties;
pub mod publishing;
pub mod scene;
pub mod subscribing;
pub mod wording;
