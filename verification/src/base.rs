pub mod action;
pub mod active;
pub mod area;

pub use active::Activable;
pub use area::Area;
