pub mod action;
pub mod position;
pub mod reposition;

pub use position::ScrollPosition;
pub use action::{scroll_horizontal, scroll_vertical, scroll_vertical_anchored, ScrollAction};
pub use reposition::{repos_x, repos_y, repos_y_anchored};
