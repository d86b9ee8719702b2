pub mod filter_map;
pub mod map;
pub mod on_key;

pub use on_key::OnKey;
