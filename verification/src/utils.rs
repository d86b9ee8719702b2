pub mod future;
