pub mod case;
pub mod generator;
pub mod laws;
pub mod split;
pub mod words;

pub use generator::id;
