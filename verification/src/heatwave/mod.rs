pub mod devices;
pub mod prelude;
