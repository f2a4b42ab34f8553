pub mod controller;
pub mod memcard;
pub mod port;

pub use port::PeripheralPort;
