pub mod ram;
pub mod bios;
pub mod cache;
pub mod control;
pub mod dma;
pub mod map;
