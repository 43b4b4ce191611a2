pub mod blink;
pub mod central;
pub mod cw2015;
pub mod display;
pub mod label;
pub mod peripheral;
pub mod power;
pub mod status;
