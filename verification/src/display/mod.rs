pub mod oled;
pub mod renderer;
