pub mod button;
pub mod input;
pub mod picker;
pub mod slider;
pub mod toggle;
