pub mod badge;
pub mod divider;
pub mod scroll;
pub mod table;
