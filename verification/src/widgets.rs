pub mod button;
pub mod switch;
