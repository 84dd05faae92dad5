pub mod home;
pub mod views;
