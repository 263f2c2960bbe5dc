//! The screens of the display and the router that stacks them.
pub mod auth;
pub mod menu;
pub mod nav;
pub mod main_screen;
pub mod login;
pub mod wifi;
pub mod user;
pub mod date_time;
pub mod misc;
pub mod sprinkler;
pub mod router;
