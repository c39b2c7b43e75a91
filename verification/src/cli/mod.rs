//! The decisions of the command-line front end: which command a line
//! names, what a line of input holds, and what the user is told.
pub mod app;
pub mod handlers;
pub mod input;
