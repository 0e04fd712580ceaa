//! Verified core of a terminal tunnel manager: configuration model, command
//! construction, connection state machine, session bookkeeping and the
//! application's update logic.

pub mod app;
pub mod command;
pub mod demo;
pub mod form;
pub mod idmap;
pub mod keys;
pub mod model;
pub mod output;
pub mod screen;
pub mod pid;
pub mod session;
pub mod state;
pub mod supervisor;
pub mod text;
pub mod ui;
