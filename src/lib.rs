//! Authority layer of a graphical login and session manager: the
//! configuration record and its file, the startup-mode decision, reloads of
//! a changed configuration, credential and second-factor checks, and the
//! supervision of one session process.
pub mod config;
pub mod layout;
pub mod service;
pub mod session;
pub mod text;
pub mod theme;
pub mod unidata;
pub mod user;
