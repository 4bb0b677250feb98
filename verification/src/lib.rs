//! Safe removal of removable storage volumes: the decisions of the eject
//! subsystem, verified, with every operating-system call left to the caller.

pub mod classify;
pub mod coordinator;
pub mod dismount;
pub mod display;
pub mod drive;
pub mod failure;
pub mod hardware;
pub mod message;
pub mod occupant;
pub mod relay;
pub mod session;
pub mod smart;
pub mod state;
pub mod sweep;
pub mod tally;
pub mod text;
pub mod volume;
pub mod worker;
