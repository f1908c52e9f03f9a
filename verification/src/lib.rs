//! State model of a three-level project board: a board of groups, each group a
//! list of tasks, each task a list of subitems.

pub mod board;
pub mod event;
pub mod group;
pub mod naming;
pub mod palette;
pub mod subitem;
