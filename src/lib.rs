//! A raw-mode serial link: the terminal attribute transformation that turns a
//! line-oriented, echoing terminal into a byte pipe, and the decisions of the
//! link's lifecycle (open, configure, write, release), with the operating
//! system calls left to the caller.

pub mod attrs;
pub mod link;
pub mod peripheral;
