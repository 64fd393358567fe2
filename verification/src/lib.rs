//! The decisions of a FUSE session: mount options, the kernel handshake, the channel that
//! carries requests and replies, and the ownership of everything a mounted session holds.
//!
//! System calls, native libraries and threads stay outside. A function that depends on one
//! takes what the call returned and says what is to be done next, or takes the call itself as a
//! closure. Where systems differ, a function is told which one it decides for.

pub mod text;
pub mod errno;
pub mod error;
pub mod target;
pub mod time;
pub mod acl;
pub mod mount_options;
pub mod option_laws;
pub mod init_flags;
pub mod fuse_args;
pub mod darwin;
pub mod fuse2;
pub mod fuse3;
pub mod mount;
pub mod channel;
pub mod handshake;
pub mod session;
pub mod run;
pub mod dispatch;
pub mod background;
pub mod owner;
