//! Advertises a validator's TPU addresses in gossip, following the connection
//! status that the bundle tile reports.
//!
//! While the bundle tile is connected, the node advertises the remote TPU; while
//! it is disconnected, the node advertises its own. The bundle tile reports
//! through a callback, [`state::fd_ext_tpu_update`], that may run before the
//! service is there to act on it. The library holds the state that the callback
//! and the service share, decides what each event changes in it, and hands out
//! the gossip setters to call. The caller owns the lock around that state, calls
//! the setters, and logs.
pub mod byte_order;
pub mod effects;
pub mod gossip;
pub mod laws;
pub mod net;
pub mod service;
pub mod state;
pub mod update;
