//! Decision logic of a P25 trunking receiver: the receiver's hop policy and
//! talkgroup selection, and the event hub's routing, state and subscriber
//! bookkeeping. Everything here works on plain values; sockets, the tuner
//! and the decoder live with the caller.

pub mod channels;
pub mod event;
pub mod http;
pub mod hub;
pub mod hub_runs;
pub mod policy;
pub mod recv;
pub mod recv_runs;
pub mod replay;
pub mod subscribers;
pub mod talkgroups;
pub mod token;
