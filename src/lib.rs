//! Realtime ("comet") client for the Plurk microblogging service: channel
//! negotiation, wire-frame parsing, event decoding and the poll-loop state
//! machine, with the credentials, timeline decoding and small text helpers
//! around them.

pub mod error;
pub mod utils;
pub mod json;
pub mod time;
pub mod urls;
pub mod frame;
pub mod content;
pub mod comet;
pub mod poll_loop;
pub mod plurk;
pub mod timeline;
