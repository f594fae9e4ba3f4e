//! A web page monitor: it keeps a fingerprint of each watched page, decides when a
//! page has changed, and plans the notifications that a change sends out.
pub mod config;
pub mod digest;
pub mod emails;
pub mod monitor;
pub mod notify;
pub mod urls;
