//! A live-video pipeline library: an FLV tag codec, a multi-source FIFO
//! mixer that rewrites timestamps onto one monotonic output timeline, and
//! the decision core of an RTMP publishing-session server.

pub mod cutup;
pub mod errors;
pub mod flv;
pub mod mixer;
pub mod rtmp;
pub mod show;
