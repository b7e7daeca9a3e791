//! Capture pipeline for a handheld console's vendor USB capture device:
//! device handshake, per-cycle vendor request, demultiplexing of one bulk
//! transfer into video and audio, pixel and sample decoding.

pub mod audio;
pub mod capture;
pub mod demux;
pub mod device;
pub mod error;
pub mod geometry;
pub mod pixel;
pub mod session;
