//! Reproducible seek-stress orchestration for a streaming video decoder.
//!
//! Every decision of a stress run (where to seek, how many frames to decode,
//! how often to flush, when to give up) is taken by verified state machines
//! here; the program around the library performs the actions they ask for
//! and reports back what happened.
pub mod decode;
pub mod harness;
pub mod ivf;
pub mod rng;
pub mod seek;
pub mod timing;
