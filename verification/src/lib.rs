//! Decoder for the binary flight log written by a CATS rocket flight
//! computer's onboard recorder.
//!
//! A log file starts with a NUL-terminated ASCII version string, followed by
//! a flat sequence of frames `[u32 LE timestamp][u32 LE tag][payload]`.
//! The tag's low four bits carry a sensor id; the remaining bits select the
//! record kind, which fixes the payload width. Decoding stops early, without
//! error, at the first unmatched selector: real files end in known trailing
//! corruption and this is the documented tolerance policy.
//!
//! Every quantity is kept as the raw integer read from the file; fields that
//! the format stores as IEEE-754 `f32` are carried as their 32-bit patterns.
//! Applying the per-field scale divisors and interpreting the bit patterns
//! is left to unverified callers.

pub mod assembler;
pub mod cursor;
pub mod datatypes;
pub mod header;
pub mod normalize;
pub mod orchestrator;
pub mod projector;
pub mod records;
