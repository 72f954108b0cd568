//! Goertzel single-bin detection: the bookkeeping of a detection window.
//!
//! A window is a fixed number of samples. Samples arrive in chunks of any
//! size; the window may be finished only once exactly as many samples as it
//! was configured for have been fed. This crate holds that accounting, with
//! its contracts and laws.
mod window;

pub use window::{lemma_chunked_count, chunks_total, SampleWindow, WindowCountMismatch, WindowState};
