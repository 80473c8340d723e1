//! A screen recorder's verified core: the real-time capture → convert →
//! encode → mux pipeline.
//!
//! Two independently clocked producers feed one container: a polled video
//! loop (display capture → planar conversion → block-based compression) and
//! a callback-driven audio stream (device buffers → 48 kHz resampling →
//! fixed 20 ms chunks → speech codec). Their packets are timestamped,
//! ordered per track, and merged into a single file, which is finalized
//! exactly once. The capture devices, the codecs' foreign interfaces and the
//! disk write live at the unverified edge; every rule they are driven by —
//! timestamp bookkeeping, packet classification, drain and shutdown order,
//! timing and stop handling — is stated and proved here.

pub mod convert;
pub mod mux;
pub mod pipeline;
pub mod sound;
pub mod vpx;
