//! Calibration of optical time-domain reflectometer (OTDR) traces, and a
//! keyed cache that holds each decoded trace together with its calibrated
//! distance/amplitude curve.
//!
//! The decoder that turns raw file bytes into a structured trace record is an
//! external collaborator; everything downstream of it — validation, the
//! physical calibration formula, and the cache's all-or-nothing semantics —
//! is specified and verified here.

pub mod curve;
pub mod engine;
pub mod store;
pub mod trace;
