//! A real-time target-tracking pipeline for a robot vision coprocessor.
//!
//! Camera frames are segmented into candidate objects, the candidates are
//! narrowed by a configured chain of filters, the largest survivors are
//! selected and aggregated into a single tracking point, and that point is
//! normalized into device coordinates for the robot.  The decision core —
//! filtering, selection, aggregation, normalization, and the per-frame
//! emission policy — works on plain integer and rational values and is
//! verified here; frame capture, image processing, and network delivery
//! live at the edge of the process and hand this crate plain values.

pub mod config;
pub mod filter_chain;
pub mod geometry;
pub mod modules;
pub mod orchestrator;
pub mod selection;
pub mod tracking;
