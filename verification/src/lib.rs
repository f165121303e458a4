//! A versioned attribute and command dispatch core for a device data-model
//! node, shown on a boolean contact sensor cluster.
//!
//! The pieces are the ones every cluster shares: an immutable schema
//! descriptor ([`objects::Cluster`]), a data-version tracker with a one-shot
//! change notifier ([`dataver::Dataver`]), a typed attribute codec
//! ([`contact_sensor::Attributes`]), and the read/write/invoke dispatch of a
//! concrete cluster instance ([`contact_sensor::ContactSensorCluster`]).

pub mod codec;
pub mod contact_sensor;
pub mod dataver;
pub mod error;
pub mod objects;
