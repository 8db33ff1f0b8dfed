//! Adapter layer between a host's operator plugin interface and safe
//! capability traits implemented by plugin authors.
//!
//! The host owns the process, the call schedule and every buffer. An adapter
//! owns one plugin instance, and on each host call it marshals the inputs,
//! forwards to the plugin and marshals the answer back into host storage.
#![allow(non_snake_case)]

pub mod bundle;
pub mod chop;
pub mod cook_only;
pub mod dat;
pub mod inputs;
pub mod layout;
pub mod marshal;
pub mod op;
pub mod params;
pub mod project;
pub mod samples;
pub mod sop;
