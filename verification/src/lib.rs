//! An ordered, lossless bridge between an OS filesystem-notification
//! facility and a consumer-supplied event handler.
//!
//! The library holds the bridge's logic: decoding raw notification batches
//! into typed events ([`event`], [`translate`]), handing each event to the
//! consumer in order ([`deliver`]), and the start/stop lifecycle that
//! creates and tears the machinery down ([`bridge`]). The native
//! subscription, the run-loop thread and the host-language binding live
//! outside the library and drive it through these modules.

pub mod bridge;
pub mod deliver;
pub mod event;
pub mod flags;
pub mod translate;
