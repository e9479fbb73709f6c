//! A verified core for driving a blocking video-capture device from an
//! interactive, single-threaded user interface.
//!
//! A long-lived worker owns the device capability exclusively. The UI enqueues
//! [`connection::Request`] values through a [`connection::Connection`] handle;
//! the worker executes them against the device and emits an ordered stream of
//! [`subscription::Event`] values back to the UI, interleaving command
//! draining with frame production while streaming.
//!
//! The device itself only offers blocking calls that may fail, so the worker's
//! decisions are kept apart from the calls: every decision is a verified
//! function over plain data, and the capability is modelled by
//! [`capability::DeviceModel`], a scripted, deterministic stand-in whose
//! methods carry exact contracts. An unverified runner owns the real device
//! and mirrors the loop in [`subscription`].

pub mod capability;
pub mod connection;
pub mod control;
pub mod device;
pub mod format;
pub mod laws;
pub mod log;
pub mod subscription;
