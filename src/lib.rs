//! Name-based access to the one-time-password slots of a hardware token,
//! backed by a per-device cache of slot names, and the layered configuration
//! that governs the command line tool.
mod text;

pub mod cache;
pub mod config;
pub mod context;
pub mod scan;

pub mod algorithm;
pub mod arg_util;

pub use algorithm::{OtpAlgorithm, UnknownAlgorithm};
pub use text::text_eq;
pub use scan::{scan_replies, DeviceFault, QueryOutcome, ScanError, ScanStep, Slot, SlotScan};
pub use cache::{
    cache_file_name, compose_file_name, find_slot, plan_cache, CacheAction, NoSuchSlot, SlotCache,
};
pub use arg_util::{Args, Command, DeviceModel, UnknownVariant};
pub use config::Config;
pub use context::{Context, ContextError};
