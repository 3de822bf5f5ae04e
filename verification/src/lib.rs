//! Export of Find My accessory keys: the rules of the login, escrow and
//! CloudKit pipeline, of its HTTP API and of its log, verified with Verus.

pub mod accessory;
pub mod cli;
pub mod device;
pub mod encoding;
pub mod export;
pub mod ids;
pub mod json;
pub mod logging;
pub mod pipeline;
pub mod property_list;
pub mod records;
pub mod run_log;
pub mod server;
pub mod sessions;
pub mod text;
pub mod timestamp;
