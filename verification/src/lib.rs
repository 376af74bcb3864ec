//! Verified core of the leafcast Raspberry Pi camera client.
use vstd::prelude::*;

pub mod cron;
pub mod env_map;
pub mod text;
pub mod zone;
pub mod app_env;
pub mod camera;
pub mod parse_cli;
pub mod systemd;
pub mod sysinfo;
pub mod word_art;
pub mod ws;
pub mod ws_messages;

verus! {

} // verus!
