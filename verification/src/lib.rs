//! Verified core rules of the Gem wallet: settings screens, node and rewards
//! sessions, transaction scans, config caching, price selection, rewards and
//! abuse checks.

pub mod assets;
pub mod cache;
pub mod chain_settings;
pub mod common;
pub mod config;
pub mod currency;
pub mod database;
pub mod detections;
pub mod error;
pub mod fiat;
pub mod list;
pub mod nft;
pub mod node;
pub mod prices;
pub mod rewards;
pub mod rewards_session;
pub mod risk;
pub mod scan;
pub mod settings;
pub mod text;
pub mod time;
