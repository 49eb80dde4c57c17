//! An auction engine for chat channels: bid validation with an anti-snipe
//! window, a countdown announcement policy, and compensation for downtime.

pub mod announce;
pub mod auction;
pub mod client;
pub mod command;
pub mod config;
pub mod saving;
pub mod text;
pub mod util;

pub use auction::{Auction, Bid, BidResult, Winner};
pub use client::Response;
pub use config::{Config, ConfigFile};
pub use saving::AuctionFinished;
