//! Coordinator core: the marketplace rules, registries and request
//! validation of the inference coordinator, with their contracts.

pub mod types;
pub mod protocol;
pub mod text;
pub mod text_map;
pub mod order;
pub mod codec;
pub mod auction;
pub mod clock;
pub mod registry;
pub mod payments;
pub mod completion;
pub mod receipts;
pub mod mesh;
pub mod settlement;
pub mod jobs;
pub mod ids;
pub mod admin;
pub mod onchain;
pub mod error;
pub mod inference;
pub mod models;
pub mod nodes;
pub mod config;
pub mod keys;
pub mod health;
pub mod pem;
pub mod tls;
pub mod sealed;
