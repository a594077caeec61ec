//! Core library for a chain-agent client: building and signing extrinsics
//! for submission to a blockchain node, decoding chain-emitted events back
//! into domain values, and the pure state machines behind the client's
//! interactive screens.

pub mod agent_assets;
pub mod app;
pub mod bytesutil;
pub mod client;
pub mod compact;
pub mod config;
pub mod events;
pub mod extrinsic;
pub mod hexcode;
pub mod moltbook;
pub mod screens;
pub mod textutil;
pub mod wallet;
