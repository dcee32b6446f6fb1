//! Media-cache coalescing core of a chat bot that mirrors art-hosting posts
//! into a messaging platform's CDN.

pub mod convert;
pub mod maintainer;
pub mod markdown;
pub mod media;
pub mod order;
pub mod platform;
pub mod process;
pub mod query;
pub mod repo;
pub mod service;
pub mod text;
pub mod tg;
