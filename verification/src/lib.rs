pub mod backup;
pub mod config;
pub mod console;
pub mod downloader;
pub mod error;
pub mod hashing;
pub mod messages;
pub mod modding;
pub mod models;
pub mod numbers;
pub mod pinger;
pub mod process;
pub mod session;
pub mod settings;
pub mod sync;
pub mod text;
pub mod varint;
pub mod zerotier;
