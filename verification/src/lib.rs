pub mod config;
pub mod engine;
pub mod history;
pub mod queues;
pub mod rates;
