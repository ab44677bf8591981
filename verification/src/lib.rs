#![verifier::loop_isolation(false)]

pub mod auth;
pub mod poller;
pub mod routes;
pub mod storage;
pub mod telegram_api;
pub mod text;
