//! Client-side core of the compute user module: the messages it sends to the
//! verifier service, the bookkeeping of submitted tasks, the collection of
//! their results, and the decisions of its keep-alive and websocket loops.

pub mod text;
pub mod output;
pub mod json;
pub mod tasks;
pub mod protocol;
pub mod user;
pub mod keep_alive;
pub mod ws_client;
pub mod script;
