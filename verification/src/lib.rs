//! Decision logic of a network latency test between a streaming server and a headset client,
//! together with the discovery announcement, the dashboard tab that starts the test and the
//! Android queries that the client makes.
//!
//! Every procedure that talks to the outside is written as a function from what has been
//! observed to what is to be done next. The caller performs the action and hands the outcome
//! back, so each decision is a pure step with a contract.

pub mod packets;
pub mod text;
pub mod framing;
pub mod shards;
pub mod data_link;
pub mod client;
pub mod server;
pub mod announcer;
pub mod measurement;
pub mod android;
pub mod protocol;
