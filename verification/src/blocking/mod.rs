//! Clients that talk to the bus through a blocking sender and receiver.
pub mod nmt_master;

pub use crate::sdo_client::SdoClient;
