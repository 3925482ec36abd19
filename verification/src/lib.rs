//! A verified core for talking to CANopen nodes.
//!
//! The crate holds the frame types of a CAN bus, the CANopen protocol messages (NMT, SYNC,
//! heartbeat, SDO, LSS) with their byte encodings, the object model metadata, and the decision
//! logic of the SDO client and NMT master.
pub mod blocking;
pub mod bus_manager;
pub mod can;
pub mod cli_values;
pub mod command;
pub mod device_config;
pub mod le_bytes;
pub mod lss_client;
pub mod lss_master;
pub mod nmt_master;
pub mod nmt_client;
pub mod node_configuration;
pub mod object_model;
pub mod objects;
pub mod protocol;
pub mod sdo_block;
pub mod sdo_client;
pub mod sdo_ops;
pub mod text;
pub mod traits;
pub mod zencandump;
