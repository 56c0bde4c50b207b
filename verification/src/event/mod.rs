pub mod decode;
pub mod fields;
pub mod reader;
pub mod socket;
pub mod socket_client;
pub mod types;
