//! A codec for the Art-Net lighting-control protocol: decodes received
//! datagrams into typed messages and encodes the discovery reply.

pub mod message;
pub mod poll_reply;
pub mod wire;

pub use message::{
    from_slice, parse_port_address, put_esta_manufacturer_code, Art, Command, Dmx, ESTAManufacturerCode,
    Error, Poll, PortAddress, PORT,
};
pub use poll_reply::PollReply;
pub use wire::put_padded_str;
