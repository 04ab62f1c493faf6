//! A client for the SAM v3 control protocol of an I2P router.
//!
//! The library holds the protocol logic: building the command lines, reading
//! the router's replies, the session's setup steps, the forwarded-datagram
//! wire format and the derivation of `.b32.i2p` addresses. Opening sockets and
//! moving bytes is left to the caller.

pub mod address;
pub mod command;
pub mod datagram;
pub mod error;
pub mod reply;
pub mod session;
pub mod stream;
pub mod style;
pub mod text;

pub use address::{derive_address, I2P_BASE64_SYMBOLS};
pub use command::{
    naming_lookup_command, session_create_command, stream_connect_command,
    stream_forward_command, DEST_GENERATE_COMMAND, HELLO_COMMAND, TUNNEL_OPTIONS,
};
pub use datagram::DatagramMessage;
pub use error::SamError;
pub use reply::{check_reply, hello_accepted, keys_of_reply, value_of_lookup_reply};
pub use session::{
    Arrangement, ArrangementPhase, ArrangementStep, Session, SetupPhase, SetupStep,
};
pub use stream::StreamInfo;
pub use style::SessionStyle;
