//! SMPP v5 protocol core: typed PDU values, a verified binary codec with
//! length-prefixed framing, TLV optional parameters, user-data-header parsing,
//! and the session bookkeeping (state machine, sequence allocation, pending
//! responses) that drives a connection.

pub mod borrowed;
pub mod bytes_buf;
pub mod codec;
pub mod command;
pub mod dest_address;
pub mod errors;
pub mod pdus;
pub mod server;
pub mod session;
pub mod strings;
pub mod text;
pub mod tlv;
pub mod udh;
pub mod values;

use vstd::prelude::*;

verus! {

/// Greatest total wire size of one PDU, the four length bytes included.
pub const MAX_COMMAND_LENGTH: usize = 65536;

} // verus!
