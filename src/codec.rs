//! What travels on the wire: the protocol identifier offered during substream
//! negotiation and the fixed message.

use vstd::prelude::*;

verus! {

/// The identifier under which the protocol is negotiated on a substream.
pub const PROTOCOL_NAME: &'static str = "/hello/world/1.0.0";

/// Length in bytes of one message; a receiver reads exactly this many.
pub const MESSAGE_LEN: usize = 2;

/// The message: the ASCII bytes of `"hi"`, with no length prefix.
pub open spec fn hello_world_bytes() -> Seq<u8> {
    seq![0x68u8, 0x69u8]
}

/// The protocol: one identifier and one fixed message.
#[derive(Clone, Copy, Debug, Default)]
pub struct HelloWorldProtocol;

impl HelloWorldProtocol {
    /// The single identifier this protocol is offered and accepted under.
    pub fn protocol_info(&self) -> (r: &'static str)
        ensures
            r@ == PROTOCOL_NAME@,
    {
        PROTOCOL_NAME
    }
}

/// The bytes a sender writes (and then flushes) for one message.
pub fn hello_world_message() -> (r: Vec<u8>)
    ensures
        r@ == hello_world_bytes(),
        r@.len() == MESSAGE_LEN,
{
    let r = vec![0x68u8, 0x69u8];
    assert(r@ =~= hello_world_bytes());
    r
}

} // verus!
