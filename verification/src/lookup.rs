//! What is asked of the system's message table.
//!
//! The call itself is made by the caller of this crate. Here stand the values
//! that it is made with, and the buffer that the answer is written to.

use vstd::prelude::*;

verus! {

/// Insert markers in the message are left as they are.
pub const FORMAT_MESSAGE_IGNORE_INSERTS: u32 = 0x0000_0200;

/// The message is looked up in the system's own message table.
pub const FORMAT_MESSAGE_FROM_SYSTEM: u32 = 0x0000_1000;

/// Extra arguments, if there were any, would be an array of values.
pub const FORMAT_MESSAGE_ARGUMENT_ARRAY: u32 = 0x0000_2000;

/// The flags of every lookup: the three above together.
pub const LOOKUP_FLAGS: u32 = 0x0000_3200;

/// The language of every lookup: none is asked for, the system picks.
pub const NEUTRAL_LANGUAGE: u32 = 0;

/// The number of UTF-16 code units that the message buffer holds.
pub const BUFFER_CAPACITY: usize = 256;

/// The arguments of one lookup in the system's message table.
#[derive(Debug, Clone, Copy, PartialEq, Eq, Structural)]
pub struct MessageRequest {
    /// How the message is found and formatted.
    pub flags: u32,
    /// The error code whose message is wanted.
    pub message_id: u32,
    /// The language wanted, zero for the system's choice.
    pub language_id: u32,
    /// The size of the buffer that is offered, in code units.
    pub capacity: u32,
}

/// The lookup flags are exactly the three flags that a system message needs.
pub proof fn lemma_lookup_flags()
    ensures
        LOOKUP_FLAGS == FORMAT_MESSAGE_IGNORE_INSERTS | FORMAT_MESSAGE_FROM_SYSTEM
            | FORMAT_MESSAGE_ARGUMENT_ARRAY,
{
    assert(0x3200u32 == 0x200u32 | 0x1000u32 | 0x2000u32) by (bit_vector);
}

/// The request that resolves `errno`.
pub fn message_request(errno: u32) -> (request: MessageRequest)
    ensures
        request == (MessageRequest {
            flags: LOOKUP_FLAGS,
            message_id: errno,
            language_id: NEUTRAL_LANGUAGE,
            capacity: 256,
        }),
{
    proof {
        lemma_lookup_flags();
    }
    MessageRequest {
        flags: FORMAT_MESSAGE_IGNORE_INSERTS | FORMAT_MESSAGE_FROM_SYSTEM
            | FORMAT_MESSAGE_ARGUMENT_ARRAY,
        message_id: errno,
        language_id: NEUTRAL_LANGUAGE,
        capacity: 256,
    }
}

/// A fresh message buffer: `BUFFER_CAPACITY` code units, all zero.
pub fn message_buffer() -> (buffer: Vec<u16>)
    ensures
        buffer@ == Seq::new(BUFFER_CAPACITY as nat, |i: int| 0u16),
{
    let mut buffer: Vec<u16> = Vec::with_capacity(BUFFER_CAPACITY);
    let mut filled: usize = 0;
    while filled < BUFFER_CAPACITY
        invariant
            filled <= BUFFER_CAPACITY,
            buffer@ == Seq::new(filled as nat, |i: int| 0u16),
        decreases BUFFER_CAPACITY - filled,
    {
        buffer.push(0);
        filled += 1;
        assert(buffer@ =~= Seq::new(filled as nat, |i: int| 0u16));
    }
    buffer
}

} // verus!
