use vstd::prelude::*;
use vstd::slice::slice_to_vec;
use vstd::utf8::encode_utf8;

verus! {

/// The guest-to-host diagnostic channel.
///
/// The host consumes each transmitted buffer synchronously and keeps no
/// reference to it afterwards, so from the guest's side the channel is
/// exactly the ordered sequence of byte buffers handed to the host import.
/// A `Channel` value records that sequence; its view is the sequence of
/// transmitted messages, oldest first.
pub struct Channel {
    sent: Vec<Vec<u8>>,
}

impl View for Channel {
    type V = Seq<Seq<u8>>;

    closed spec fn view(&self) -> Seq<Seq<u8>> {
        Seq::new(self.sent@.len(), |i: int| self.sent@[i]@)
    }
}

impl Channel {
    /// A channel over which nothing has been transmitted yet.
    pub fn new() -> (channel: Channel)
        ensures
            channel@ == Seq::<Seq<u8>>::empty(),
    {
        let channel = Channel { sent: Vec::new() };
        proof {
            assert(channel@ =~= Seq::<Seq<u8>>::empty());
        }
        channel
    }

    /// How many messages have been transmitted so far.
    pub fn message_count(&self) -> (n: usize)
        ensures
            n == self@.len(),
    {
        self.sent.len()
    }

    /// The bytes of the `i`-th transmitted message, oldest first.
    pub fn message_at(&self, i: usize) -> (message: &Vec<u8>)
        requires
            i < self@.len(),
        ensures
            message@ == self@[i as int],
    {
        &self.sent[i]
    }
}

/// Transmission primitive: hand one byte buffer to the host import.
///
/// The host receives a starting address and an element count, valid only
/// for the synchronous duration of the call; an empty buffer is a valid
/// degenerate case and still issues the call. On the channel this is one
/// transmitted message holding exactly the given bytes.
pub fn log_bytes(channel: &mut Channel, bytes: &[u8])
    ensures
        final(channel)@ == old(channel)@.push(bytes@),
{
    let owned: Vec<u8> = slice_to_vec(bytes);
    channel.sent.push(owned);
    proof {
        assert(channel@ =~= old(channel)@.push(bytes@));
    }
}

/// Text logger: transmit one UTF-8 string.
///
/// The string is converted to its raw byte encoding, with no terminator,
/// escaping or framing added, and forwarded to the transmission primitive
/// as a single message.
pub fn log(channel: &mut Channel, text: &str)
    ensures
        final(channel)@ == old(channel)@.push(encode_utf8(text@)),
{
    log_bytes(channel, text.as_bytes());
}

} // verus!
