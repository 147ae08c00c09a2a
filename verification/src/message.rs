//! The message codec: the two-valued command and its single-byte wire form.

use vstd::prelude::*;

verus! {

/// The two-valued command exchanged as a request and echoed back as the
/// response. `Hello` asks for a plain echo; `Shutdown` additionally asks the
/// server to stop serving once the response has been delivered.
#[derive(Clone, Copy, Debug, PartialEq, Eq, Structural)]
pub enum Message {
    Hello,
    Shutdown,
}

/// A protocol-level failure: the body is not a valid wire token, or the body
/// exceeds the configured maximum size. Both are recoverable by the caller;
/// neither ever aborts the process.
#[derive(Clone, Copy, Debug, PartialEq, Eq, Structural)]
pub enum ProtocolError {
    InvalidMessage,
    OversizedBody,
}

/// The single distinguishing wire byte of each variant: the ASCII digit `0`
/// for `Hello` and the ASCII digit `1` for `Shutdown`.
pub open spec fn wire_byte(m: Message) -> u8 {
    match m {
        Message::Hello => 48u8,
        Message::Shutdown => 49u8,
    }
}

/// The wire form of a message: exactly one distinguishing byte, with no
/// length prefix and no envelope.
pub open spec fn spec_encode(m: Message) -> Seq<u8> {
    seq![wire_byte(m)]
}

/// The message whose wire form a byte sequence is, if any. Every sequence
/// other than the two valid tokens decodes to nothing.
pub open spec fn spec_decode(bytes: Seq<u8>) -> Option<Message> {
    if bytes == spec_encode(Message::Hello) {
        Some(Message::Hello)
    } else if bytes == spec_encode(Message::Shutdown) {
        Some(Message::Shutdown)
    } else {
        None
    }
}

/// What `Message::decode` returns on a given body: the decoded message, or
/// `InvalidMessage` exactly on the bodies that are no wire token.
pub open spec fn spec_decode_result(bytes: Seq<u8>) -> Result<Message, ProtocolError> {
    match spec_decode(bytes) {
        Some(m) => Ok(m),
        None => Err(ProtocolError::InvalidMessage),
    }
}

impl Message {
    /// Encode the message into its wire form. Total: no failure mode.
    pub fn encode(&self) -> (r: Vec<u8>)
        ensures
            r@ == spec_encode(*self),
    {
        let mut out: Vec<u8> = Vec::new();
        match self {
            Message::Hello => out.push(48u8),
            Message::Shutdown => out.push(49u8),
        }
        proof {
            assert(out@ =~= spec_encode(*self));
        }
        out
    }

    /// Decode a complete body. Recognizes exactly the tokens `encode`
    /// produces; any other input yields a recoverable `InvalidMessage` error,
    /// never a panic.
    pub fn decode(bytes: &Vec<u8>) -> (r: Result<Message, ProtocolError>)
        ensures
            r == spec_decode_result(bytes@),
    {
        if bytes.len() == 1 {
            let b = bytes[0];
            if b == 48 {
                proof {
                    assert(bytes@ =~= spec_encode(Message::Hello));
                }
                Ok(Message::Hello)
            } else if b == 49 {
                proof {
                    assert(bytes@ =~= spec_encode(Message::Shutdown));
                }
                Ok(Message::Shutdown)
            } else {
                Err(ProtocolError::InvalidMessage)
            }
        } else {
            Err(ProtocolError::InvalidMessage)
        }
    }
}

/// Law: decoding the wire form of any message yields that message back.
pub proof fn lemma_round_trip(m: Message)
    ensures
        spec_decode(spec_encode(m)) == Some(m),
{
    assert(spec_encode(Message::Hello)[0] == 48u8);
    assert(spec_encode(Message::Shutdown)[0] == 49u8);
}

/// Law: a byte sequence decodes to a given message exactly when it is that
/// message's wire form.
pub proof fn lemma_decode_exact(bytes: Seq<u8>, m: Message)
    ensures
        spec_decode(bytes) == Some(m) <==> bytes == spec_encode(m),
{
    assert(spec_encode(Message::Hello)[0] == 48u8);
    assert(spec_encode(Message::Shutdown)[0] == 49u8);
}

/// Law: every byte sequence other than the two valid wire tokens is rejected
/// with an error rather than accepted or aborted on.
pub proof fn lemma_rejects_everything_else(bytes: Seq<u8>)
    requires
        bytes != spec_encode(Message::Hello),
        bytes != spec_encode(Message::Shutdown),
    ensures
        spec_decode_result(bytes) == Err::<Message, ProtocolError>(ProtocolError::InvalidMessage),
{
}

} // verus!
