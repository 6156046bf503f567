//! The envelope in which one protocol message travels between parties: who
//! sent it, whom it is for, and the encoded body, which this layer carries
//! and never reads.

use vstd::prelude::*;
use vstd::slice::slice_to_vec;

verus! {

/// The destination written into the envelope of a message that every party
/// is to receive.
pub const BROADCAST: u8 = 255;

/// Where a protocol message comes from and where it goes. The answer follows
/// from the kind of the message: the first and the last round of a protocol
/// speak to everybody, the two rounds between speak to one party.
pub trait MessageRouting {
    /// The party that sent the message.
    spec fn source(&self) -> u8;

    /// The party the message is for, or nobody in particular.
    spec fn destination(&self) -> Option<u8>;

    fn src_party_id(&self) -> (id: u8)
        ensures
            id == self.source(),
    ;

    fn dst_party_id(&self) -> (id: Option<u8>)
        ensures
            id == self.destination(),
    ;
}

/// A protocol message that gives up its encoded body.
pub trait Payload {
    /// The encoded body.
    spec fn encoding(&self) -> Seq<u8>;

    fn into_encoding(self) -> (body: Vec<u8>)
        ensures
            body@ == self.encoding(),
    ;
}

/// A run of bytes handed to the host, which owns it from then on.
#[derive(Debug, PartialEq, Eq)]
pub struct ByteBuffer {
    data: Vec<u8>,
}

impl View for ByteBuffer {
    type V = Seq<u8>;

    closed spec fn view(&self) -> Seq<u8> {
        self.data@
    }
}

impl Clone for ByteBuffer {
    fn clone(&self) -> (copy: ByteBuffer)
        ensures
            copy@ == self@,
    {
        ByteBuffer { data: slice_to_vec(self.data.as_slice()) }
    }
}

impl ByteBuffer {
    /// The buffer that holds the bytes of `vec`.
    pub fn from_vec(vec: Vec<u8>) -> (buf: ByteBuffer)
        ensures
            buf@ == vec@,
    {
        ByteBuffer { data: vec }
    }

    /// The buffer without bytes, which stands for "nothing to hand over".
    pub fn empty() -> (buf: ByteBuffer)
        ensures
            buf@ == Seq::<u8>::empty(),
    {
        ByteBuffer { data: Vec::new() }
    }

    /// The number of bytes.
    pub fn len(&self) -> (n: usize)
        ensures
            n == self@.len(),
    {
        self.data.len()
    }

    /// The bytes.
    pub fn as_slice(&self) -> (bytes: &[u8])
        ensures
            bytes@ == self@,
    {
        self.data.as_slice()
    }

    /// The bytes, given back as a vector.
    pub fn into_vec(self) -> (vec: Vec<u8>)
        ensures
            vec@ == self@,
    {
        self.data
    }
}

/// One message on the wire.
#[derive(Debug, PartialEq, Eq)]
pub struct Message {
    pub from_id: u8,
    /// The receiving party; `BROADCAST` where the message is for everybody.
    pub to_id: u8,
    pub payload: ByteBuffer,
}

/// The mathematical content of a `Message`.
pub struct MessageView {
    pub from_id: u8,
    pub to_id: u8,
    pub payload: Seq<u8>,
}

impl View for Message {
    type V = MessageView;

    open spec fn view(&self) -> MessageView {
        MessageView { from_id: self.from_id, to_id: self.to_id, payload: self.payload@ }
    }
}

impl Clone for Message {
    fn clone(&self) -> (copy: Message)
        ensures
            copy@ == self@,
    {
        Message { from_id: self.from_id, to_id: self.to_id, payload: self.payload.clone() }
    }
}

/// The destination as the envelope writes it.
pub open spec fn wire_destination(destination: Option<u8>) -> u8 {
    match destination {
        Some(id) => id,
        None => BROADCAST,
    }
}

/// The envelope of a protocol message: its routing, and its encoded body
/// unchanged.
pub open spec fn envelope<T: MessageRouting + Payload>(payload: T) -> MessageView {
    MessageView {
        from_id: payload.source(),
        to_id: wire_destination(payload.destination()),
        payload: payload.encoding(),
    }
}

/// The contents of a list of messages.
pub open spec fn message_views(msgs: Seq<Message>) -> Seq<MessageView> {
    msgs.map_values(|m: Message| m@)
}

/// Whether `outcome` is what `parse` makes of the body of `msg`.
pub open spec fn parses_to<T, F: Fn(&[u8]) -> Result<T, String>>(
    parse: F,
    msg: Message,
    outcome: Result<T, String>,
) -> bool {
    exists|body: &[u8]| body@ == msg@.payload && call_ensures(parse, (body,), outcome)
}

/// Whether `parse` makes a value of the body of `msg`.
pub open spec fn parses<T, F: Fn(&[u8]) -> Result<T, String>>(parse: F, msg: Message) -> bool {
    exists|value: T| parses_to(parse, msg, Ok::<T, String>(value))
}

/// Whether the `k`-th message of `input` is the first whose body `parse`
/// refuses, and `complaint` is what it says of it.
pub open spec fn first_refused<T, F: Fn(&[u8]) -> Result<T, String>>(
    parse: F,
    input: Seq<Message>,
    k: int,
    complaint: String,
) -> bool {
    &&& 0 <= k < input.len()
    &&& parses_to(parse, input[k], Err::<T, String>(complaint))
    &&& forall|i: int| 0 <= i < k ==> #[trigger] parses::<T, F>(parse, input[i])
}

impl Message {
    /// Wraps a protocol message for the wire.
    pub fn new<T: MessageRouting + Payload>(payload: T) -> (msg: Message)
        ensures
            msg@ == envelope(payload),
    {
        let from_id: u8 = payload.src_party_id();
        let to_id: u8 = match payload.dst_party_id() {
            Some(id) => id,
            None => BROADCAST,
        };
        Message { from_id, to_id, payload: ByteBuffer::from_vec(payload.into_encoding()) }
    }

    /// Reads the body of the message with the decoder of the round that the
    /// message belongs to.
    pub fn decode<T, F: Fn(&[u8]) -> Result<T, String>>(&self, parse: &F) -> (outcome: Result<
        T,
        String,
    >)
        requires
            forall|body: &[u8]| call_requires(*parse, (body,)),
        ensures
            parses_to(*parse, *self, outcome),
    {
        parse(self.payload.as_slice())
    }

    /// Reads a batch of messages, all or nothing: the values of all bodies
    /// in the order of the batch, or the complaint about the first body that
    /// does not parse, and then none of the values.
    pub fn decode_vector<T, F: Fn(&[u8]) -> Result<T, String>>(input: &[Message], parse: &F) -> (outcome:
        Result<Vec<T>, String>)
        requires
            forall|body: &[u8]| call_requires(*parse, (body,)),
        ensures
            match outcome {
                Ok(values) => values@.len() == input@.len() && forall|i: int|
                    0 <= i < input@.len() ==> parses_to(
                        *parse,
                        input@[i],
                        Ok::<T, String>(#[trigger] values@[i]),
                    ),
                Err(complaint) => exists|k: int| first_refused::<T, F>(*parse, input@, k, complaint),
            },
    {
        let mut values: Vec<T> = Vec::new();
        let mut i: usize = 0;
        while i < input.len()
            invariant
                i <= input.len(),
                values@.len() == i,
                forall|body: &[u8]| call_requires(*parse, (body,)),
                forall|j: int|
                    0 <= j < i ==> parses_to(*parse, input@[j], Ok::<T, String>(#[trigger] values@[j])),
            decreases input.len() - i,
        {
            match input[i].decode(parse) {
                Ok(value) => {
                    values.push(value);
                },
                Err(complaint) => {
                    assert forall|j: int| 0 <= j < i implies #[trigger] parses::<T, F>(
                        *parse,
                        input@[j],
                    ) by {
                        assert(parses_to(*parse, input@[j], Ok::<T, String>(values@[j])));
                    }
                    let failed: Result<Vec<T>, String> = Err(complaint);
                    assert(first_refused::<T, F>(*parse, input@, i as int, failed->Err_0));
                    return failed;
                },
            }
            i += 1;
        }
        Ok(values)
    }

    /// Copies of a batch of messages, in the order of the batch.
    pub fn copies(input: &[Message]) -> (out: Vec<Message>)
        ensures
            message_views(out@) == message_views(input@),
    {
        let mut out: Vec<Message> = Vec::new();
        let mut i: usize = 0;
        while i < input.len()
            invariant
                i <= input.len(),
                out@.len() == i,
                forall|j: int| 0 <= j < i ==> (#[trigger] out@[j])@ == input@[j]@,
            decreases input.len() - i,
        {
            out.push(input[i].clone());
            i += 1;
        }
        assert(message_views(out@) =~= message_views(input@));
        out
    }

    /// Wraps each message of a round for the wire, in the order given.
    pub fn encode_vector<T: MessageRouting + Payload>(msgs: Vec<T>) -> (out: Vec<Message>)
        ensures
            message_views(out@) == msgs@.map_values(|m: T| envelope(m)),
    {
        let ghost all = msgs@;
        let mut out: Vec<Message> = Vec::new();
        for m in it: msgs.into_iter()
            invariant
                it.seq() == all,
                out@.len() == it.index(),
                forall|j: int| 0 <= j < out@.len() ==> (#[trigger] out@[j])@ == envelope(all[j]),
        {
            out.push(Message::new(m));
        }
        assert(message_views(out@) =~= all.map_values(|m: T| envelope(m)));
        out
    }
}

/// What is wrapped is what is read: the decoder of a message is handed the
/// encoded body of the protocol message that the envelope was made of. So
/// where a decoder reads back the value that an encoding stands for,
/// decoding the envelope gives that value and nothing else.
pub proof fn lemma_decoding_an_envelope_reads_its_payload<
    T: MessageRouting + Payload,
    U,
    F: Fn(&[u8]) -> Result<U, String>,
>(payload: T, msg: Message, parse: F, value: U, outcome: Result<U, String>)
    requires
        msg@ == envelope(payload),
        forall|body: &[u8], read: Result<U, String>|
            body@ == payload.encoding() && call_ensures(parse, (body,), read) ==> read == Ok::<
                U,
                String,
            >(value),
        parses_to(parse, msg, outcome),
    ensures
        outcome == Ok::<U, String>(value),
{
}

} // verus!
