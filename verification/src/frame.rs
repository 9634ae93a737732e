//! Framing: on the wire every message follows its length.
//!
//! A frame is the length of a message as a little-endian `u32`, then the
//! encoded message. `MessageWriter` lays a frame out, `MessageReader` finds the
//! message in what has arrived so far.

use vstd::prelude::*;
use vstd::slice::slice_subrange;

verus! {

/// The reason for which bincode could not encode or decode a value.
#[verifier::external_type_specification]
#[verifier::external_body]
pub struct ExBincodeErrorKind(bincode::ErrorKind);

/// The reason for which a stream could not be read or written.
#[verifier::external_type_specification]
#[verifier::external_body]
pub struct ExIoError(std::io::Error);

/// How many bytes the length in front of a message takes.
pub const HEADER_LEN: usize = 4;

/// The little-endian bytes of a number.
pub open spec fn le_bytes(value: u32) -> Seq<u8> {
    seq![
        (value % 256) as u8,
        (value / 256 % 256) as u8,
        (value / 65536 % 256) as u8,
        (value / 16777216) as u8,
    ]
}

/// The number whose little-endian bytes stand at the front of `bytes`.
pub open spec fn le_value(bytes: Seq<u8>) -> u32
    recommends
        bytes.len() >= HEADER_LEN,
{
    (bytes[0] + 256 * bytes[1] + 65536 * bytes[2] + 16777216 * bytes[3]) as u32
}

/// A length as 32 bits hold it.
pub open spec fn length_field(len: int) -> u32 {
    (len % 0x1_0000_0000) as u32
}

/// A message as it stands on the wire.
pub open spec fn frame(message: Seq<u8>) -> Seq<u8> {
    le_bytes(length_field(message.len() as int)) + message
}

/// `buf` after `bytes` have been written over its front.
pub open spec fn overwritten(buf: Seq<u8>, bytes: Seq<u8>) -> Seq<u8> {
    if bytes.len() < buf.len() {
        bytes + buf.skip(bytes.len() as int)
    } else {
        bytes
    }
}

/// `bincode::serialize_into` of a `u32`, into an empty vector: its default
/// configuration writes integers at their full width, little-endian, and a
/// vector takes every byte that is written to it. The contract claims that the
/// call succeeds and that the vector then holds those four bytes.
#[verifier::external_body]
fn encode_u32(value: u32) -> (result: Result<Vec<u8>, bincode::Error>)
    ensures
        result is Ok,
        result->Ok_0@ == le_bytes(value),
{
    let mut bytes = Vec::new();
    bincode::serialize_into(&mut bytes, &value)?;
    Ok(bytes)
}

/// `bincode::deserialize_from` of a `u32`, from a cursor at the front of
/// `bytes`. The contract claims that it fails exactly when there are fewer than
/// four bytes, and that otherwise it returns the number that these bytes spell
/// and leaves the cursor behind them. Which error it is stays unsaid.
#[verifier::external_body]
fn decode_u32(bytes: &[u8]) -> (result: Result<(u32, u64), bincode::Error>)
    ensures
        result is Ok <==> bytes@.len() >= HEADER_LEN,
        result matches Ok((value, position)) ==> value == le_value(bytes@) && position
            == HEADER_LEN,
{
    let mut cursor = std::io::Cursor::new(bytes);
    let value: u32 = bincode::deserialize_from(&mut cursor)?;
    Ok((value, cursor.position()))
}

/// Writes `bytes` over `buf` from position `at` on, growing `buf` as needed.
fn write_at(buf: &mut Vec<u8>, at: usize, bytes: &[u8])
    requires
        at <= old(buf)@.len(),
        at + bytes@.len() <= usize::MAX,
    ensures
        final(buf)@ == old(buf)@.take(at as int) + overwritten(old(buf)@.skip(at as int), bytes@),
{
    let mut i: usize = 0;
    while i < bytes.len()
        invariant
            i <= bytes@.len(),
            at <= old(buf)@.len(),
            at + bytes@.len() <= usize::MAX,
            buf@ == old(buf)@.take(at as int) + overwritten(
                old(buf)@.skip(at as int),
                bytes@.take(i as int),
            ),
        decreases bytes@.len() - i,
    {
        if at + i < buf.len() {
            buf.set(at + i, bytes[i]);
        } else {
            buf.push(bytes[i]);
        }
        i = i + 1;
        assert(buf@ =~= old(buf)@.take(at as int) + overwritten(
            old(buf)@.skip(at as int),
            bytes@.take(i as int),
        ));
    }
    assert(bytes@.take(i as int) =~= bytes@);
}

/// Why no message could be read.
#[derive(Debug)]
pub enum MessageReadError {
    /// No bytes read, assuming disconnect
    NoBytesRead,
    /// Reading from the stream failed
    StreamRead(std::io::Error),
    /// The length or the message could not be decoded
    Bincode(bincode::Error),
}

/// Why no message could be written.
#[derive(Debug)]
pub enum MessageWriteError {
    /// The message could not be encoded
    Serialize(bincode::Error),
    /// Writing to the stream failed
    StreamWrite(std::io::Error),
}

/// What the bytes that have arrived so far amount to.
#[derive(Clone, Copy, Debug, PartialEq, Eq, Structural)]
pub enum Progress {
    /// Not even the length is there.
    LengthMissing,
    /// The length is there, and the message is not.
    MessageMissing,
    /// As many bytes as the length says are there.
    MessageReady,
}

/// What the bytes in `buf` amount to. The number of bytes behind the length is
/// taken in 32 bits, as the length itself is.
pub open spec fn progress(buf: Seq<u8>) -> Progress {
    if buf.len() < HEADER_LEN {
        Progress::LengthMissing
    } else if length_field(buf.len() - HEADER_LEN) < le_value(buf) {
        Progress::MessageMissing
    } else {
        Progress::MessageReady
    }
}

/// What a reader needs next.
#[derive(Clone, Copy, Debug, PartialEq, Eq, Structural)]
pub enum ReadStep {
    /// More bytes from the stream.
    ReadMore,
    /// The message decoded from `MessageReader::message_bytes`, and the outcome
    /// of that handed to `MessageReader::finish_message`.
    Decode,
}

/// Gathers bytes from a stream until they hold a message.
pub struct MessageReader {
    buf: Vec<u8>,
}

impl View for MessageReader {
    type V = Seq<u8>;

    /// The bytes that have arrived and belong to no message that was taken.
    closed spec fn view(&self) -> Seq<u8> {
        self.buf@
    }
}

impl MessageReader {
    /// A reader to which no bytes have arrived.
    pub fn new() -> (reader: Self)
        ensures
            reader@ == Seq::<u8>::empty(),
    {
        Self { buf: Vec::new() }
    }

    /// Takes in what one read of the stream gave, an empty vector standing for
    /// the end of the stream, and says what is needed next.
    pub fn read_message(&mut self, received: Result<Vec<u8>, std::io::Error>) -> (result: Result<
        ReadStep,
        MessageReadError,
    >)
        ensures
            match received {
                Err(err) => {
                    &&& result == Err::<ReadStep, _>(MessageReadError::StreamRead(err))
                    &&& final(self)@ == old(self)@
                },
                Ok(bytes) if bytes@.len() == 0 => {
                    &&& result == Err::<ReadStep, _>(MessageReadError::NoBytesRead)
                    &&& final(self)@ == old(self)@
                },
                Ok(bytes) => {
                    &&& final(self)@ == old(self)@ + bytes@
                    &&& match progress(old(self)@ + bytes@) {
                        Progress::LengthMissing => result matches Err(MessageReadError::Bincode(_)),
                        Progress::MessageMissing => result == Ok::<_, MessageReadError>(
                            ReadStep::ReadMore,
                        ),
                        Progress::MessageReady => result == Ok::<_, MessageReadError>(
                            ReadStep::Decode,
                        ),
                    }
                },
            },
    {
        let mut bytes = match received {
            Ok(bytes) => bytes,
            Err(err) => {
                return Err(MessageReadError::StreamRead(err));
            },
        };
        if bytes.len() == 0 {
            return Err(MessageReadError::NoBytesRead);
        }
        self.buf.append(&mut bytes);
        match decode_u32(self.buf.as_slice()) {
            Ok((len, position)) => {
                let available: usize = self.buf.len() - position as usize;
                if truncated(available) < len {
                    Ok(ReadStep::ReadMore)
                } else {
                    Ok(ReadStep::Decode)
                }
            },
            Err(err) => Err(MessageReadError::Bincode(err)),
        }
    }

    /// The length that the message has according to what has arrived, if its
    /// length has.
    pub fn message_len(&self) -> (len: Option<u32>)
        ensures
            len == (if self@.len() < HEADER_LEN {
                None
            } else {
                Some(le_value(self@))
            }),
    {
        match decode_u32(self.buf.as_slice()) {
            Ok((len, _)) => Some(len),
            Err(_) => None,
        }
    }

    /// The bytes that follow the length: the message is at their front.
    pub fn message_bytes(&self) -> (bytes: &[u8])
        requires
            self@.len() >= HEADER_LEN,
        ensures
            bytes@ == self@.skip(HEADER_LEN as int),
    {
        let bytes = slice_subrange(self.buf.as_slice(), HEADER_LEN, self.buf.len());
        assert(bytes@ =~= self@.skip(HEADER_LEN as int));
        bytes
    }

    /// Takes the message out of the reader, given how many bytes it turned out
    /// to be. Where it could not be decoded, all bytes stay.
    pub fn finish_message(&mut self, decoded: Result<usize, bincode::Error>) -> (result: Result<
        (),
        MessageReadError,
    >)
        requires
            decoded matches Ok(consumed) ==> HEADER_LEN + consumed <= old(self)@.len(),
        ensures
            match decoded {
                Ok(consumed) => {
                    &&& result == Ok::<_, MessageReadError>(())
                    &&& final(self)@ == old(self)@.skip(HEADER_LEN + consumed)
                },
                Err(err) => {
                    &&& result == Err::<(), _>(MessageReadError::Bincode(err))
                    &&& final(self)@ == old(self)@
                },
            },
    {
        match decoded {
            Ok(consumed) => {
                // The message ends within the buffer, so its end is a `usize`.
                let len: usize = self.buf.len();
                assert(HEADER_LEN + consumed <= len);
                let rest = self.buf.split_off(HEADER_LEN + consumed);
                self.buf = rest;
                assert(self@ =~= old(self)@.skip(HEADER_LEN + consumed));
                Ok(())
            },
            Err(err) => Err(MessageReadError::Bincode(err)),
        }
    }
}

/// The lower 32 bits of a length.
fn truncated(len: usize) -> (low: u32)
    ensures
        low == length_field(len as int),
{
    let wide: u64 = len as u64;
    let low: u32 = #[verifier::truncate]
    (wide as u32);
    assert(low == wide % 0x1_0000_0000) by (bit_vector)
        requires
            low == wide as u32,
    ;
    low
}

/// Lays messages out as frames for a stream.
pub struct MessageWriter {
    buf: Vec<u8>,
}

impl View for MessageWriter {
    type V = Seq<u8>;

    /// The bytes that are to be sent.
    closed spec fn view(&self) -> Seq<u8> {
        self.buf@
    }
}

impl MessageWriter {
    /// A writer that has nothing to send.
    pub fn new() -> (writer: Self)
        ensures
            writer@ == Seq::<u8>::empty(),
    {
        Self { buf: Vec::new() }
    }

    /// Lays out the frame of a message, given the bytes that encoding the
    /// message produced and whether it succeeded, and returns the length of the
    /// message. The frame goes over the front of what an earlier, failed write
    /// has left; where encoding failed, so do a length of zero and the bytes that
    /// were produced until then.
    pub fn write_message(&mut self, message: &[u8], encoded: Result<(), bincode::Error>) -> (result:
        Result<usize, MessageWriteError>)
        requires
            HEADER_LEN + message@.len() <= usize::MAX,
        ensures
            match encoded {
                Ok(()) => {
                    &&& result matches Ok(written) && written == message@.len()
                    &&& final(self)@ == overwritten(old(self)@, frame(message@))
                },
                Err(err) => {
                    &&& result == Err::<usize, _>(MessageWriteError::Serialize(err))
                    &&& final(self)@ == overwritten(old(self)@, le_bytes(0) + message@)
                },
            },
    {
        let blank = match encode_u32(0) {
            Ok(blank) => blank,
            Err(err) => {
                return Err(MessageWriteError::Serialize(err));
            },
        };
        write_at(&mut self.buf, 0, blank.as_slice());
        write_at(&mut self.buf, HEADER_LEN, message);
        assert(self@ =~= overwritten(old(self)@, le_bytes(0) + message@));
        match encoded {
            Ok(()) => {
                let written: usize = message.len();
                match encode_u32(truncated(written)) {
                    Ok(len) => {
                        write_at(&mut self.buf, 0, len.as_slice());
                        assert(self@ =~= overwritten(old(self)@, frame(message@)));
                        Ok(written)
                    },
                    Err(err) => Err(MessageWriteError::Serialize(err)),
                }
            },
            Err(err) => Err(MessageWriteError::Serialize(err)),
        }
    }

    /// The bytes that are to be sent.
    pub fn pending(&self) -> (bytes: &[u8])
        ensures
            bytes@ == self@,
    {
        self.buf.as_slice()
    }

    /// Takes in whether all pending bytes could be sent. If they could not, they
    /// stay.
    pub fn finish_message(&mut self, sent: Result<(), std::io::Error>) -> (result: Result<
        (),
        MessageWriteError,
    >)
        ensures
            match sent {
                Ok(()) => {
                    &&& result == Ok::<_, MessageWriteError>(())
                    &&& final(self)@ == Seq::<u8>::empty()
                },
                Err(err) => {
                    &&& result == Err::<(), _>(MessageWriteError::StreamWrite(err))
                    &&& final(self)@ == old(self)@
                },
            },
    {
        match sent {
            Ok(()) => {
                self.buf.clear();
                Ok(())
            },
            Err(err) => Err(MessageWriteError::StreamWrite(err)),
        }
    }
}

/// What a failure to read from a stream is reported as, given its cause.
pub fn stream_read_text(cause: &str) -> (text: String)
    ensures
        text@ == "Could not read from stream: "@ + cause@,
{
    let mut text = "Could not read from stream: ".to_owned();
    text.append(cause);
    text
}

/// What a failure to encode a message is reported as, given its cause.
pub fn serialize_text(cause: &str) -> (text: String)
    ensures
        text@ == "Could not serialize message: "@ + cause@,
{
    let mut text = "Could not serialize message: ".to_owned();
    text.append(cause);
    text
}

/// What a failure to write to a stream is reported as, given its cause.
pub fn stream_write_text(cause: &str) -> (text: String)
    ensures
        text@ == "Could not write message to stream: "@ + cause@,
{
    let mut text = "Could not write message to stream: ".to_owned();
    text.append(cause);
    text
}

impl MessageReadError {
    /// The error as it is shown to people. The text of an underlying error is
    /// whatever that error displays as.
    pub fn display_text(&self) -> (text: String)
        ensures
            match *self {
                MessageReadError::NoBytesRead => text@
                    == "Read 0 bytes from stream. The other end has likely disconnected."@,
                MessageReadError::StreamRead(err) => exists|cause: String|
                    #[trigger] vstd::string::to_string_from_display_ensures(&err, cause) && text@
                        == "Could not read from stream: "@ + cause@,
                MessageReadError::Bincode(err) => vstd::string::to_string_from_display_ensures(
                    &err,
                    text,
                ),
            },
    {
        match self {
            MessageReadError::NoBytesRead => {
                "Read 0 bytes from stream. The other end has likely disconnected.".to_owned()
            },
            MessageReadError::StreamRead(err) => {
                let cause = err.to_string();
                stream_read_text(cause.as_str())
            },
            MessageReadError::Bincode(err) => err.to_string(),
        }
    }
}

impl MessageWriteError {
    /// The error as it is shown to people. The text of an underlying error is
    /// whatever that error displays as.
    pub fn display_text(&self) -> (text: String)
        ensures
            match *self {
                MessageWriteError::Serialize(err) => exists|cause: String|
                    #[trigger] vstd::string::to_string_from_display_ensures(&err, cause) && text@
                        == "Could not serialize message: "@ + cause@,
                MessageWriteError::StreamWrite(err) => exists|cause: String|
                    #[trigger] vstd::string::to_string_from_display_ensures(&err, cause) && text@
                        == "Could not write message to stream: "@ + cause@,
            },
    {
        match self {
            MessageWriteError::Serialize(err) => {
                let cause = err.to_string();
                serialize_text(cause.as_str())
            },
            MessageWriteError::StreamWrite(err) => {
                let cause = err.to_string();
                stream_write_text(cause.as_str())
            },
        }
    }
}

/// A number read back from its bytes is that number, whatever follows.
pub proof fn law_length_reads_back(value: u32, rest: Seq<u8>)
    ensures
        le_bytes(value).len() == HEADER_LEN,
        le_value(le_bytes(value) + rest) == value,
{
    let bytes = le_bytes(value) + rest;
    assert(bytes[0] == value % 256 && bytes[1] == value / 256 % 256 && bytes[2] == value / 65536
        % 256 && bytes[3] == value / 16777216);
}

/// What a reader holds once it has received `chunks`, one after the other.
pub open spec fn gathered(buf: Seq<u8>, chunks: Seq<Seq<u8>>) -> Seq<u8>
    decreases chunks.len(),
{
    if chunks.len() == 0 {
        buf
    } else {
        gathered(buf, chunks.drop_last()) + chunks.last()
    }
}

/// How a reader sees a frame arrive, byte by byte: there is no length before
/// the fourth byte, no message before the last one, and from then on the
/// message is ready, with nothing in front of it. The length of the message has
/// to fit its 32 bits, and the bytes that have arrived, counted in 32 bits, must
/// not fall short of it again.
pub proof fn law_frame_arrives(message: Seq<u8>, rest: Seq<u8>, arrived: int)
    requires
        message.len() <= u32::MAX,
        0 <= arrived <= frame(message).len() + rest.len(),
        frame(message).len() <= arrived ==> length_field(arrived - HEADER_LEN) >= message.len(),
    ensures
        ({
            let buf = (frame(message) + rest).take(arrived);
            &&& arrived < HEADER_LEN ==> progress(buf) == Progress::LengthMissing
            &&& HEADER_LEN <= arrived < frame(message).len() ==> progress(buf)
                == Progress::MessageMissing
            &&& frame(message).len() <= arrived ==> {
                &&& progress(buf) == Progress::MessageReady
                &&& buf.skip(HEADER_LEN as int).take(message.len() as int) == message
                &&& buf.skip((HEADER_LEN + message.len()) as int) == rest.take(
                    arrived - frame(message).len(),
                )
            }
        }),
{
    let wire = frame(message) + rest;
    let buf = wire.take(arrived);
    let len = length_field(message.len() as int);
    assert(len == message.len());
    if arrived >= HEADER_LEN {
        law_length_reads_back(len, message + rest);
        assert(wire =~= le_bytes(len) + (message + rest));
        assert(buf[0] == wire[0] && buf[1] == wire[1] && buf[2] == wire[2] && buf[3] == wire[3]);
        assert(le_value(buf) == le_value(wire));
        assert(arrived < frame(message).len() ==> length_field(buf.len() - HEADER_LEN) == arrived
            - HEADER_LEN);
    }
    if frame(message).len() <= arrived {
        assert(buf.skip(HEADER_LEN as int).take(message.len() as int) =~= message);
        assert(buf.skip((HEADER_LEN + message.len()) as int) =~= rest.take(
            arrived - frame(message).len(),
        ));
    }
}

/// Whether `chunks`, on top of what a reader holds, bring the frame of a message
/// to its end: no chunk is empty, the length is there with the first of them and
/// the end of the frame with the last. The length of the message fits its 32
/// bits, and the bytes that are then there, counted in 32 bits, do not fall
/// short of it.
pub open spec fn frame_completes(held: Seq<u8>, chunks: Seq<Seq<u8>>, message: Seq<u8>) -> bool {
    &&& chunks.len() > 0
    &&& forall|i: int| 0 <= i < chunks.len() ==> #[trigger] chunks[i].len() > 0
    &&& held.len() + chunks[0].len() >= HEADER_LEN
    &&& chunks.len() > 1 ==> gathered(held, chunks.drop_last()).len() < frame(message).len()
    &&& frame(message).len() <= gathered(held, chunks).len()
    &&& message.len() <= u32::MAX
    &&& length_field(gathered(held, chunks).len() - HEADER_LEN) >= message.len()
}

/// Whether a reader that receives `chunks` asks for more after each of them but
/// the last, and after the last one for decoding.
pub open spec fn asks_for_decoding_last(held: Seq<u8>, chunks: Seq<Seq<u8>>) -> bool {
    &&& chunks.len() > 0
    &&& forall|i: int| 0 <= i < chunks.len() ==> #[trigger] chunks[i].len() > 0
    &&& forall|k: int|
        1 <= k < chunks.len() ==> #[trigger] progress(gathered(held, chunks.take(k)))
            == Progress::MessageMissing
    &&& progress(gathered(held, chunks)) == Progress::MessageReady
}

/// Reading gives back what was written. Let a writer with nothing left to send
/// write the encoding of a value that the decoder finds there, whatever the
/// encoding is. However the frame is cut into chunks, and whatever part of it a
/// reader already holds, the reader asks for more until the last chunk is there
/// and for decoding then; the decoder finds the value, and taking it out leaves
/// what came behind the frame.
pub proof fn law_reading_gives_back_what_was_written<M>(
    encode: spec_fn(M) -> Seq<u8>,
    decode: spec_fn(Seq<u8>) -> Option<(M, nat)>,
    value: M,
    held: Seq<u8>,
    chunks: Seq<Seq<u8>>,
    rest: Seq<u8>,
)
    requires
        decode(encode(value) + rest) == Some((value, encode(value).len())),
        frame_completes(held, chunks, encode(value)),
        gathered(held, chunks) == overwritten(Seq::empty(), frame(encode(value))) + rest,
    ensures
        asks_for_decoding_last(held, chunks),
        decode(gathered(held, chunks).skip(HEADER_LEN as int)) == Some(
            (value, encode(value).len()),
        ),
        gathered(held, chunks).skip((HEADER_LEN + encode(value).len()) as int) == rest,
{
    let message = encode(value);
    let wire = frame(message) + rest;
    assert(overwritten(Seq::empty(), frame(message)) =~= frame(message));
    assert forall|k: int| 1 <= k < chunks.len() implies #[trigger] progress(
        gathered(held, chunks.take(k)),
    ) == Progress::MessageMissing by {
        let buf = gathered(held, chunks.take(k));
        lemma_gathered_prefix(held, chunks, k);
        lemma_gathered_grows(held, chunks, 1, k);
        lemma_gathered_grows(held, chunks, k, chunks.len() - 1);
        assert(chunks.take(chunks.len() - 1) =~= chunks.drop_last());
        reveal_with_fuel(gathered, 2);
        assert(chunks.take(1).drop_last() =~= Seq::<Seq<u8>>::empty());
        assert(gathered(held, chunks.take(1)).len() == held.len() + chunks[0].len());
        law_frame_arrives(message, rest, buf.len() as int);
    }
    let buf = gathered(held, chunks);
    law_frame_arrives(message, rest, wire.len() as int);
    assert(wire.take(wire.len() as int) =~= wire);
    assert(buf.skip(HEADER_LEN as int) =~= message + rest);
    assert(rest.take(rest.len() as int) =~= rest);
}

/// What arrived in the first chunks is at the front of all that arrived.
proof fn lemma_gathered_prefix(held: Seq<u8>, chunks: Seq<Seq<u8>>, k: int)
    requires
        0 <= k <= chunks.len(),
    ensures
        ({
            let some = gathered(held, chunks.take(k));
            let all = gathered(held, chunks);
            some.len() <= all.len() && some == all.take(some.len() as int)
        }),
    decreases chunks.len(),
{
    let some = gathered(held, chunks.take(k));
    let all = gathered(held, chunks);
    if k == chunks.len() {
        assert(chunks.take(k) =~= chunks);
    } else {
        lemma_gathered_prefix(held, chunks.drop_last(), k);
        assert(chunks.drop_last().take(k) =~= chunks.take(k));
    }
    assert(some =~= all.take(some.len() as int));
}

/// More chunks hold no fewer bytes.
proof fn lemma_gathered_grows(held: Seq<u8>, chunks: Seq<Seq<u8>>, j: int, k: int)
    requires
        0 <= j <= k <= chunks.len(),
    ensures
        gathered(held, chunks.take(j)).len() <= gathered(held, chunks.take(k)).len(),
{
    lemma_gathered_prefix(held, chunks.take(k), j);
    assert(chunks.take(k).take(j) =~= chunks.take(j));
}

/// Several messages on the wire, one behind the other.
pub open spec fn wire(messages: Seq<Seq<u8>>) -> Seq<u8>
    decreases messages.len(),
{
    if messages.len() == 0 {
        Seq::empty()
    } else {
        frame(messages.first()) + wire(messages.drop_first())
    }
}

/// All that a reader gets to see when it reads one message after the other,
/// given the chunks that it receives for each of them.
pub open spec fn received(held: Seq<u8>, turns: Seq<Seq<Seq<u8>>>) -> Seq<u8>
    decreases turns.len(),
{
    if turns.len() == 0 {
        held
    } else {
        received(gathered(held, turns.first()), turns.drop_first())
    }
}

/// The values that a reader gives, one after the other, given the chunks that it
/// receives for each of them, and what it then holds. Each value is decoded from
/// what is behind the length, and taken out together with the length.
pub open spec fn read_in_turn<M>(
    decode: spec_fn(Seq<u8>) -> Option<(M, nat)>,
    held: Seq<u8>,
    turns: Seq<Seq<Seq<u8>>>,
) -> Option<(Seq<M>, Seq<u8>)>
    decreases turns.len(),
{
    if turns.len() == 0 {
        Some((Seq::empty(), held))
    } else if !asks_for_decoding_last(held, turns.first()) {
        None
    } else {
        let buf = gathered(held, turns.first());
        match decode(buf.skip(HEADER_LEN as int)) {
            None => None,
            Some((value, consumed)) => match read_in_turn(
                decode,
                buf.skip((HEADER_LEN + consumed) as int),
                turns.drop_first(),
            ) {
                None => None,
                Some((others, rest)) => Some((seq![value] + others, rest)),
            },
        }
    }
}

/// Whether the chunks of each turn bring the frame of one more value to its end,
/// and the decoder finds the value there.
pub open spec fn frames_complete<M>(
    encode: spec_fn(M) -> Seq<u8>,
    decode: spec_fn(Seq<u8>) -> Option<(M, nat)>,
    held: Seq<u8>,
    values: Seq<M>,
    turns: Seq<Seq<Seq<u8>>>,
) -> bool
    decreases turns.len(),
{
    &&& values.len() == turns.len()
    &&& turns.len() > 0 ==> {
        let message = encode(values.first());
        let behind = gathered(held, turns.first()).skip((HEADER_LEN + message.len()) as int);
        &&& frame_completes(held, turns.first(), message)
        &&& decode(message + behind) == Some((values.first(), message.len()))
        &&& frames_complete(encode, decode, behind, values.drop_first(), turns.drop_first())
    }
}

/// Values come off the wire one by one, whole, and in the order in which they
/// were written, whatever chunks they arrive in.
pub proof fn law_messages_keep_their_order<M>(
    encode: spec_fn(M) -> Seq<u8>,
    decode: spec_fn(Seq<u8>) -> Option<(M, nat)>,
    held: Seq<u8>,
    values: Seq<M>,
    turns: Seq<Seq<Seq<u8>>>,
    rest: Seq<u8>,
)
    requires
        frames_complete(encode, decode, held, values, turns),
        received(held, turns) == wire(values.map_values(encode)) + rest,
    ensures
        read_in_turn(decode, held, turns) == Some((values, rest)),
    decreases turns.len(),
{
    let messages = values.map_values(encode);
    if turns.len() == 0 {
        assert(held =~= rest);
        assert(values =~= Seq::empty());
    } else {
        let message = encode(values.first());
        let buf = gathered(held, turns.first());
        let behind = buf.skip(frame(message).len() as int);
        let others = values.drop_first();
        assert(messages.first() == message);
        assert(messages.drop_first() =~= others.map_values(encode));
        lemma_received_behind(buf, Seq::empty(), turns.drop_first());
        assert(buf + Seq::<u8>::empty() =~= buf);
        let all = received(held, turns);
        assert(buf =~= all.take(buf.len() as int));
        assert(buf.take(frame(message).len() as int) =~= frame(message));
        assert(buf =~= frame(message) + behind);
        lemma_received_behind(frame(message), behind, turns.drop_first());
        assert(received(behind, turns.drop_first()) =~= all.skip(frame(message).len() as int));
        assert(all.skip(frame(message).len() as int) =~= wire(others.map_values(encode)) + rest);
        assert(overwritten(Seq::empty(), frame(message)) =~= frame(message));
        law_reading_gives_back_what_was_written(
            encode,
            decode,
            values.first(),
            held,
            turns.first(),
            behind,
        );
        law_messages_keep_their_order(encode, decode, behind, others, turns.drop_first(), rest);
        assert(seq![values.first()] + others =~= values);
    }
}

/// What a reader holds at the front stays at the front.
proof fn lemma_gathered_behind(front: Seq<u8>, held: Seq<u8>, chunks: Seq<Seq<u8>>)
    ensures
        gathered(front + held, chunks) == front + gathered(held, chunks),
    decreases chunks.len(),
{
    if chunks.len() > 0 {
        lemma_gathered_behind(front, held, chunks.drop_last());
        assert(gathered(front + held, chunks) =~= front + gathered(held, chunks));
    }
}

/// What a reader holds at the front stays at the front, turn by turn.
proof fn lemma_received_behind(front: Seq<u8>, held: Seq<u8>, turns: Seq<Seq<Seq<u8>>>)
    ensures
        received(front + held, turns) == front + received(held, turns),
    decreases turns.len(),
{
    if turns.len() > 0 {
        lemma_gathered_behind(front, held, turns.first());
        lemma_received_behind(front, gathered(held, turns.first()), turns.drop_first());
    }
}

/// A writer that has sent everything lays out exactly the frame of the next
/// message. So does one that could not send the frame of a message that is no
/// longer: trying the same message again sends the same bytes.
pub proof fn law_next_frame_is_exact(unsent: Seq<u8>, message: Seq<u8>)
    requires
        unsent.len() <= message.len(),
    ensures
        overwritten(Seq::empty(), frame(message)) == frame(message),
        overwritten(frame(unsent), frame(message)) == frame(message),
{
    assert(overwritten(Seq::empty(), frame(message)) =~= frame(message));
}

/// What a longer, unsent frame leaves behind goes out after the next frame.
pub proof fn law_unsent_tail_follows(unsent: Seq<u8>, message: Seq<u8>)
    requires
        message.len() < unsent.len(),
    ensures
        overwritten(frame(unsent), frame(message)) == frame(message) + unsent.skip(
            message.len() as int,
        ),
{
    assert(frame(unsent).skip(frame(message).len() as int) =~= unsent.skip(message.len() as int));
}

/// The bytes of a number are its digits to the base 256, the lowest first.
pub proof fn law_length_is_little_endian(value: u32, bytes: Seq<u8>)
    requires
        bytes.len() >= HEADER_LEN,
    ensures
        le_bytes(value).len() == 4,
        le_bytes(value)[0] + 256 * le_bytes(value)[1] + 65536 * le_bytes(value)[2] + 16777216
            * le_bytes(value)[3] == value,
        le_value(bytes) == bytes[0] + 256 * bytes[1] + 65536 * bytes[2] + 16777216 * bytes[3],
{
}

/// A frame is four bytes that spell the length of the message, and then the
/// message itself.
pub proof fn law_frame_is_length_then_message(message: Seq<u8>)
    ensures
        frame(message).len() == 4 + message.len(),
        frame(message).skip(4) == message,
        message.len() <= u32::MAX ==> le_value(frame(message)) == message.len(),
        le_value(frame(message)) as int == message.len() as int % 0x1_0000_0000,
{
    law_length_reads_back(length_field(message.len() as int), message);
    assert(frame(message).skip(4) =~= message);
}

/// Two messages have the same frame only if they are the same message.
pub proof fn law_frames_tell_messages_apart(first: Seq<u8>, second: Seq<u8>)
    requires
        frame(first) == frame(second),
    ensures
        first == second,
{
    law_frame_is_length_then_message(first);
    law_frame_is_length_then_message(second);
}

/// Writing over a buffer changes the bytes that are written over and no other,
/// and never makes the buffer shorter.
pub proof fn law_overwriting_keeps_the_rest(buf: Seq<u8>, bytes: Seq<u8>, i: int)
    requires
        0 <= i < bytes.len() || 0 <= i < buf.len(),
    ensures
        overwritten(buf, bytes).len() == if bytes.len() < buf.len() {
            buf.len()
        } else {
            bytes.len()
        },
        overwritten(buf, bytes)[i] == if i < bytes.len() {
            bytes[i]
        } else {
            buf[i]
        },
{
}

/// A message is ready as soon as there are as many bytes behind the length as
/// the length says, whatever they are, and not before. Both are counted in 32
/// bits, which only matters once more than 4 GiB have arrived.
pub proof fn law_message_is_ready_when_all_of_it_is_there(buf: Seq<u8>)
    ensures
        progress(buf) == Progress::LengthMissing <==> buf.len() < 4,
        4 <= buf.len() <= 4 + u32::MAX ==> (progress(buf) == Progress::MessageReady <==> buf.len()
            - 4 >= buf[0] + 256 * buf[1] + 65536 * buf[2] + 16777216 * buf[3]),
        buf.len() >= 4 ==> (progress(buf) == Progress::MessageReady <==> (buf.len() - 4)
            % 0x1_0000_0000 >= buf[0] + 256 * buf[1] + 65536 * buf[2] + 16777216 * buf[3]),
{
}

/// Once a message is ready, more bytes do not make it unready, as long as they
/// can be counted in 32 bits; nor do bytes behind the length change what the
/// length is.
pub proof fn law_more_bytes_keep_a_message_ready(buf: Seq<u8>, more: Seq<u8>)
    requires
        progress(buf) == Progress::MessageReady,
        buf.len() + more.len() <= 4 + u32::MAX,
    ensures
        progress(buf + more) == Progress::MessageReady,
        le_value(buf + more) == le_value(buf),
{
}

} // verus!
