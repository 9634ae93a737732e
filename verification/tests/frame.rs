use remote_runner::frame::{
    serialize_text, stream_read_text, stream_write_text, MessageReadError, MessageReader,
    MessageWriteError, MessageWriter, ReadStep,
};

fn io_error(text: &str) -> std::io::Error {
    std::io::Error::new(std::io::ErrorKind::Other, text)
}

fn framed(message: &[u8]) -> Vec<u8> {
    let mut writer = MessageWriter::new();
    assert_eq!(writer.write_message(message, Ok(())).unwrap(), message.len());
    let bytes = writer.pending().to_vec();
    writer.finish_message(Ok(())).unwrap();
    bytes
}

#[test]
fn a_new_writer_has_nothing_to_send() {
    assert!(MessageWriter::new().pending().is_empty());
}

#[test]
fn a_frame_is_the_length_then_the_message() {
    assert_eq!(framed(&[7, 8, 9]), vec![3, 0, 0, 0, 7, 8, 9]);
}

#[test]
fn an_empty_message_is_only_a_length() {
    assert_eq!(framed(&[]), vec![0, 0, 0, 0]);
}

#[test]
fn the_length_is_little_endian() {
    let frame = framed(&vec![5; 0x0001_0203]);
    assert_eq!(&frame[..5], &[0x03, 0x02, 0x01, 0x00, 5]);
    assert_eq!(frame.len(), 4 + 0x0001_0203);
}

#[test]
fn the_length_is_what_bincode_writes() {
    for len in [0usize, 1, 255, 256, 70000] {
        let expected = bincode::serialize(&(len as u32)).unwrap();
        assert_eq!(&framed(&vec![1; len])[..4], expected.as_slice());
    }
}

#[test]
fn a_sent_frame_is_forgotten() {
    let mut writer = MessageWriter::new();
    writer.write_message(&[1, 2, 3], Ok(())).unwrap();
    writer.finish_message(Ok(())).unwrap();
    assert!(writer.pending().is_empty());
    writer.write_message(&[4], Ok(())).unwrap();
    assert_eq!(writer.pending(), &[1, 0, 0, 0, 4]);
}

#[test]
fn an_unsent_frame_stays() {
    let mut writer = MessageWriter::new();
    writer.write_message(&[1, 2, 3], Ok(())).unwrap();
    let result = writer.finish_message(Err(io_error("broken pipe")));
    assert!(matches!(result, Err(MessageWriteError::StreamWrite(_))));
    assert_eq!(writer.pending(), &[3, 0, 0, 0, 1, 2, 3]);
}

#[test]
fn trying_an_unsent_message_again_sends_the_same_bytes() {
    let mut writer = MessageWriter::new();
    writer.write_message(&[1, 2, 3], Ok(())).unwrap();
    assert!(writer.finish_message(Err(io_error("broken pipe"))).is_err());
    writer.write_message(&[1, 2, 3], Ok(())).unwrap();
    assert_eq!(writer.pending(), &[3, 0, 0, 0, 1, 2, 3]);
}

#[test]
fn the_tail_of_a_longer_unsent_frame_follows_the_next_one() {
    let mut writer = MessageWriter::new();
    writer.write_message(&[1, 2, 3], Ok(())).unwrap();
    assert!(writer.finish_message(Err(io_error("broken pipe"))).is_err());
    writer.write_message(&[9], Ok(())).unwrap();
    assert_eq!(writer.pending(), &[1, 0, 0, 0, 9, 2, 3]);
}

#[test]
fn a_message_that_cannot_be_encoded_is_reported() {
    let mut writer = MessageWriter::new();
    let err = Box::new(bincode::ErrorKind::SequenceMustHaveLength);
    let result = writer.write_message(&[6, 6], Err(err));
    assert!(matches!(
        result,
        Err(MessageWriteError::Serialize(kind))
            if matches!(*kind, bincode::ErrorKind::SequenceMustHaveLength)
    ));
    assert_eq!(writer.pending(), &[0, 0, 0, 0, 6, 6]);
}

#[test]
fn the_end_of_the_stream_is_an_error() {
    let mut reader = MessageReader::new();
    let result = reader.read_message(Ok(Vec::new()));
    assert!(matches!(result, Err(MessageReadError::NoBytesRead)));
}

#[test]
fn a_failing_stream_is_an_error() {
    let mut reader = MessageReader::new();
    let result = reader.read_message(Err(io_error("connection reset")));
    assert!(matches!(result, Err(MessageReadError::StreamRead(_))));
}

#[test]
fn less_than_a_length_is_an_error_and_is_kept() {
    let mut reader = MessageReader::new();
    let result = reader.read_message(Ok(vec![1, 0, 0]));
    assert!(matches!(
        result,
        Err(MessageReadError::Bincode(kind)) if matches!(*kind, bincode::ErrorKind::Io(_))
    ));
    let result = reader.read_message(Ok(vec![0, 42]));
    assert!(matches!(result, Ok(ReadStep::Decode)));
    assert_eq!(reader.message_bytes(), &[42]);
}

#[test]
fn the_length_of_a_message_is_known_before_the_message() {
    let mut reader = MessageReader::new();
    assert_eq!(reader.message_len(), None);
    assert!(reader.read_message(Ok(vec![2, 1, 0])).is_err());
    assert_eq!(reader.message_len(), None);
    assert!(matches!(reader.read_message(Ok(vec![0])), Ok(ReadStep::ReadMore)));
    assert_eq!(reader.message_len(), Some(258));
}

#[test]
fn an_incomplete_message_waits_for_more() {
    let mut reader = MessageReader::new();
    assert!(matches!(reader.read_message(Ok(vec![3, 0, 0, 0])), Ok(ReadStep::ReadMore)));
    assert!(matches!(reader.read_message(Ok(vec![7, 8])), Ok(ReadStep::ReadMore)));
    assert!(matches!(reader.read_message(Ok(vec![9])), Ok(ReadStep::Decode)));
    assert_eq!(reader.message_bytes(), &[7, 8, 9]);
}

#[test]
fn every_byte_of_the_length_counts() {
    let mut reader = MessageReader::new();
    let result = reader.read_message(Ok(vec![0, 1, 0, 0, 5]));
    assert!(matches!(result, Ok(ReadStep::ReadMore)));
    assert!(matches!(reader.read_message(Ok(vec![5; 254])), Ok(ReadStep::ReadMore)));
    assert!(matches!(reader.read_message(Ok(vec![5])), Ok(ReadStep::Decode)));
}

#[test]
fn what_follows_a_message_is_kept() {
    let mut reader = MessageReader::new();
    let result = reader.read_message(Ok(vec![1, 0, 0, 0, 7, 2, 0, 0, 0, 8]));
    assert!(matches!(result, Ok(ReadStep::Decode)));
    reader.finish_message(Ok(1)).unwrap();
    assert!(matches!(reader.read_message(Ok(vec![9])), Ok(ReadStep::Decode)));
    assert_eq!(reader.message_bytes(), &[8, 9]);
    reader.finish_message(Ok(2)).unwrap();
    assert!(matches!(reader.read_message(Ok(vec![0, 0, 0, 0])), Ok(ReadStep::Decode)));
    assert!(reader.message_bytes().is_empty());
}

#[test]
fn the_decoder_decides_how_long_a_message_is() {
    let mut reader = MessageReader::new();
    assert!(matches!(reader.read_message(Ok(vec![1, 0, 0, 0, 7, 8, 9])), Ok(ReadStep::Decode)));
    reader.finish_message(Ok(2)).unwrap();
    assert!(matches!(reader.read_message(Ok(vec![0, 0, 0])), Ok(ReadStep::ReadMore)));
    assert!(reader.message_bytes().is_empty());
}

#[test]
fn a_message_that_cannot_be_decoded_is_kept() {
    let mut reader = MessageReader::new();
    assert!(matches!(reader.read_message(Ok(vec![1, 0, 0, 0, 7])), Ok(ReadStep::Decode)));
    let result = reader.finish_message(Err(Box::new(bincode::ErrorKind::InvalidBoolEncoding(7))));
    assert!(matches!(
        result,
        Err(MessageReadError::Bincode(kind))
            if matches!(*kind, bincode::ErrorKind::InvalidBoolEncoding(7))
    ));
    assert_eq!(reader.message_bytes(), &[7]);
}

#[test]
fn a_value_is_read_back_however_its_frame_is_cut() {
    let value = (0u32, "server".to_string(), vec![1u8, 2, 3, 4, 5]);
    let frame = framed(&bincode::serialize(&value).unwrap());
    for cut in 4..frame.len() {
        let mut reader = MessageReader::new();
        let result = reader.read_message(Ok(frame[..cut].to_vec()));
        assert!(matches!(result, Ok(ReadStep::ReadMore)));
        let mut end = frame[cut..].to_vec();
        end.extend_from_slice(&[99, 98]);
        assert!(matches!(reader.read_message(Ok(end)), Ok(ReadStep::Decode)));
        let mut cursor = std::io::Cursor::new(reader.message_bytes());
        let read: (u32, String, Vec<u8>) = bincode::deserialize_from(&mut cursor).unwrap();
        assert_eq!(read, value);
        let consumed = cursor.position() as usize;
        reader.finish_message(Ok(consumed)).unwrap();
        assert!(matches!(reader.read_message(Ok(vec![0, 0])), Ok(ReadStep::ReadMore)));
        assert!(reader.message_bytes().is_empty());
    }
}

#[test]
fn messages_are_read_in_the_order_in_which_they_were_written() {
    let mut writer = MessageWriter::new();
    let mut wire = Vec::new();
    for message in [vec![1u8], vec![], vec![2, 3, 4]] {
        writer.write_message(&message, Ok(())).unwrap();
        wire.extend_from_slice(writer.pending());
        writer.finish_message(Ok(())).unwrap();
    }
    let mut reader = MessageReader::new();
    let last = wire.split_off(wire.len() - 2);
    assert!(matches!(reader.read_message(Ok(wire)), Ok(ReadStep::Decode)));
    assert_eq!(reader.message_bytes()[0], 1);
    reader.finish_message(Ok(1)).unwrap();
    assert!(matches!(reader.read_message(Ok(vec![last[0]])), Ok(ReadStep::Decode)));
    reader.finish_message(Ok(0)).unwrap();
    assert!(matches!(reader.read_message(Ok(vec![last[1]])), Ok(ReadStep::Decode)));
    assert_eq!(reader.message_bytes(), &[2, 3, 4]);
}

#[test]
fn read_errors_are_shown() {
    assert_eq!(
        MessageReadError::NoBytesRead.display_text(),
        "Read 0 bytes from stream. The other end has likely disconnected."
    );
    assert_eq!(
        MessageReadError::StreamRead(io_error("reset")).display_text(),
        "Could not read from stream: reset"
    );
    assert_eq!(
        MessageReadError::Bincode(Box::new(bincode::ErrorKind::SizeLimit)).display_text(),
        "the size limit has been reached"
    );
    assert_eq!(stream_read_text("x"), "Could not read from stream: x");
}

#[test]
fn write_errors_are_shown() {
    assert_eq!(
        MessageWriteError::Serialize(Box::new(bincode::ErrorKind::SizeLimit)).display_text(),
        "Could not serialize message: the size limit has been reached"
    );
    assert_eq!(
        MessageWriteError::StreamWrite(io_error("broken pipe")).display_text(),
        "Could not write message to stream: broken pipe"
    );
    assert_eq!(serialize_text("x"), "Could not serialize message: x");
    assert_eq!(stream_write_text("x"), "Could not write message to stream: x");
}
