use dump_transfer::error::DumpError;
use dump_transfer::reader::{ChunkedFileReader, ReadOutcome, ReadStep, DEFAULT_CHUNK_SIZE};
use dump_transfer::writer::{ChunkedFileWriter, WriterAction, WriterEvent, WriterPhase};

fn sample(len: usize) -> Vec<u8> {
    (0..len).map(|i| (i * 31 % 251) as u8).collect()
}

/// Reads `file` through a reader as a transport would, and returns the chunks.
fn download(file: &[u8], chunk_size: usize) -> Vec<Vec<u8>> {
    let mut reader = ChunkedFileReader::new(chunk_size);
    let mut buf = reader.new_buffer();
    let mut pos = 0;
    let mut chunks = Vec::new();
    loop {
        let n = std::cmp::min(buf.len(), file.len() - pos);
        buf[..n].copy_from_slice(&file[pos..pos + n]);
        pos += n;
        match reader.on_read(&buf, ReadOutcome::Ready(n)) {
            ReadStep::Chunk(c) => chunks.push(c),
            ReadStep::End => break,
            other => panic!("unexpected step {:?}", other),
        }
    }
    assert!(reader.is_finished());
    chunks
}

#[test]
fn download_reproduces_file() {
    let file = sample(5000);
    let chunks = download(&file, DEFAULT_CHUNK_SIZE);
    assert_eq!(chunks.len(), 5);
    assert_eq!(chunks[4].len(), 5000 - 4 * 1024);
    assert_eq!(chunks.concat(), file);
}

#[test]
fn download_of_empty_file_is_empty() {
    assert!(download(&[], 16).is_empty());
}

#[test]
fn chunk_size_does_not_change_output() {
    let file = sample(777);
    let one = download(&file, 1);
    let whole = download(&file, file.len());
    assert_eq!(one.len(), 777);
    assert_eq!(whole.len(), 1);
    assert_eq!(one.concat(), whole.concat());
    assert_eq!(whole.concat(), file);
}

#[test]
fn read_steps() {
    let mut reader = ChunkedFileReader::new(4);
    assert_eq!(reader.chunk_size(), 4);
    let buf = vec![1u8, 2, 3, 4];
    assert!(matches!(reader.on_read(&buf, ReadOutcome::NotReady), ReadStep::Wait));
    match reader.on_read(&buf, ReadOutcome::Ready(2)) {
        ReadStep::Chunk(c) => assert_eq!(c, vec![1u8, 2]),
        other => panic!("unexpected step {:?}", other),
    }
    assert!(matches!(reader.on_read(&buf, ReadOutcome::Ready(5)), ReadStep::Error(DumpError::Internal)));
    assert!(reader.is_finished());
}

#[test]
fn read_failure_ends_stream() {
    let mut reader = ChunkedFileReader::new(4);
    let buf = reader.new_buffer();
    assert!(matches!(reader.on_read(&buf, ReadOutcome::Failed), ReadStep::Error(DumpError::Internal)));
    assert!(matches!(reader.on_read(&buf, ReadOutcome::Ready(4)), ReadStep::End));
}

#[test]
fn aborted_download_reads_no_more() {
    let mut reader = ChunkedFileReader::new(4);
    let buf = vec![9u8; 4];
    assert!(matches!(reader.on_read(&buf, ReadOutcome::Ready(4)), ReadStep::Chunk(_)));
    reader.abort();
    assert!(reader.is_finished());
    assert!(matches!(reader.on_read(&buf, ReadOutcome::Ready(4)), ReadStep::End));
}

/// A destination that accepts only part of each write, and is often not ready.
struct SlowFile {
    data: Vec<u8>,
    state: u64,
}

impl SlowFile {
    fn poll_write(&mut self, bytes: &[u8]) -> WriterEvent {
        self.state = self.state.wrapping_mul(6364136223846793005).wrapping_add(1442695040888963407);
        let r = (self.state >> 33) as usize;
        if r % 3 == 0 {
            return WriterEvent::WriteNotReady;
        }
        let n = std::cmp::min(bytes.len(), 1 + r % 5000);
        self.data.extend_from_slice(&bytes[..n]);
        WriterEvent::Written(n)
    }
}

#[test]
fn slow_upload_keeps_every_byte_in_order() {
    let part = sample(10 * 1024 * 1024);
    let mut field = part.chunks(64 * 1024);
    let mut file = SlowFile { data: Vec::new(), state: 7 };
    let mut writer = ChunkedFileWriter::new();
    let mut in_flight: Vec<u8> = Vec::new();
    let mut action = WriterAction::Pull;
    loop {
        let event = match action {
            WriterAction::Pull => match field.next() {
                Some(c) => WriterEvent::FieldChunk(c.to_vec()),
                None => WriterEvent::FieldEnd,
            },
            WriterAction::Write(bytes) => {
                in_flight = bytes;
                file.poll_write(&in_flight)
            }
            WriterAction::Wait => file.poll_write(&in_flight),
            WriterAction::Finish => break,
            WriterAction::Fail(e) => panic!("upload failed: {:?}", e),
        };
        action = writer.on_event(event);
    }
    assert_eq!(writer.phase(), WriterPhase::Complete);
    assert_eq!(file.data.len(), part.len());
    assert!(file.data == part);
}

#[test]
fn short_write_continues_with_rest() {
    let mut writer = ChunkedFileWriter::new();
    match writer.on_event(WriterEvent::FieldChunk(vec![1, 2, 3, 4, 5])) {
        WriterAction::Write(b) => assert_eq!(b, vec![1u8, 2, 3, 4, 5]),
        other => panic!("unexpected action {:?}", other),
    }
    assert!(matches!(writer.on_event(WriterEvent::WriteNotReady), WriterAction::Wait));
    match writer.on_event(WriterEvent::Written(2)) {
        WriterAction::Write(b) => assert_eq!(b, vec![3u8, 4, 5]),
        other => panic!("unexpected action {:?}", other),
    }
    assert!(matches!(writer.on_event(WriterEvent::Written(3)), WriterAction::Pull));
    assert!(matches!(writer.on_event(WriterEvent::FieldChunk(Vec::new())), WriterAction::Pull));
    assert!(matches!(writer.on_event(WriterEvent::FieldEnd), WriterAction::Finish));
    assert_eq!(writer.phase(), WriterPhase::Complete);
    assert!(matches!(writer.abort(), WriterAction::Finish));
}

#[test]
fn write_failure_fails_upload() {
    let mut writer = ChunkedFileWriter::new();
    writer.on_event(WriterEvent::FieldChunk(vec![1, 2]));
    assert!(matches!(writer.on_event(WriterEvent::WriteFailed), WriterAction::Fail(DumpError::Internal)));
    assert_eq!(writer.phase(), WriterPhase::Failed);
    assert!(matches!(writer.on_event(WriterEvent::FieldEnd), WriterAction::Fail(DumpError::Internal)));
}

#[test]
fn zero_or_excess_write_fails_upload() {
    let mut writer = ChunkedFileWriter::new();
    writer.on_event(WriterEvent::FieldChunk(vec![1, 2]));
    assert!(matches!(writer.on_event(WriterEvent::Written(0)), WriterAction::Fail(DumpError::Internal)));
    let mut writer = ChunkedFileWriter::new();
    writer.on_event(WriterEvent::FieldChunk(vec![1, 2]));
    assert!(matches!(writer.on_event(WriterEvent::Written(3)), WriterAction::Fail(DumpError::Internal)));
}

#[test]
fn field_failure_and_pull_ahead_fail_upload() {
    let mut writer = ChunkedFileWriter::new();
    assert!(matches!(writer.on_event(WriterEvent::FieldFailed), WriterAction::Fail(DumpError::Internal)));
    let mut writer = ChunkedFileWriter::new();
    writer.on_event(WriterEvent::FieldChunk(vec![1]));
    assert!(matches!(writer.on_event(WriterEvent::FieldChunk(vec![2])), WriterAction::Fail(DumpError::Internal)));
}

#[test]
fn aborted_upload_fails() {
    let mut writer = ChunkedFileWriter::new();
    writer.on_event(WriterEvent::FieldChunk(vec![1, 2, 3]));
    assert!(matches!(writer.abort(), WriterAction::Fail(DumpError::Internal)));
    assert_eq!(writer.phase(), WriterPhase::Failed);
}
