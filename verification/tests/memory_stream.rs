use rust_sfml::system::{InputStream, MemoryInputStream};

#[test]
fn reads_whole_buffer_at_once() {
    let data: Vec<u8> = vec![1, 2, 3, 4, 5];
    let mut stream = MemoryInputStream::default();
    stream.open(&data, data.len());

    let mut buffer = vec![0u8; 5];
    assert_eq!(stream.read(&mut buffer, 5), 5);

    assert_eq!(buffer, vec![1, 2, 3, 4, 5]);
    assert_eq!(stream.tell(), 5);
}

#[test]
fn chunked_reads_reproduce_the_buffer() {
    let data: Vec<u8> = vec![10, 11, 12, 13, 14, 15, 16, 17, 18, 19];
    for chunk in 1..=10i64 {
        let mut stream = MemoryInputStream::default();
        stream.open(&data, data.len());
        let mut collected: Vec<u8> = Vec::new();
        let mut reads = 0;
        loop {
            let mut buffer = vec![0u8; chunk as usize];
            let count = stream.read(&mut buffer, chunk);
            assert!(count >= 0 && count <= chunk);
            if count == 0 {
                break;
            }
            collected.extend_from_slice(&buffer[..count as usize]);
            reads += 1;
        }
        assert_eq!(collected, data);
        assert_eq!(stream.tell(), 10);
        assert_eq!(reads, (10 + chunk - 1) / chunk);
    }
}

#[test]
fn chunks_of_three_over_ten_bytes() {
    let data: Vec<u8> = vec![0, 1, 2, 3, 4, 5, 6, 7, 8, 9];
    let mut stream = MemoryInputStream::default();
    stream.open(&data, 10);
    let mut buffer = [0xffu8; 3];
    assert_eq!(stream.read(&mut buffer, 3), 3);
    assert_eq!(buffer, [0, 1, 2]);
    assert_eq!(stream.read(&mut buffer, 3), 3);
    assert_eq!(buffer, [3, 4, 5]);
    assert_eq!(stream.read(&mut buffer, 3), 3);
    assert_eq!(buffer, [6, 7, 8]);
    assert_eq!(stream.read(&mut buffer, 3), 1);
    assert_eq!(buffer, [9, 7, 8]);
    assert_eq!(stream.tell(), 10);
    assert_eq!(stream.read(&mut buffer, 3), 0);
    assert_eq!(buffer, [9, 7, 8]);
    assert_eq!(stream.tell(), 10);
}

#[test]
fn seek_past_end_is_clamped() {
    let data = [0u8; 10];
    let mut stream = MemoryInputStream::default();
    stream.open(&data, 10);
    assert_eq!(stream.seek(15), 10);
    assert_eq!(stream.tell(), 10);
    let mut buffer = [7u8; 4];
    assert_eq!(stream.read(&mut buffer, 4), 0);
    assert_eq!(buffer, [7u8; 4]);
}

#[test]
fn seek_within_bounds_and_to_the_end() {
    let data = [0u8, 1, 2, 3, 4, 5, 6, 7, 8, 9];
    let mut stream = MemoryInputStream::default();
    stream.open(&data, 10);
    assert_eq!(stream.seek(0), 0);
    assert_eq!(stream.seek(9), 9);
    assert_eq!(stream.tell(), 9);
    assert_eq!(stream.seek(10), 10);
    assert_eq!(stream.seek(4), 4);
    let mut buffer = [0u8; 2];
    assert_eq!(stream.read(&mut buffer, 2), 2);
    assert_eq!(buffer, [4, 5]);
    assert_eq!(stream.tell(), 6);
    assert_eq!(stream.seek(i64::MAX), 10);
}

#[test]
fn short_read_near_the_end() {
    let data = [20u8, 21, 22, 23, 24];
    let mut stream = MemoryInputStream::default();
    stream.open(&data, 5);
    assert_eq!(stream.seek(3), 3);
    let mut buffer = [0xaau8; 10];
    assert_eq!(stream.read(&mut buffer, 10), 2);
    assert_eq!(&buffer[..2], &data[3..5]);
    assert_eq!(&buffer[2..], &[0xaau8; 8]);
    assert_eq!(stream.tell(), 5);
}

#[test]
fn unopened_stream_fails() {
    let mut stream = MemoryInputStream::default();
    let mut buffer = [9u8; 4];
    assert_eq!(stream.read(&mut buffer, 4), -1);
    assert_eq!(buffer, [9u8; 4]);
    assert_eq!(stream.seek(0), -1);
    assert_eq!(stream.seek(3), -1);
    assert_eq!(stream.size(), -1);
    assert_eq!(stream.tell(), -1);
}

#[test]
fn size_and_tell_after_open() {
    let data = [1u8, 2, 3];
    let mut stream = MemoryInputStream::default();
    stream.open(&data, 3);
    assert_eq!(stream.size(), 3);
    assert_eq!(stream.tell(), 0);
}

#[test]
fn empty_buffer_is_open_and_at_its_end() {
    let data: [u8; 0] = [];
    let mut stream = MemoryInputStream::default();
    stream.open(&data, 0);
    assert_eq!(stream.size(), 0);
    assert_eq!(stream.tell(), 0);
    assert_eq!(stream.seek(5), 0);
    let mut buffer = [3u8; 2];
    assert_eq!(stream.read(&mut buffer, 2), 0);
    assert_eq!(buffer, [3u8; 2]);
}

#[test]
fn open_binds_a_prefix() {
    let data = [1u8, 2, 3, 4, 5, 6];
    let mut stream = MemoryInputStream::default();
    stream.open(&data, 4);
    assert_eq!(stream.size(), 4);
    let mut buffer = [0u8; 6];
    assert_eq!(stream.read(&mut buffer, 6), 4);
    assert_eq!(buffer, [1, 2, 3, 4, 0, 0]);
}

#[test]
fn reopening_rebinds_and_rewinds() {
    let first = [1u8, 2, 3];
    let second = [7u8, 8, 9, 10];
    let mut stream = MemoryInputStream::default();
    stream.open(&first, 3);
    assert_eq!(stream.seek(2), 2);
    stream.open(&second, 4);
    assert_eq!(stream.tell(), 0);
    assert_eq!(stream.size(), 4);
    let mut buffer = [0u8; 4];
    assert_eq!(stream.read(&mut buffer, 4), 4);
    assert_eq!(buffer, second);
}

#[test]
fn zero_and_negative_requests_copy_nothing() {
    let data = [1u8, 2, 3];
    let mut stream = MemoryInputStream::default();
    stream.open(&data, 3);
    assert_eq!(stream.seek(1), 1);
    let mut buffer = [5u8; 3];
    assert_eq!(stream.read(&mut buffer, 0), 0);
    assert_eq!(stream.tell(), 1);
    assert_eq!(stream.read(&mut buffer, -5), -5);
    assert_eq!(stream.tell(), 1);
    assert_eq!(buffer, [5u8; 3]);
}

#[test]
fn read_leaves_the_tail_of_the_destination() {
    let data = [1u8, 2, 3, 4];
    let mut stream = MemoryInputStream::default();
    stream.open(&data, 4);
    let mut buffer = [0xeeu8; 6];
    assert_eq!(stream.read(&mut buffer, 2), 2);
    assert_eq!(buffer, [1, 2, 0xee, 0xee, 0xee, 0xee]);
}

fn drain<S: InputStream>(stream: &mut S, chunk: i64) -> Vec<u8> {
    let mut out = Vec::new();
    loop {
        let mut buffer = vec![0u8; chunk as usize];
        let count = stream.read(&mut buffer, chunk);
        if count <= 0 {
            return out;
        }
        out.extend_from_slice(&buffer[..count as usize]);
    }
}

#[test]
fn stream_is_usable_through_the_trait() {
    let data: Vec<u8> = (0u8..=99).collect();
    let mut stream = MemoryInputStream::default();
    stream.open(&data, data.len());
    assert_eq!(stream.seek(40), 40);
    assert_eq!(drain(&mut stream, 7), data[40..].to_vec());
    assert_eq!(stream.tell(), 100);
}
