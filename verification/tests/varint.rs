use robo_arm::varint::{
    header_size, read_varint, varint_size, write_varint, EndOfInput, ReadVarintError,
    VarintReader, VarintStep,
};

fn encoded(n: usize) -> Vec<u8> {
    let mut out = Vec::new();
    write_varint(&mut out, n);
    out
}

#[test]
fn write_varint_small_values_take_one_byte() {
    assert_eq!(encoded(0), vec![0x00]);
    assert_eq!(encoded(1), vec![0x01]);
    assert_eq!(encoded(127), vec![0x7f]);
}

#[test]
fn write_varint_sets_continuation_bits() {
    assert_eq!(encoded(128), vec![0x80, 0x01]);
    assert_eq!(encoded(300), vec![0xac, 0x02]);
    assert_eq!(encoded(65535), vec![0xff, 0xff, 0x03]);
}

#[test]
fn write_varint_appends_to_what_is_there() {
    let mut out = vec![9u8, 9];
    write_varint(&mut out, 217);
    assert_eq!(out, vec![9, 9, 0xd9, 0x01]);
}

#[test]
fn read_varint_reads_back_what_was_written() {
    for n in [0usize, 1, 127, 128, 255, 300, 16383, 16384, 65535, 1 << 21, usize::MAX] {
        let bytes = encoded(n);
        assert_eq!(read_varint(&bytes), Ok((n, bytes.len())));
        assert_eq!(bytes.len(), header_size(n));
    }
}

#[test]
fn read_varint_ignores_what_follows_the_prefix() {
    assert_eq!(read_varint(&[0xac, 0x02, 0xff, 0xff]), Ok((300, 2)));
}

#[test]
fn read_varint_accepts_padded_encodings() {
    assert_eq!(read_varint(&[0x80, 0x00]), Ok((0, 2)));
}

#[test]
fn read_varint_reports_the_end_of_input() {
    assert_eq!(read_varint(&[]), Err(ReadVarintError::Other(EndOfInput)));
    assert_eq!(read_varint(&[0x80]), Err(ReadVarintError::Other(EndOfInput)));
    assert_eq!(read_varint(&[0xff, 0xff, 0x83]), Err(ReadVarintError::Other(EndOfInput)));
}

#[test]
fn read_varint_reports_overflow() {
    let too_long = [0x80u8; 16];
    assert_eq!(read_varint(&too_long), Err(ReadVarintError::Overflow));
    let mut too_large = encoded(usize::MAX);
    let last = too_large.len() - 1;
    too_large[last] += 1;
    assert_eq!(read_varint(&too_large), Err(ReadVarintError::Overflow));
}

#[test]
fn varint_reader_takes_bytes_one_at_a_time() {
    let mut reader = VarintReader::new();
    assert_eq!(reader.push(0xff), VarintStep::More);
    assert_eq!(reader.push(0xff), VarintStep::More);
    assert_eq!(reader.push(0x03), VarintStep::Done(65535));
    assert_eq!(reader.push(0x05), VarintStep::Done(5));
}

#[test]
fn varint_reader_starts_afresh_after_overflow() {
    let mut reader = VarintReader::new();
    let mut step = VarintStep::More;
    let mut taken = 0;
    while step == VarintStep::More {
        step = reader.push(0x80);
        taken += 1;
    }
    assert_eq!(step, VarintStep::Overflow);
    assert_eq!(taken, header_size(usize::MAX));
    assert_eq!(reader.push(0x07), VarintStep::Done(7));
}

#[test]
fn varint_size_counts_up_to_five_bytes() {
    assert_eq!(varint_size(0), 1);
    assert_eq!(varint_size(127), 1);
    assert_eq!(varint_size(128), 2);
    assert_eq!(varint_size((1 << 14) - 1), 2);
    assert_eq!(varint_size(1 << 14), 3);
    assert_eq!(varint_size((1 << 21) - 1), 3);
    assert_eq!(varint_size(1 << 21), 4);
    assert_eq!(varint_size((1 << 28) - 1), 4);
    assert_eq!(varint_size(1 << 28), 5);
    assert_eq!(varint_size(usize::MAX), 5);
}

#[test]
fn header_size_is_the_length_of_the_encoding() {
    assert_eq!(header_size(0), 1);
    assert_eq!(header_size(1), 1);
    assert_eq!(header_size(215), 2);
    assert_eq!(header_size(usize::MAX), encoded(usize::MAX).len());
}

#[test]
fn lengths_are_written_as_the_codec_writes_them() {
    for n in [0usize, 1, 127, 128, 16383, 16384, 65535, 1 << 28, usize::MAX] {
        let by_codec = postcard::to_vec::<u64, 10>(&(n as u64)).unwrap();
        assert_eq!(encoded(n), by_codec.to_vec());
        assert_eq!(postcard::from_bytes::<u64>(&encoded(n)).unwrap(), n as u64);
        assert_eq!(read_varint(&by_codec), Ok((n, by_codec.len())));
    }
}
