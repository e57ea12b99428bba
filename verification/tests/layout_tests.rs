use count::counter::GlobalCounter;
use count::layout::{decode_record, encode_record, DISCRIMINATOR_LEN, RECORD_LEN};

const DISC: [u8; 8] = [0xAA, 0xBB, 0xCC, 0xDD, 0xEE, 0xFF, 0x11, 0x22];

#[test]
fn record_is_sixteen_bytes() {
    assert_eq!(DISCRIMINATOR_LEN, 8);
    assert_eq!(RECORD_LEN, 16);
    let bytes = encode_record(&DISC, &GlobalCounter { count: 0 });
    assert_eq!(bytes.len(), 16);
}

#[test]
fn encode_writes_discriminator_then_little_endian_count() {
    let record = GlobalCounter {
        count: 0x0102_0304_0506_0708,
    };
    let bytes = encode_record(&DISC, &record);
    let expected: Vec<u8> = vec![
        0xAA, 0xBB, 0xCC, 0xDD, 0xEE, 0xFF, 0x11, 0x22, // discriminator
        0x08, 0x07, 0x06, 0x05, 0x04, 0x03, 0x02, 0x01, // count, little endian
    ];
    assert_eq!(bytes, expected);
}

#[test]
fn decode_reads_an_encoded_record_back() {
    let record = GlobalCounter { count: 12345 };
    let bytes = encode_record(&DISC, &record);
    assert_eq!(decode_record(&bytes, &DISC), Some(record));
}

#[test]
fn decode_refuses_wrong_length() {
    let record = GlobalCounter { count: 1 };
    let bytes = encode_record(&DISC, &record);
    assert_eq!(decode_record(&bytes[..15], &DISC), None);
    let mut longer = bytes.clone();
    longer.push(0);
    assert_eq!(decode_record(&longer, &DISC), None);
}

#[test]
fn decode_refuses_wrong_discriminator() {
    let record = GlobalCounter { count: 1 };
    let bytes = encode_record(&DISC, &record);
    let other: [u8; 8] = [0xAA, 0xBB, 0xCC, 0xDD, 0xEE, 0xFF, 0x11, 0x23];
    assert_eq!(decode_record(&bytes, &other), None);
}
