use c_hjkl::kbd::event::{decode_event, encode_event, InputEvent, EVENT_SIZE};
use c_hjkl::kbd::fault::Fault;

fn sample_record() -> Vec<u8> {
    vec![
        0x15, 0xcd, 0x5b, 0x07, 0, 0, 0, 0, // 123456789 seconds
        0x40, 0xe2, 0x01, 0, 0, 0, 0, 0, // 123456 microseconds
        0x01, 0x00, // key event
        0x23, 0x00, // code 35
        0x02, 0, 0, 0, // repeat
    ]
}

fn sample_event() -> InputEvent {
    InputEvent { tv_sec: 123456789, tv_usec: 123456, kind: 1, code: 35, value: 2 }
}

#[test]
fn record_is_24_bytes() {
    assert_eq!(EVENT_SIZE, 24);
    assert_eq!(sample_record().len(), EVENT_SIZE);
}

#[test]
fn decode_reads_each_field() {
    assert_eq!(decode_event(&sample_record()), Ok(sample_event()));
}

#[test]
fn decode_reads_high_bytes() {
    let mut record = vec![0u8; 24];
    record[7] = 0x01;
    record[15] = 0x02;
    record[17] = 0x03;
    record[19] = 0x04;
    record[23] = 0x05;
    assert_eq!(
        decode_event(&record),
        Ok(InputEvent {
            tv_sec: 0x0100_0000_0000_0000,
            tv_usec: 0x0200_0000_0000_0000,
            kind: 0x0300,
            code: 0x0400,
            value: 0x0500_0000,
        })
    );
}

#[test]
fn decode_reads_negative_numbers() {
    let mut record = vec![0xffu8; 24];
    record[8] = 0xfe;
    record[20] = 0xfd;
    assert_eq!(
        decode_event(&record),
        Ok(InputEvent { tv_sec: -1, tv_usec: -2, kind: 0xffff, code: 0xffff, value: -3 })
    );
}

#[test]
fn decode_reads_extremes() {
    let mut record = vec![0u8; 24];
    record[7] = 0x80;
    record[23] = 0x80;
    for b in record.iter_mut().take(15).skip(8) {
        *b = 0xff;
    }
    record[15] = 0x7f;
    assert_eq!(
        decode_event(&record),
        Ok(InputEvent { tv_sec: i64::MIN, tv_usec: i64::MAX, kind: 0, code: 0, value: i32::MIN })
    );
}

#[test]
fn decode_refuses_short_read() {
    let record = sample_record();
    for len in 0..EVENT_SIZE {
        assert_eq!(decode_event(&record[..len]), Err(Fault::PartialRead));
    }
}

#[test]
fn decode_refuses_empty_read() {
    assert_eq!(decode_event(&[]), Err(Fault::PartialRead));
}

#[test]
fn decode_refuses_more_than_one_record() {
    let mut record = sample_record();
    record.push(0);
    assert_eq!(decode_event(&record), Err(Fault::PartialRead));
    let mut two = sample_record();
    two.extend(sample_record());
    assert_eq!(decode_event(&two), Err(Fault::PartialRead));
}

#[test]
fn encode_writes_each_field() {
    assert_eq!(encode_event(&sample_event()), sample_record());
}

#[test]
fn encode_writes_negative_numbers() {
    let ev = InputEvent { tv_sec: -1, tv_usec: -2, kind: 0xffff, code: 0xffff, value: -3 };
    let mut record = vec![0xffu8; 24];
    record[8] = 0xfe;
    record[20] = 0xfd;
    assert_eq!(encode_event(&ev), record);
}

#[test]
fn encode_writes_extremes() {
    let ev = InputEvent { tv_sec: i64::MIN, tv_usec: i64::MAX, kind: 0, code: 0, value: i32::MAX };
    let record = encode_event(&ev);
    assert_eq!(&record[0..8], &[0, 0, 0, 0, 0, 0, 0, 0x80]);
    assert_eq!(&record[8..16], &[0xff, 0xff, 0xff, 0xff, 0xff, 0xff, 0xff, 0x7f]);
    assert_eq!(&record[16..20], &[0, 0, 0, 0]);
    assert_eq!(&record[20..24], &[0xff, 0xff, 0xff, 0x7f]);
}

#[test]
fn decode_undoes_encode() {
    let events = [
        sample_event(),
        InputEvent { tv_sec: 0, tv_usec: 0, kind: 0, code: 0, value: 0 },
        InputEvent { tv_sec: -5, tv_usec: 999_999, kind: 4, code: 4, value: 458_792 },
        InputEvent { tv_sec: i64::MAX, tv_usec: i64::MIN, kind: 0xffff, code: 0x2ff, value: i32::MIN },
        InputEvent { tv_sec: 1_700_000_000, tv_usec: 1, kind: 1, code: 58, value: -1 },
    ];
    for ev in events.iter() {
        let record = encode_event(ev);
        assert_eq!(record.len(), EVENT_SIZE);
        assert_eq!(decode_event(&record), Ok(*ev));
    }
}

#[test]
fn encode_undoes_decode() {
    let mut record = Vec::new();
    for i in 0..24u32 {
        record.push((i * 37 + 11) as u8);
    }
    let ev = decode_event(&record).unwrap();
    assert_eq!(encode_event(&ev), record);
}

#[test]
fn decoded_fields_match_native_integers() {
    let mut record = Vec::new();
    for i in 0..24u32 {
        record.push((i * 29 + 200) as u8);
    }
    let ev = decode_event(&record).unwrap();
    let mut eight = [0u8; 8];
    eight.copy_from_slice(&record[0..8]);
    assert_eq!(ev.tv_sec, i64::from_le_bytes(eight));
    eight.copy_from_slice(&record[8..16]);
    assert_eq!(ev.tv_usec, i64::from_le_bytes(eight));
    assert_eq!(ev.kind, u16::from_le_bytes([record[16], record[17]]));
    assert_eq!(ev.code, u16::from_le_bytes([record[18], record[19]]));
    let mut four = [0u8; 4];
    four.copy_from_slice(&record[20..24]);
    assert_eq!(ev.value, i32::from_le_bytes(four));
}
