use psbt_serialize::{ChildNumber, Deserialize, Error, Fingerprint, KeySource, Serialize};

fn source(fingerprint: [u8; 4], steps: &[u32]) -> KeySource {
    let mut path: Vec<ChildNumber> = Vec::new();
    for n in steps {
        path.push(ChildNumber::from(*n));
    }
    (Fingerprint::from(fingerprint), path)
}

#[test]
fn key_source_example_end_to_end() {
    let value = source([0xde, 0xad, 0xbe, 0xef], &[0, 0x8000_0001]);
    let bytes = value.serialize();
    assert_eq!(
        bytes,
        vec![0xde, 0xad, 0xbe, 0xef, 0x00, 0x00, 0x00, 0x00, 0x01, 0x00, 0x00, 0x80]
    );
    let back = <KeySource as Deserialize>::deserialize(&bytes).unwrap();
    assert_eq!(back, value);
    assert_eq!(back.0, Fingerprint { bytes: [0xde, 0xad, 0xbe, 0xef] });
    assert_eq!(
        back.1,
        vec![ChildNumber::Normal { index: 0 }, ChildNumber::Hardened { index: 1 }]
    );
}

#[test]
fn key_source_of_sixteen_bytes_has_three_steps_in_order() {
    let bytes = [
        0x01, 0x02, 0x03, 0x04, // fingerprint
        0x2c, 0x00, 0x00, 0x80, // 44'
        0x00, 0x00, 0x00, 0x80, // 0'
        0x05, 0x00, 0x00, 0x00, // 5
    ];
    let (fingerprint, path) = <KeySource as Deserialize>::deserialize(&bytes).unwrap();
    assert_eq!(fingerprint.to_bytes(), [1, 2, 3, 4]);
    assert_eq!(path.len(), 3);
    assert_eq!(path[0], ChildNumber::Hardened { index: 44 });
    assert_eq!(path[1], ChildNumber::Hardened { index: 0 });
    assert_eq!(path[2], ChildNumber::Normal { index: 5 });
    let as_numbers: Vec<u32> = path.iter().map(|step| u32::from(*step)).collect();
    assert_eq!(as_numbers, vec![0x8000_002c, 0x8000_0000, 5]);
}

#[test]
fn key_source_of_six_bytes_is_too_short() {
    let bytes = [0xde, 0xad, 0xbe, 0xef, 0x01, 0x02];
    assert_eq!(<KeySource as Deserialize>::deserialize(&bytes), Err(Error::UnexpectedEof));
}

#[test]
fn key_source_of_the_fingerprint_alone_is_refused() {
    let bytes = [0xde, 0xad, 0xbe, 0xef];
    assert_eq!(<KeySource as Deserialize>::deserialize(&bytes), Err(Error::UnexpectedEof));
}

#[test]
fn key_source_shorter_than_a_fingerprint_is_too_short() {
    assert_eq!(<KeySource as Deserialize>::deserialize(&[]), Err(Error::UnexpectedEof));
    assert_eq!(<KeySource as Deserialize>::deserialize(&[1]), Err(Error::UnexpectedEof));
    assert_eq!(<KeySource as Deserialize>::deserialize(&[1, 2]), Err(Error::UnexpectedEof));
    assert_eq!(<KeySource as Deserialize>::deserialize(&[1, 2, 3]), Err(Error::UnexpectedEof));
}

#[test]
fn key_source_with_a_step_cut_off_is_too_short() {
    for len in [5usize, 6, 7, 9, 10, 11, 13, 17, 18, 19] {
        let bytes = vec![0x11u8; len];
        assert_eq!(
            <KeySource as Deserialize>::deserialize(&bytes),
            Err(Error::UnexpectedEof),
            "length {}",
            len
        );
    }
}

#[test]
fn key_source_of_whole_steps_is_read() {
    for steps in 1usize..6 {
        let bytes = vec![0x11u8; 4 + 4 * steps];
        let (fingerprint, path) = <KeySource as Deserialize>::deserialize(&bytes).unwrap();
        assert_eq!(fingerprint.to_bytes(), [0x11; 4]);
        assert_eq!(path, vec![ChildNumber::Normal { index: 0x1111_1111 }; steps]);
    }
}

#[test]
fn key_source_is_written_in_four_bytes_for_each_part() {
    for steps in 0usize..8 {
        let numbers: Vec<u32> = (0..steps).map(|i| i as u32 * 3).collect();
        let value = source([9, 9, 9, 9], &numbers);
        assert_eq!(value.serialize().len(), 4 + 4 * steps);
    }
}

#[test]
fn key_source_without_steps_is_written_but_not_read_back() {
    let value = source([0xaa, 0xbb, 0xcc, 0xdd], &[]);
    let bytes = value.serialize();
    assert_eq!(bytes, vec![0xaa, 0xbb, 0xcc, 0xdd]);
    assert_eq!(<KeySource as Deserialize>::deserialize(&bytes), Err(Error::UnexpectedEof));
}

#[test]
fn key_source_round_trip() {
    let cases: Vec<KeySource> = vec![
        source([0, 0, 0, 0], &[0]),
        source([0xff, 0xff, 0xff, 0xff], &[u32::MAX]),
        source([0x5c, 0x9e, 0x22, 0x8d], &[0x8000_0054, 0x8000_0000, 0x8000_0000, 0, 17]),
        source([1, 2, 3, 4], &[0x7fff_ffff, 0x8000_0000, 1, 2, 3, 4, 5, 6, 7, 8, 9, 10]),
    ];
    for value in cases {
        let bytes = value.serialize();
        assert_eq!(<KeySource as Deserialize>::deserialize(&bytes), Ok(value));
    }
}

#[test]
fn key_source_bytes_round_trip() {
    let bytes: Vec<u8> = (0u8..24).map(|i| i.wrapping_mul(37)).collect();
    let value = <KeySource as Deserialize>::deserialize(&bytes).unwrap();
    assert_eq!(value.1.len(), 5);
    assert_eq!(value.serialize(), bytes);
}

#[test]
fn key_source_step_with_an_index_too_large_does_not_come_back() {
    let value: KeySource =
        (Fingerprint::from([1, 2, 3, 4]), vec![ChildNumber::Normal { index: 0x8000_0000 }]);
    let bytes = value.serialize();
    assert_eq!(bytes, vec![1, 2, 3, 4, 0x00, 0x00, 0x00, 0x80]);
    let back = <KeySource as Deserialize>::deserialize(&bytes).unwrap();
    assert_eq!(back.1, vec![ChildNumber::Hardened { index: 0 }]);
}
