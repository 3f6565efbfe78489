use imohash_rs::digest;

#[test]
fn new_keeps_the_value() {
    let hash = digest::Hash::new(0x0123_4567_89ab_cdef_0011_2233_4455_6677);
    assert_eq!(hash.to_u128(), 0x0123_4567_89ab_cdef_0011_2233_4455_6677);
    assert_eq!(digest::Hash::new(0).to_u128(), 0);
    assert_eq!(digest::Hash::new(u128::MAX).to_u128(), u128::MAX);
}

#[test]
fn digest_is_sixteen_little_endian_bytes() {
    let hash = digest::Hash::new(0x0f0e_0d0c_0b0a_0908_0706_0504_0302_0100);
    assert_eq!(
        hash.digest(),
        vec![0u8, 1, 2, 3, 4, 5, 6, 7, 8, 9, 10, 11, 12, 13, 14, 15]
    );
    assert_eq!(digest::Hash::new(1).digest(), {
        let mut bytes = vec![0u8; 16];
        bytes[0] = 1;
        bytes
    });
    assert_eq!(digest::Hash::new(u128::MAX).digest(), vec![0xffu8; 16]);
}

#[test]
fn hexdigest_is_lowercase_text_of_the_bytes() {
    let hash = digest::Hash::new(0x0f0e_0d0c_0b0a_0908_0706_0504_0302_0100);
    assert_eq!(hash.hexdigest(), "000102030405060708090a0b0c0d0e0f");
    assert_eq!(digest::Hash::new(0).hexdigest(), "00000000000000000000000000000000");
    assert_eq!(
        digest::Hash::new(0xab).hexdigest(),
        "ab000000000000000000000000000000"
    );
    assert_eq!(
        digest::Hash::new(u128::MAX).hexdigest(),
        "ffffffffffffffffffffffffffffffff"
    );
}

#[test]
fn hexdigest_has_thirty_two_digits() {
    let values = [0u128, 1, 0xdead_beef, u128::MAX, 1u128 << 127];
    for value in values {
        let text = digest::Hash::new(value).hexdigest();
        assert_eq!(text.len(), 32);
        assert!(text
            .chars()
            .all(|c| c.is_ascii_digit() || ('a'..='f').contains(&c)));
    }
}

#[test]
fn hex_and_bytes_round_trip() {
    let values = [
        0u128,
        1,
        0x1234_5678_9abc_def0,
        0xfedc_ba98_7654_3210_0123_4567_89ab_cdef,
        u128::MAX,
    ];
    for value in values {
        let hash = digest::Hash::new(value);
        let bytes = hash.digest();
        let text = hash.hexdigest();
        let back = hex::decode(&text).unwrap();
        assert_eq!(back, bytes);
        assert_eq!(hex::encode(&back), text);
        let mut array = [0u8; 16];
        array.copy_from_slice(&back);
        assert_eq!(u128::from_le_bytes(array), value);
    }
}

#[test]
fn digests_are_equal_iff_values_are() {
    assert_eq!(digest::Hash::new(42), digest::Hash::new(42));
    assert_ne!(digest::Hash::new(42), digest::Hash::new(43));
    assert_ne!(digest::Hash::new(1), digest::Hash::new(1u128 << 64));
    let copy = digest::Hash::new(7);
    let same = copy;
    assert_eq!(copy, same);
    assert_eq!(copy.clone(), same);
}

#[test]
fn repr_shows_the_value_in_decimal() {
    assert_eq!(digest::Hash::new(0).repr(), "Hash(value=0)");
    assert_eq!(digest::Hash::new(9).repr(), "Hash(value=9)");
    assert_eq!(digest::Hash::new(10).repr(), "Hash(value=10)");
    assert_eq!(digest::Hash::new(123).repr(), "Hash(value=123)");
    assert_eq!(digest::Hash::new(1000).repr(), "Hash(value=1000)");
    assert_eq!(digest::Hash::new(9090909).repr(), "Hash(value=9090909)");
    assert_eq!(
        digest::Hash::new(1u128 << 64).repr(),
        "Hash(value=18446744073709551616)"
    );
    assert_eq!(
        digest::Hash::new(u128::MAX).repr(),
        "Hash(value=340282366920938463463374607431768211455)"
    );
}
