use imohash_rs::hasher::Imohash;
use imohash_rs::sampling::{windows, Window};

#[test]
fn short_input_is_one_window() {
    assert_eq!(
        windows(16384, 131072, 0),
        vec![Window { offset: 0, len: 0 }]
    );
    assert_eq!(
        windows(16384, 131072, 131071),
        vec![Window {
            offset: 0,
            len: 131071
        }]
    );
}

#[test]
fn long_input_is_three_windows() {
    assert_eq!(
        windows(16384, 131072, 131072),
        vec![
            Window {
                offset: 0,
                len: 16384
            },
            Window {
                offset: 65536,
                len: 16384
            },
            Window {
                offset: 114688,
                len: 16384
            },
        ]
    );
    assert_eq!(
        windows(3, 45, 45),
        vec![
            Window { offset: 0, len: 3 },
            Window { offset: 22, len: 3 },
            Window { offset: 42, len: 3 },
        ]
    );
}

#[test]
fn window_size_zero_is_one_window() {
    assert_eq!(windows(0, 10, 1000), vec![Window { offset: 0, len: 1000 }]);
}

#[test]
fn under_four_windows_is_one_window() {
    assert_eq!(windows(250, 20, 999), vec![Window { offset: 0, len: 999 }]);
    assert_eq!(
        windows(250, 20, 1000),
        vec![
            Window { offset: 0, len: 250 },
            Window {
                offset: 500,
                len: 250
            },
            Window {
                offset: 750,
                len: 250
            },
        ]
    );
}

#[test]
fn largest_input_and_window() {
    assert_eq!(
        windows(u32::MAX, 1, u64::MAX),
        vec![
            Window {
                offset: 0,
                len: 4294967295
            },
            Window {
                offset: u64::MAX / 2,
                len: 4294967295
            },
            Window {
                offset: u64::MAX - 4294967295,
                len: 4294967295
            },
        ]
    );
}

#[test]
fn plan_says_which_bytes_count() {
    let size = 4u32;
    let threshold = 30u32;
    let len = 64usize;
    let hasher = Imohash::new(Some(threshold), Some(size));
    let data: Vec<u8> = (0..len).map(|i| (i * 5 + 1) as u8).collect();
    let reference = hasher.get(&data);
    let plan = windows(size, threshold, len as u64);
    assert_eq!(plan.len(), 3);
    for index in 0..len {
        let read = plan
            .iter()
            .any(|w| w.offset <= index as u64 && (index as u64) < w.offset + w.len);
        let mut changed = data.clone();
        changed[index] ^= 0xff;
        if read {
            assert_ne!(hasher.get(&changed), reference, "index {}", index);
        } else {
            assert_eq!(hasher.get(&changed), reference, "index {}", index);
        }
    }
}

#[test]
fn digest_of_the_windows_alone_differs_only_in_the_length() {
    let size = 4u32;
    let threshold = 30u32;
    let hasher = Imohash::new(Some(threshold), Some(size));
    let whole = Imohash::new(Some(1000), Some(size));
    let data: Vec<u8> = (0..200usize).map(|i| (i * 3 + 2) as u8).collect();
    let mut gathered: Vec<u8> = Vec::new();
    for window in windows(size, threshold, data.len() as u64) {
        let start = window.offset as usize;
        gathered.extend_from_slice(&data[start..start + window.len as usize]);
    }
    assert_eq!(gathered.len(), 12);
    let sampled = hasher.get(&data).digest();
    let direct = whole.get(&gathered).digest();
    assert_eq!(sampled[..2], [0xc8, 0x01]);
    assert_eq!(direct[0], 12);
    assert_eq!(sampled[2..], direct[2..]);
}
