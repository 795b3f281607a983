use cityhash64::city_hash_64;

fn pattern(n: usize) -> Vec<u8> {
    (0..n).map(|i| ((i * 131 + 7) & 0xff) as u8).collect()
}

#[test]
fn repeated_calls_agree() {
    for n in [0usize, 3, 16, 17, 40, 65, 200] {
        let b = pattern(n);
        assert_eq!(city_hash_64(&b), city_hash_64(&b));
    }
}

#[test]
fn equal_contents_in_distinct_buffers_agree() {
    for n in [0usize, 1, 9, 30, 64, 129, 500] {
        let a = pattern(n);
        let b: Vec<u8> = a.iter().copied().collect();
        assert_eq!(city_hash_64(&a), city_hash_64(&b));
        assert_eq!(city_hash_64(&a[..]), city_hash_64(b.as_slice()));
    }
}

#[test]
fn every_length_up_to_three_hundred_hashes() {
    let b = pattern(300);
    let mut seen = std::collections::HashSet::new();
    for n in 0..=300usize {
        seen.insert(city_hash_64(&b[..n]));
    }
    assert_eq!(seen.len(), 301);
}

#[test]
fn bucket_boundaries() {
    let b = pattern(130);
    for n in [1usize, 3, 4, 8, 9, 16, 17, 32, 33, 64, 65, 128, 129] {
        assert_ne!(city_hash_64(&b[..n]), city_hash_64(&b[..n - 1]));
    }
}

#[test]
fn one_byte_change_changes_the_hash() {
    for n in [17usize, 24, 32, 33, 50, 64, 65, 100, 128] {
        let base = pattern(n);
        let h = city_hash_64(&base);
        for i in 0..n {
            let mut changed = base.clone();
            changed[i] ^= 0x01;
            assert_ne!(city_hash_64(&changed), h, "length {} byte {}", n, i);
        }
    }
}

#[test]
fn long_rounds_reread_the_first_block() {
    let zeros = vec![0u8; 200];
    let mut changed = zeros.clone();
    changed[100] = 0xff;
    assert_eq!(city_hash_64(&zeros), city_hash_64(&changed));

    let base = pattern(129);
    let mut changed = base.clone();
    changed[64] ^= 0xff;
    assert_eq!(city_hash_64(&base), city_hash_64(&changed));
    changed[63] ^= 0xff;
    assert_ne!(city_hash_64(&base), city_hash_64(&changed));
}
