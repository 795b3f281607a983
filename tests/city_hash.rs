use cityhash64::city_hash_64;
use cityhash64::mix::K2;

fn pattern(n: usize) -> Vec<u8> {
    (0..n).map(|i| ((i * 37 + 11) & 0xff) as u8).collect()
}

#[test]
fn empty_input_hashes_to_k2() {
    assert_eq!(city_hash_64(b""), 0x9ae16a3b2f90404f);
    assert_eq!(city_hash_64(&[]), K2);
}

#[test]
fn single_zero_byte() {
    assert_eq!(city_hash_64(&[0u8]), 0x085f654e398e757c);
}

#[test]
fn known_strings() {
    assert_eq!(city_hash_64(b"a"), 2603192927274642682);
    assert_eq!(city_hash_64(b"ab"), 1725057946192985918);
    assert_eq!(city_hash_64(b"abc"), 4220206313085259313);
    assert_eq!(city_hash_64(b"abcd"), 17823623939509273229);
    assert_eq!(city_hash_64(b"hello"), 2578220239953316063);
    assert_eq!(city_hash_64(b"abcdefgh"), 4864636163090995991);
    assert_eq!(city_hash_64(b"abcdefghi"), 7406163328168016081);
    assert_eq!(city_hash_64(b"ClickHouse"), 12904064065176299341);
}

#[test]
fn short_bucket_vectors() {
    assert_eq!(city_hash_64(&pattern(1)), 0x043648e8f1e3d715);
    assert_eq!(city_hash_64(&pattern(2)), 0xb0fc551ca99c7e3b);
    assert_eq!(city_hash_64(&pattern(3)), 0xa2c53c985be56a2f);
    assert_eq!(city_hash_64(&pattern(4)), 0x4157856f6d3ce3b2);
    assert_eq!(city_hash_64(&pattern(5)), 0x7aad1a6d83efa3f6);
    assert_eq!(city_hash_64(&pattern(7)), 0xaa87bbc29eb056f8);
    assert_eq!(city_hash_64(&pattern(8)), 0x897131b7f17d0588);
    assert_eq!(city_hash_64(&pattern(9)), 0x281e9dea0fbe631e);
    assert_eq!(city_hash_64(&pattern(12)), 0xd83c0c300ed1c939);
    assert_eq!(city_hash_64(&pattern(15)), 0x20ae8c43c566c708);
    assert_eq!(city_hash_64(&pattern(16)), 0x3292ee8642e63927);
}

#[test]
fn medium_bucket_vectors() {
    assert_eq!(city_hash_64(&pattern(17)), 0x3040ae7626e452e2);
    assert_eq!(city_hash_64(&pattern(18)), 0x7593a4e1c0f3e184);
    assert_eq!(city_hash_64(&pattern(24)), 0x2cb938ac4656d500);
    assert_eq!(city_hash_64(&pattern(31)), 0xb9e7afb4f03ec431);
    assert_eq!(city_hash_64(&pattern(32)), 0xe1eae5f14516be5b);
}

#[test]
fn upper_medium_bucket_vectors() {
    assert_eq!(city_hash_64(&pattern(33)), 0xeef23c18cef14a71);
    assert_eq!(city_hash_64(&pattern(34)), 0x2a2293c87961461f);
    assert_eq!(city_hash_64(&pattern(40)), 0x08ec26ff267fb3e4);
    assert_eq!(city_hash_64(&pattern(48)), 0x27d060c1e60ac8d0);
    assert_eq!(city_hash_64(&pattern(63)), 0x876a77ee6ed307e8);
    assert_eq!(city_hash_64(&pattern(64)), 0x40f9113eba41913b);
}

#[test]
fn long_single_round_vectors() {
    assert_eq!(city_hash_64(&pattern(65)), 0xcfd9a46175f104cf);
    assert_eq!(city_hash_64(&pattern(66)), 0x138c0edfb57fdfd8);
    assert_eq!(city_hash_64(&pattern(100)), 0xf074b092dd9ea48b);
    assert_eq!(city_hash_64(&pattern(127)), 0x0d9c850067303140);
    assert_eq!(city_hash_64(&pattern(128)), 0xe89d932b069b7c56);
}

#[test]
fn long_repeated_round_vectors() {
    assert_eq!(city_hash_64(&pattern(129)), 0x2beb71705eb0ef28);
    assert_eq!(city_hash_64(&pattern(192)), 0x52ca902377fbd79f);
    assert_eq!(city_hash_64(&pattern(200)), 0xd5a9ba8ff1c6b42b);
    assert_eq!(city_hash_64(&pattern(256)), 0x15244e16f54feb0d);
    assert_eq!(city_hash_64(&pattern(1000)), 0x2870e52996d9e368);
}
