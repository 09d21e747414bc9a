use sqrwallet::address::{derive_address, derive_valoper};
use sqrwallet::proto::pubkey_any_value;
use sqrwallet::text;

#[test]
fn trims_white_space_of_every_kind() {
    assert_eq!(text::trim(" \t\r\n abc d \u{3000}\u{a0}"), "abc d");
    assert_eq!(text::trim(" \u{2028} "), "");
    assert_eq!(text::trim("\u{200b}x"), "\u{200b}x");
}

#[test]
fn trims_only_slashes_at_the_end() {
    assert_eq!(text::trim_end_slashes("http://a/b//"), "http://a/b");
    assert_eq!(text::trim_end_slashes("///"), "");
    assert_eq!(text::trim_end_slashes("/a"), "/a");
}

#[test]
fn takes_what_stands_before_a_character() {
    assert_eq!(text::text_before("12.34.5", '.'), "12");
    assert_eq!(text::text_before("12", '.'), "12");
    assert_eq!(text::text_before(".5", '.'), "");
}

#[test]
fn writes_and_reads_numbers() {
    for n in [0u64, 9, 10, 65536, u64::MAX] {
        assert_eq!(text::decimal_text(n), n.to_string());
        assert_eq!(text::parse_number(&text::decimal_text(n)), Some(n));
    }
    assert_eq!(text::parse_number("+7"), Some(7));
    assert_eq!(text::parse_number("007"), Some(7));
    assert_eq!(text::parse_number("18446744073709551616"), None);
    for s in ["", "+", "-1", " 1", "1 ", "1.0", "++1", "0x1", "\u{661}"] {
        assert_eq!(text::parse_number(s), None);
        assert!(s.parse::<u64>().is_err());
    }
}

#[test]
fn compares_texts() {
    assert!(text::same_text("abc", "abc"));
    assert!(!text::same_text("abc", "abd"));
    assert!(!text::same_text("abc", "ab"));
    assert!(text::starts_with("/api/info", "/api/"));
    assert!(!text::starts_with("/api", "/api/"));
    assert!(text::equal_ignoring_case("X-Sequora-Token", "x-sequora-tOKEN"));
    assert!(!text::equal_ignoring_case("\u{c4}", "\u{e4}"));
    assert!(!text::equal_ignoring_case("a", "ab"));
}

#[test]
fn replaces_every_occurrence() {
    assert_eq!(text::replace_all("a__T__b__T____T__", "__T__", "x"), "axbxx");
    assert_eq!(text::replace_all("aaaa", "aa", "a"), "aa");
    assert_eq!(text::replace_all("aaa", "aa", "b"), "ba");
    assert_eq!(text::replace_all("abc", "x", "y"), "abc");
    assert_eq!(text::replace_all("", "x", "y"), "");
}

#[test]
fn frames_a_public_key() {
    assert_eq!(pubkey_any_value(&[]), vec![0x0a, 0x00]);
    assert_eq!(pubkey_any_value(&[7, 8]), vec![0x0a, 0x02, 7, 8]);
    let long = pubkey_any_value(&[1u8; 127]);
    assert_eq!(&long[..2], &[0x0a, 0x7f]);
    let longer = pubkey_any_value(&[1u8; 128]);
    assert_eq!(&longer[..3], &[0x0a, 0x80, 0x01]);
    let key = pubkey_any_value(&[1u8; 1952]);
    assert_eq!(&key[..3], &[0x0a, 0xa0, 0x0f]);
    assert_eq!(key.len(), 1955);
    let huge = pubkey_any_value(&vec![1u8; 20_000]);
    assert_eq!(&huge[..4], &[0x0a, 0xa0, 0x9c, 0x01]);
}

#[test]
fn a_framed_public_key_reads_back() {
    let pk: Vec<u8> = (0..300u32).map(|i| i as u8).collect();
    let framed = pubkey_any_value(&pk);
    let len = (framed[1] & 0x7f) as usize + ((framed[2] as usize) << 7);
    assert_eq!(len, 300);
    assert_eq!(&framed[3..], &pk[..]);
}

#[test]
fn derives_the_account_address() {
    assert_eq!(derive_address(b""), "sqr1uwcvgs5clswpfxhm7nyfjmaeysn6us0yv9lgnv");
    assert_eq!(derive_address(b"abc"), "sqr1hfupd0u0q8875s2pgr09mt3zywcqxcdryq0hed");
    let all: Vec<u8> = (0..=255u8).collect();
    assert_eq!(derive_address(&all), "sqr1gzhl96wjmzfzu3a063jgu6t8f9c4s7zlatadkx");
    assert_eq!(derive_address(&all).len(), 42);
}

#[test]
fn derives_the_validator_address() {
    assert_eq!(derive_valoper(b""), "sqrvaloper1uwcvgs5clswpfxhm7nyfjmaeysn6us0y6qk0de");
    assert_eq!(derive_valoper(b"abc"), "sqrvaloper1hfupd0u0q8875s2pgr09mt3zywcqxcdrj9xs8c");
    assert_eq!(derive_valoper(b"abc").len(), 49);
}

#[test]
fn both_addresses_hold_the_same_account() {
    for key in [&b""[..], b"abc", &[7u8; 1952]] {
        let (a, v) = (derive_address(key), derive_valoper(key));
        assert_eq!(&v[11..43], &a[4..36]);
        assert_ne!(&v[43..], &a[36..]);
        let (_, data, _) = bech32::decode(&a).unwrap();
        let (_, other, _) = bech32::decode(&v).unwrap();
        assert_eq!(data, other);
        assert_eq!(a, a.to_lowercase());
    }
}
