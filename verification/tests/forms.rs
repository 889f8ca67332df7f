use std::borrow::Borrow;
use std::cmp::Ordering;
use std::collections::{BTreeSet, HashSet};
use std::str::FromStr;

use shortguid::serial::{failure_message, SequenceReader, SequenceStep, Serialized, SEQUENCE_LENGTH};
use shortguid::{ParseError, ShortGuid};
use uuid::Uuid;

const SAMPLE: [u8; 16] = [
    0xa1, 0xa2, 0xa3, 0xa4, 0xb1, 0xb2, 0xc1, 0xc2, 0xd1, 0xd2, 0xd3, 0xd4, 0xd5, 0xd6, 0xd7, 0xd8,
];

fn samples() -> Vec<[u8; 16]> {
    let mut all = vec![[0u8; 16], [0xffu8; 16], SAMPLE];
    let mut bytes = [0u8; 16];
    for round in 0..40u32 {
        for (i, byte) in bytes.iter_mut().enumerate() {
            *byte = (round.wrapping_mul(2654435761).wrapping_add(i as u32 * 40503) >> 7) as u8;
        }
        all.push(bytes);
    }
    all
}

#[test]
fn encoding_is_decoded_back() {
    for bytes in samples() {
        let guid = ShortGuid::from_bytes(&bytes);
        let text = ShortGuid::encode(&guid);
        assert_eq!(ShortGuid::try_decode(&text).unwrap(), guid);
    }
}

#[test]
fn encoding_is_parsed_back_to_the_same_bytes() {
    for bytes in samples() {
        let text = ShortGuid::from_bytes(&bytes).to_string();
        assert_eq!(ShortGuid::try_parse(&text).unwrap().as_bytes(), &bytes);
    }
}

#[test]
fn encoding_has_twenty_two_url_safe_symbols() {
    for bytes in samples() {
        let text = ShortGuid::from_bytes(&bytes).to_string();
        assert_eq!(text.len(), 22);
        assert_eq!(text.chars().count(), 22);
        assert!(text
            .chars()
            .all(|c| c.is_ascii_alphanumeric() || c == '-' || c == '_'));
    }
}

#[test]
fn encoding_uses_the_url_safe_symbols() {
    let high = ShortGuid::from_bytes(&[0xff; 16]);
    assert_eq!(high.to_string(), "_____________________w");
    let mixed = ShortGuid::from_bytes(&[0xfb; 16]);
    assert_eq!(mixed.to_string(), "-_v7-_v7-_v7-_v7-_v7-w");
}

#[test]
fn nil_is_the_only_empty_identifier() {
    assert_eq!(ShortGuid::encode(&ShortGuid::from_bytes(&[0u8; 16])), "AAAAAAAAAAAAAAAAAAAAAA");
    assert!(ShortGuid::from_bytes(&[0u8; 16]).is_empty());
    for position in 0..16 {
        let mut bytes = [0u8; 16];
        bytes[position] = 1;
        assert!(!ShortGuid::from_bytes(&bytes).is_empty());
    }
    assert!(!ShortGuid::from_bytes(&SAMPLE).is_empty());
}

#[test]
fn empty_text_decodes_to_nil() {
    assert_eq!(ShortGuid::try_decode("").unwrap(), ShortGuid::default());
    assert_eq!(ShortGuid::try_parse("").unwrap(), ShortGuid::default());
    assert!(ShortGuid::try_parse("").unwrap().is_empty());
}

#[test]
fn both_forms_of_nil_parse_to_equal_values() {
    let long = ShortGuid::try_parse("00000000-0000-0000-0000-000000000000").unwrap();
    let short = ShortGuid::try_parse("AAAAAAAAAAAAAAAAAAAAAA").unwrap();
    assert_eq!(long, short);
    assert_eq!(long.as_bytes(), &[0u8; 16]);
}

#[test]
fn forms_compare_equal_across_representations() {
    let compact = "yaZG05xhTLe_ze4lIsj2Mw";
    let canonical = "c9a646d3-9c61-4cb7-bfcd-ee2522c8f633";
    let from_compact = ShortGuid::try_parse(compact).unwrap();
    let from_canonical = ShortGuid::try_parse(canonical).unwrap();
    assert_eq!(from_compact, from_canonical);
    assert_eq!(from_compact, canonical);
    assert_eq!(from_canonical, compact);
    assert_eq!(from_compact, compact);
    assert_eq!(from_canonical, canonical);
    assert_eq!(from_compact, canonical.to_string());
    assert_eq!(from_canonical, compact.to_string());
    assert!(from_compact == *canonical);
    assert_eq!(
        from_canonical.as_bytes(),
        &[
            0xc9, 0xa6, 0x46, 0xd3, 0x9c, 0x61, 0x4c, 0xb7, 0xbf, 0xcd, 0xee, 0x25, 0x22, 0xc8,
            0xf6, 0x33
        ]
    );
}

#[test]
fn hyphenated_form_is_read_in_either_case() {
    let lower = ShortGuid::try_parse("c9a646d3-9c61-4cb7-bfcd-ee2522c8f633").unwrap();
    let upper = ShortGuid::try_parse("C9A646D3-9C61-4CB7-BFCD-EE2522C8F633").unwrap();
    let mixed = ShortGuid::try_parse("c9A646d3-9C61-4cb7-BFCD-ee2522C8f633").unwrap();
    assert_eq!(lower, upper);
    assert_eq!(lower, mixed);
    assert_eq!(lower, "C9A646D3-9C61-4CB7-BFCD-EE2522C8F633");
}

#[test]
fn hyphenated_form_is_written_in_lower_case_and_read_back() {
    let guid = ShortGuid::from_bytes(&SAMPLE);
    assert_eq!(guid.to_canonical_string(), "a1a2a3a4-b1b2-c1c2-d1d2-d3d4d5d6d7d8");
    for bytes in samples() {
        let guid = ShortGuid::from_bytes(&bytes);
        let text = guid.to_canonical_string();
        assert_eq!(text.len(), 36);
        assert_eq!(ShortGuid::try_parse(&text).unwrap(), guid);
        assert_eq!(guid, text);
    }
    let low = ShortGuid::from_bytes(&[
        0x01, 0x23, 0x45, 0x67, 0x89, 0xab, 0xcd, 0xef, 0x10, 0x32, 0x54, 0x76, 0x98, 0xba, 0xdc,
        0xfe,
    ]);
    assert_eq!(low.to_canonical_string(), "01234567-89ab-cdef-1032-547698badcfe");
}

#[test]
fn debug_form_holds_both_texts() {
    let guid = ShortGuid::try_parse("c9a646d3-9c61-4cb7-bfcd-ee2522c8f633").unwrap();
    assert_eq!(
        guid.to_debug_string(),
        "yaZG05xhTLe_ze4lIsj2Mw (c9a646d3-9c61-4cb7-bfcd-ee2522c8f633)"
    );
    assert_eq!(guid.to_string(), "yaZG05xhTLe_ze4lIsj2Mw");
}

#[test]
fn wrong_lengths_are_reported_with_the_length_seen() {
    assert_eq!(
        ShortGuid::try_decode("Nothing to see here").unwrap_err(),
        ParseError::InvalidLength(19)
    );
    assert_eq!(
        ShortGuid::try_decode("Nothing to see here....").unwrap_err(),
        ParseError::InvalidLength(23)
    );
    assert_eq!(ShortGuid::try_decode("A").unwrap_err(), ParseError::InvalidLength(1));
    assert_eq!(
        ShortGuid::try_decode("AAAAAAAAAAAAAAAAAAAAA").unwrap_err(),
        ParseError::InvalidLength(21)
    );
    assert_eq!(
        ShortGuid::try_parse("AAAAAAAAAAAAAAAAAAAAAAA").unwrap_err(),
        ParseError::InvalidLength(23)
    );
    assert_eq!(
        ShortGuid::try_decode("c9a646d3-9c61-4cb7-bfcd-ee2522c8f633").unwrap_err(),
        ParseError::InvalidLength(36)
    );
}

#[test]
fn twenty_two_bytes_are_judged_by_their_content() {
    let error = ShortGuid::try_decode("Nothing to see here...").unwrap_err();
    assert_eq!(
        error,
        ParseError::InvalidFormat(base64::DecodeError::InvalidByte(7, b' '))
    );
    assert!(matches!(
        ShortGuid::try_parse("AAAAAAAAAAAAAAAAAAAAA=").unwrap_err(),
        ParseError::InvalidFormat(..)
    ));
    assert!(matches!(
        ShortGuid::try_parse("AAAAAAAAAAAAAAAAAAAA+/").unwrap_err(),
        ParseError::InvalidFormat(..)
    ));
    assert!(matches!(
        ShortGuid::try_parse("AAAAAAAAAAAAAAAAAAAAAB").unwrap_err(),
        ParseError::InvalidFormat(..)
    ));
    assert!(ShortGuid::try_parse("AAAAAAAAAAAAAAAAAAAAAQ").is_ok());
}

#[test]
fn length_is_counted_in_characters() {
    assert_eq!(
        ShortGuid::try_decode("\u{e9}").unwrap_err(),
        ParseError::InvalidLength(1)
    );
    let eleven_two_byte_letters = "\u{e9}".repeat(11);
    assert_eq!(eleven_two_byte_letters.len(), 22);
    assert_eq!(
        ShortGuid::try_decode(&eleven_two_byte_letters).unwrap_err(),
        ParseError::InvalidLength(11)
    );
    assert_eq!(
        ShortGuid::try_parse(&eleven_two_byte_letters).unwrap_err(),
        ParseError::InvalidLength(11)
    );
    let twenty_two_two_byte_letters = "\u{e9}".repeat(22);
    assert_eq!(twenty_two_two_byte_letters.len(), 44);
    assert!(matches!(
        ShortGuid::try_decode(&twenty_two_two_byte_letters).unwrap_err(),
        ParseError::InvalidFormat(..)
    ));
    assert!(matches!(
        ShortGuid::try_parse(&twenty_two_two_byte_letters).unwrap_err(),
        ParseError::InvalidFormat(..)
    ));
    let eighteen_two_byte_letters = "\u{e9}".repeat(18);
    assert_eq!(eighteen_two_byte_letters.len(), 36);
    assert_eq!(
        ShortGuid::try_parse(&eighteen_two_byte_letters).unwrap_err(),
        ParseError::InvalidLength(18)
    );
    let thirty_six_two_byte_letters = "\u{e9}".repeat(36);
    assert_eq!(
        ShortGuid::try_parse(&thirty_six_two_byte_letters).unwrap_err(),
        ParseError::InvalidLength(36)
    );
    let guid = ShortGuid::default();
    assert!(guid != eleven_two_byte_letters);
    assert!(guid != twenty_two_two_byte_letters);
    assert_eq!(
        ShortGuid::from_serialized_text(&eleven_two_byte_letters),
        Err("ShortGuid parsing failed: Invalid ID length; expected 22 characters, but got 11"
            .to_string())
    );
}

#[test]
fn only_the_hyphenated_uuid_form_is_accepted() {
    assert_eq!(
        ShortGuid::try_parse("c9a646d39c614cb7bfcdee2522c8f633").unwrap_err(),
        ParseError::InvalidLength(32)
    );
    assert_eq!(
        ShortGuid::try_parse("{c9a646d3-9c61-4cb7-bfcd-ee2522c8f633}").unwrap_err(),
        ParseError::InvalidLength(38)
    );
    assert_eq!(
        ShortGuid::try_parse("urn:uuid:c9a646d3-9c61-4cb7-bfcd-ee2522c8f633").unwrap_err(),
        ParseError::InvalidLength(45)
    );
    assert_eq!(
        ShortGuid::try_parse("c9a646d3-9c61-4cb7-bfcd_ee2522c8f633").unwrap_err(),
        ParseError::InvalidLength(36)
    );
    assert_eq!(
        ShortGuid::try_parse("c9a646d3-9c61-4cb7-bfcd-ee2522c8f63g").unwrap_err(),
        ParseError::InvalidLength(36)
    );
    assert_eq!(
        ShortGuid::try_parse("c9a646d39-c61-4cb7-bfcd-ee2522c8f633").unwrap_err(),
        ParseError::InvalidLength(36)
    );
    let guid = ShortGuid::try_parse("c9a646d3-9c61-4cb7-bfcd-ee2522c8f633").unwrap();
    assert!(guid != "c9a646d39c614cb7bfcdee2522c8f633");
    assert!(guid != "{c9a646d3-9c61-4cb7-bfcd-ee2522c8f633}");
}

#[test]
fn malformed_text_equals_nothing() {
    let guid = ShortGuid::from_bytes(&SAMPLE);
    assert!(guid != "Nothing to see here");
    assert!(guid != "Nothing to see here...");
    assert!(guid != "a1a2a3a4-b1b2-c1c2-d1d2-d3d4d5d6d7d");
    assert!(guid != "");
    assert!(ShortGuid::default() == "");
    assert!(ShortGuid::default() == String::new());
}

#[test]
fn errors_are_described_in_a_sentence() {
    assert_eq!(
        ParseError::InvalidLength(20).to_string(),
        "Invalid ID length; expected 22 characters, but got 20"
    );
    assert_eq!(
        ParseError::InvalidLength(0).to_string(),
        "Invalid ID length; expected 22 characters, but got 0"
    );
    assert_eq!(
        ParseError::InvalidLength(9).to_string(),
        "Invalid ID length; expected 22 characters, but got 9"
    );
    assert_eq!(
        ParseError::InvalidLength(10).to_string(),
        "Invalid ID length; expected 22 characters, but got 10"
    );
    assert_eq!(
        ParseError::InvalidLength(1234567890).to_string(),
        "Invalid ID length; expected 22 characters, but got 1234567890"
    );
    assert_eq!(
        ParseError::InvalidLength(usize::MAX).to_string(),
        format!("Invalid ID length; expected 22 characters, but got {}", usize::MAX)
    );
    assert_eq!(
        ShortGuid::try_decode("Nothing to see here...").unwrap_err().to_string(),
        "Invalid ID format: Invalid symbol 32, offset 7."
    );
    assert_eq!(
        ShortGuid::from_slice(b"hello_world").unwrap_err().to_string(),
        "Invalid slice: invalid length: expected 16 bytes, found 11"
    );
}

#[test]
fn little_endian_layout_swaps_the_first_three_fields() {
    let guid = ShortGuid::try_parse("a1a2a3a4-b1b2-c1c2-d1d2-d3d4d5d6d7d8").unwrap();
    assert_eq!(
        guid.to_bytes_le(),
        [
            0xa4, 0xa3, 0xa2, 0xa1, 0xb2, 0xb1, 0xc2, 0xc1, 0xd1, 0xd2, 0xd3, 0xd4, 0xd5, 0xd6,
            0xd7, 0xd8
        ]
    );
    assert_eq!(guid.to_bytes_le(), guid.as_uuid().to_bytes_le());
    for bytes in samples() {
        let guid = ShortGuid::from_bytes(&bytes);
        let twice = ShortGuid::from_bytes(&guid.to_bytes_le()).to_bytes_le();
        assert_eq!(twice, bytes);
    }
}

#[test]
fn byte_buffers_of_other_lengths_never_equal() {
    let guid = ShortGuid::from_bytes(&SAMPLE);
    for length in [0usize, 1, 15, 17, 32] {
        let buffer: Vec<u8> = SAMPLE.iter().cycle().take(length).copied().collect();
        assert!(guid != buffer);
        assert!(guid != buffer.as_slice());
    }
    let nil = ShortGuid::default();
    assert!(nil != Vec::<u8>::new());
    assert!(nil != vec![0u8; 17]);
    assert!(nil == vec![0u8; 16]);
}

#[test]
fn byte_buffers_of_sixteen_bytes_equal_by_content() {
    let guid = ShortGuid::from_bytes(&SAMPLE);
    assert!(guid == SAMPLE.to_vec());
    assert!(guid == &SAMPLE[..]);
    assert!(guid == SAMPLE);
    assert!(guid == &SAMPLE);
    let mut other = SAMPLE;
    other[15] ^= 1;
    assert!(guid != other.to_vec());
    assert!(guid != &other[..]);
    assert!(guid != other);
    assert!(guid != &other);
    assert!(guid != ShortGuid::from_bytes(&other));
}

#[test]
fn slices_must_hold_sixteen_bytes() {
    assert_eq!(ShortGuid::from_slice(&SAMPLE).unwrap().as_bytes(), &SAMPLE);
    for length in [0usize, 1, 15, 17] {
        let buffer = vec![7u8; length];
        assert!(matches!(
            ShortGuid::from_slice(&buffer).unwrap_err(),
            ParseError::InvalidSlice(..)
        ));
    }
}

#[test]
fn bytes_are_kept_as_given() {
    for bytes in samples() {
        assert_eq!(ShortGuid::from_bytes(&bytes).as_bytes(), &bytes);
        assert_eq!(ShortGuid::from_bytes_ref(&bytes).as_bytes(), &bytes);
        assert_eq!(ShortGuid::from_bytes(&bytes), ShortGuid::from_bytes_ref(&bytes));
    }
}

#[test]
fn uuids_convert_both_ways() {
    let uuid = Uuid::from_str("c9a646d3-9c61-4cb7-bfcd-ee2522c8f633").unwrap();
    let guid = ShortGuid::new_from_uuid(uuid);
    assert_eq!(guid.as_bytes(), uuid.as_bytes());
    assert_eq!(guid, uuid);
    assert_eq!(guid.as_uuid(), &uuid);
    assert_eq!(ShortGuid::from(uuid), guid);
    assert_eq!(Uuid::from(guid), uuid);
    let borrowed: &Uuid = guid.borrow();
    assert_eq!(borrowed, &uuid);
    let as_uuid: &Uuid = guid.as_ref();
    assert_eq!(as_uuid, &uuid);
    let as_bytes: &[u8] = guid.as_ref();
    assert_eq!(as_bytes, uuid.as_bytes());
    assert!(guid != Uuid::nil());
    assert!(ShortGuid::default() == Uuid::nil());
}

#[test]
fn text_converts_through_the_standard_traits() {
    let expected = ShortGuid::try_parse("yaZG05xhTLe_ze4lIsj2Mw").unwrap();
    assert_eq!(ShortGuid::try_from("yaZG05xhTLe_ze4lIsj2Mw").unwrap(), expected);
    assert_eq!(
        ShortGuid::try_from("c9a646d3-9c61-4cb7-bfcd-ee2522c8f633".to_string()).unwrap(),
        expected
    );
    assert_eq!("yaZG05xhTLe_ze4lIsj2Mw".parse::<ShortGuid>().unwrap(), expected);
    assert_eq!(
        ShortGuid::from_str("hello_world").unwrap_err(),
        ParseError::InvalidLength(11)
    );
    assert_eq!(
        ShortGuid::try_from("hello_world").unwrap_err(),
        ParseError::InvalidLength(11)
    );
}

#[test]
fn random_identifiers_are_version_four_and_differ() {
    let mut seen = HashSet::new();
    for _ in 0..64 {
        let guid = ShortGuid::new_random();
        assert!(!guid.is_empty());
        assert_eq!(guid.as_bytes()[6] >> 4, 4);
        assert_eq!(guid.as_bytes()[8] >> 6, 2);
        assert_eq!(guid.as_uuid().get_version_num(), 4);
        assert!(seen.insert(guid));
    }
}

#[test]
fn order_is_the_order_of_the_bytes() {
    let all = samples();
    for a in &all {
        for b in &all {
            let left = ShortGuid::from_bytes(a);
            let right = ShortGuid::from_bytes(b);
            assert_eq!(left.partial_cmp(&right), Some(a.cmp(b)));
            assert_eq!(left.cmp(&right), a.cmp(b));
            assert_eq!(left < right, a < b);
            assert_eq!(left <= right, a <= b);
            assert_eq!(left == right, a == b);
            assert_eq!(left.cmp(&right) == Ordering::Equal, left == right);
        }
    }
    let mut low = [0u8; 16];
    low[15] = 0xff;
    let mut high = [0u8; 16];
    high[0] = 1;
    assert!(ShortGuid::from_bytes(&low) < ShortGuid::from_bytes(&high));
    let sorted: BTreeSet<ShortGuid> = all.iter().map(ShortGuid::from_bytes).collect();
    let in_order: Vec<[u8; 16]> = sorted.iter().map(|guid| *guid.as_bytes()).collect();
    let mut expected = all.clone();
    expected.sort();
    expected.dedup();
    assert_eq!(in_order, expected);
}

#[test]
fn equal_identifiers_hash_alike() {
    let mut set = HashSet::new();
    set.insert(ShortGuid::try_parse("yaZG05xhTLe_ze4lIsj2Mw").unwrap());
    assert!(set.contains(&ShortGuid::try_parse("c9a646d3-9c61-4cb7-bfcd-ee2522c8f633").unwrap()));
    assert!(!set.contains(&ShortGuid::default()));
}

#[test]
fn serialized_forms_read_back() {
    for bytes in samples() {
        let guid = ShortGuid::from_bytes(&bytes);
        match guid.serialized(true) {
            Serialized::Text(text) => {
                assert_eq!(text, guid.to_string());
                assert_eq!(ShortGuid::from_serialized_text(&text), Ok(guid));
            }
            Serialized::Bytes(_) => panic!("a readable format gets the text"),
        }
        match guid.serialized(false) {
            Serialized::Bytes(raw) => {
                assert_eq!(raw, bytes);
                assert_eq!(ShortGuid::from_serialized_bytes(&raw), Ok(guid));
            }
            Serialized::Text(_) => panic!("a binary format gets the bytes"),
        }
    }
}

#[test]
fn serialized_text_is_read_in_either_form() {
    let guid = ShortGuid::try_parse("yaZG05xhTLe_ze4lIsj2Mw").unwrap();
    assert_eq!(
        ShortGuid::from_serialized_text("c9a646d3-9c61-4cb7-bfcd-ee2522c8f633"),
        Ok(guid)
    );
    assert_eq!(ShortGuid::from_serialized_text("yaZG05xhTLe_ze4lIsj2Mw"), Ok(guid));
}

#[test]
fn rejected_input_is_reported_with_the_cause() {
    assert_eq!(
        ShortGuid::from_serialized_text("Nothing to see here..."),
        Err("ShortGuid parsing failed: Invalid ID format: Invalid symbol 32, offset 7.".to_string())
    );
    assert_eq!(
        ShortGuid::from_serialized_bytes(b"hello_world"),
        Err("ShortGuid parsing failed: Invalid slice: invalid length: expected 16 bytes, found 11"
            .to_string())
    );
    assert_eq!(
        failure_message(&ParseError::InvalidLength(11)),
        "ShortGuid parsing failed: Invalid ID length; expected 22 characters, but got 11"
    );
}

#[test]
fn short_sequences_are_rejected() {
    assert_eq!(SEQUENCE_LENGTH, 16);
    for length in 0..16usize {
        let mut reader = SequenceReader::new();
        for byte in 0..length {
            match reader.accept(Some(byte as u8)) {
                SequenceStep::More(next) => reader = next,
                _ => panic!("element {} of {} must be taken", byte, length),
            }
        }
        match reader.accept(None) {
            SequenceStep::TooShort(expected) => assert_eq!(expected, 16),
            _ => panic!("a sequence of {} elements is too short", length),
        }
    }
}

#[test]
fn sequences_are_read_in_order() {
    let mut reader = SequenceReader::new();
    for byte in &SAMPLE[..15] {
        match reader.accept(Some(*byte)) {
            SequenceStep::More(next) => reader = next,
            _ => panic!("fifteen elements do not complete an identifier"),
        }
    }
    match reader.accept(Some(SAMPLE[15])) {
        SequenceStep::Done(guid) => assert_eq!(guid.as_bytes(), &SAMPLE),
        _ => panic!("the sixteenth element completes the identifier"),
    }
}

#[test]
fn decoded_bytes_must_be_sixteen() {
    assert_eq!(
        ShortGuid::from_decoded(Ok(SAMPLE.to_vec())).unwrap().as_bytes(),
        &SAMPLE
    );
    assert_eq!(
        ShortGuid::from_decoded(Ok(vec![1, 2, 3])).unwrap_err(),
        ParseError::InvalidLength(3)
    );
    assert_eq!(
        ShortGuid::from_decoded(Ok(Vec::new())).unwrap_err(),
        ParseError::InvalidLength(0)
    );
    assert_eq!(
        ShortGuid::from_decoded(Ok(vec![0; 17])).unwrap_err(),
        ParseError::InvalidLength(17)
    );
    assert_eq!(
        ShortGuid::from_decoded(Err(base64::DecodeError::InvalidPadding)).unwrap_err(),
        ParseError::InvalidFormat(base64::DecodeError::InvalidPadding)
    );
}

#[test]
fn decoder_errors_become_format_errors() {
    assert_eq!(
        ParseError::from(base64::DecodeError::InvalidLength(3)),
        ParseError::InvalidFormat(base64::DecodeError::InvalidLength(3))
    );
    assert_eq!(
        ParseError::from(base64::DecodeError::InvalidLastSymbol(21, b'B')).to_string(),
        "Invalid ID format: Invalid last symbol 66, offset 21."
    );
    assert_eq!(
        ShortGuid::try_decode("AAAAAAAAAAAAAAAAAAAAAB").unwrap_err(),
        ParseError::InvalidFormat(base64::DecodeError::InvalidLastSymbol(21, b'B'))
    );
}

#[test]
fn identifiers_are_found_by_their_uuid() {
    let guid = ShortGuid::try_parse("yaZG05xhTLe_ze4lIsj2Mw").unwrap();
    let uuid: Uuid = guid.into();
    let mut sorted = BTreeSet::new();
    sorted.insert(guid);
    assert!(sorted.contains(&uuid));
    assert!(!sorted.contains(&Uuid::nil()));
    let mut hashed = HashSet::new();
    hashed.insert(guid);
    assert!(hashed.contains(&uuid));
    assert!(!hashed.contains(&Uuid::nil()));
}
