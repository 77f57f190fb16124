use opengles::attribute::{decode, AttributeKind, AttributeList, AttributeListBuilder,
    AttributePair, DriverAttributeKey, TERMINATOR};
use opengles::cgl::{kCGLPFAAccelerated, kCGLPFAAuxBuffers, kCGLPFAColorSize, kCGLPFADepthSize,
    kCGLPFADoubleBuffer, kCGLPFAOpenGLProfile, kCGLPFASamples, kCGLPFAStereo,
    kCGLPFAVirtualScreenCount, CORE_BOOLEAN_ATTRIBUTES, CORE_INTEGER_ATTRIBUTES};
use opengles::error::AttributeError;

fn key(token: i32) -> DriverAttributeKey {
    DriverAttributeKey::new(token)
}

#[test]
fn request_is_encoded_in_order_with_one_terminator() {
    let pairs: Vec<AttributePair> = vec![
        (key(kCGLPFADoubleBuffer), None),
        (key(kCGLPFAColorSize), Some(24)),
        (key(kCGLPFADepthSize), Some(16)),
    ];
    let list = AttributeList::build(&pairs).unwrap();
    assert_eq!(
        list.as_slice(),
        &[kCGLPFADoubleBuffer, kCGLPFAColorSize, 24, kCGLPFADepthSize, 16, 0]
    );
    assert_eq!(list.as_slice(), &[5, 8, 24, 12, 16, 0]);
    assert_eq!(list.len(), 6);
}

#[test]
fn empty_request_is_the_terminator_alone() {
    let list = AttributeList::build(&[]).unwrap();
    assert_eq!(list.as_slice(), &[TERMINATOR]);
    assert_eq!(list.len(), 1);
    assert_eq!(list.decode(), vec![]);
}

#[test]
fn boolean_key_is_written_alone_and_read_back_without_value() {
    let list = AttributeList::build(&[(key(kCGLPFADoubleBuffer), None)]).unwrap();
    assert_eq!(list.as_slice(), &[5, 0]);
    assert_eq!(list.decode(), vec![(key(5), None)]);
}

#[test]
fn value_given_with_a_boolean_key_is_ignored() {
    let list = AttributeList::build(&[(key(kCGLPFAStereo), Some(1))]).unwrap();
    assert_eq!(list.as_slice(), &[6, 0]);
    assert_eq!(list.decode(), vec![(key(6), None)]);
}

#[test]
fn valued_key_is_followed_by_its_value() {
    let list = AttributeList::build(&[(key(kCGLPFASamples), Some(4))]).unwrap();
    assert_eq!(list.as_slice(), &[56, 4, 0]);
    assert_eq!(list.decode(), vec![(key(56), Some(4))]);
}

#[test]
fn zero_value_of_a_valued_key_does_not_end_the_list() {
    let pairs: Vec<AttributePair> =
        vec![(key(kCGLPFADepthSize), Some(0)), (key(kCGLPFAAccelerated), None)];
    let list = AttributeList::build(&pairs).unwrap();
    assert_eq!(list.as_slice(), &[12, 0, 73, 0]);
    assert_eq!(list.decode(), pairs);
    assert_eq!(*list.as_slice().last().unwrap(), 0);
}

#[test]
fn negative_value_is_kept() {
    let list = AttributeList::build(&[(key(kCGLPFAOpenGLProfile), Some(-1))]).unwrap();
    assert_eq!(list.as_slice(), &[99, -1, 0]);
}

#[test]
fn valued_key_without_value_is_missing_value() {
    let r = AttributeList::build(&[(key(kCGLPFAColorSize), None)]);
    assert_eq!(r, Err(AttributeError::MissingValue));
}

#[test]
fn one_missing_value_fails_the_whole_request() {
    let pairs: Vec<AttributePair> = vec![
        (key(kCGLPFADoubleBuffer), None),
        (key(kCGLPFAColorSize), Some(24)),
        (key(kCGLPFAVirtualScreenCount), None),
        (key(kCGLPFAStereo), None),
    ];
    assert_eq!(AttributeList::build(&pairs), Err(AttributeError::MissingValue));
}

#[test]
fn unknown_key_is_passed_through_alone() {
    let list = AttributeList::build(&[(key(4), None)]).unwrap();
    assert_eq!(list.as_slice(), &[4, 0]);
    assert_eq!(list.decode(), vec![(key(4), None)]);
}

#[test]
fn value_given_with_an_unknown_key_is_ignored() {
    let list = AttributeList::build(&[(key(0x8010), Some(1))]).unwrap();
    assert_eq!(list.as_slice(), &[0x8010, 0]);
    assert_eq!(list.decode(), vec![(key(0x8010), None)]);
}

#[test]
fn zero_given_with_an_unknown_key_does_not_end_the_list() {
    let pairs: Vec<AttributePair> = vec![(key(0x8010), Some(0)), (key(kCGLPFADoubleBuffer), None)];
    let list = AttributeList::build(&pairs).unwrap();
    assert_eq!(list.as_slice(), &[0x8010, 5, 0]);
    assert_eq!(list.decode(), vec![(key(0x8010), None), (key(5), None)]);
}

#[test]
fn every_list_holds_zero_in_key_position_only_at_the_end() {
    let pairs: Vec<AttributePair> = vec![
        (key(kCGLPFAColorSize), Some(0)),
        (key(0x8010), Some(0)),
        (key(kCGLPFAStereo), Some(0)),
        (key(kCGLPFADepthSize), Some(0)),
    ];
    let list = AttributeList::build(&pairs).unwrap();
    assert_eq!(list.as_slice(), &[8, 0, 0x8010, 6, 12, 0, 0]);
    assert_eq!(
        list.decode(),
        vec![(key(8), Some(0)), (key(0x8010), None), (key(6), None), (key(12), Some(0))]
    );
    assert_eq!(decode(list.as_slice()), Some(list.decode()));
}

#[test]
fn every_boolean_attribute_is_boolean() {
    assert_eq!(CORE_BOOLEAN_ATTRIBUTES.len(), 27);
    for token in CORE_BOOLEAN_ATTRIBUTES {
        assert_eq!(key(token).kind(), AttributeKind::Boolean);
        let list = AttributeList::build(&[(key(token), Some(9))]).unwrap();
        assert_eq!(list.as_slice(), &[token, 0]);
        assert_eq!(list.decode(), vec![(key(token), None)]);
    }
}

#[test]
fn every_integer_attribute_is_valued() {
    assert_eq!(CORE_INTEGER_ATTRIBUTES.len(), 11);
    for token in CORE_INTEGER_ATTRIBUTES {
        assert_eq!(key(token).kind(), AttributeKind::Valued);
        let list = AttributeList::build(&[(key(token), Some(9))]).unwrap();
        assert_eq!(list.as_slice(), &[token, 9, 0]);
        assert_eq!(list.decode(), vec![(key(token), Some(9))]);
        assert_eq!(
            AttributeList::build(&[(key(token), None)]),
            Err(AttributeError::MissingValue)
        );
    }
}

#[test]
fn keys_outside_the_tables_are_unknown() {
    assert_eq!(key(0).kind(), AttributeKind::Unknown);
    assert_eq!(key(4).kind(), AttributeKind::Unknown);
    assert_eq!(key(2).kind(), AttributeKind::Unknown);
    assert_eq!(key(-5).kind(), AttributeKind::Unknown);
    assert_eq!(key(129).kind(), AttributeKind::Unknown);
    assert_eq!(key(kCGLPFAAuxBuffers).kind(), AttributeKind::Boolean);
}

#[test]
fn decode_needs_a_terminator() {
    assert_eq!(decode(&[]), None);
    assert_eq!(decode(&[5]), None);
    assert_eq!(decode(&[8, 24]), None);
}

#[test]
fn decode_refuses_tokens_after_the_terminator() {
    assert_eq!(decode(&[5, 0, 6, 0]), None);
    assert_eq!(decode(&[0, 0]), None);
}

#[test]
fn decode_refuses_a_valued_key_at_the_end() {
    assert_eq!(decode(&[5, 8]), None);
}

#[test]
fn decode_takes_the_token_after_a_valued_key_as_its_value() {
    assert_eq!(decode(&[8, 0]), None);
    assert_eq!(decode(&[8, 0, 0]), Some(vec![(key(8), Some(0))]));
    assert_eq!(decode(&[8, 5, 0]), Some(vec![(key(8), Some(5))]));
}

#[test]
fn decode_reads_pairs_in_order() {
    assert_eq!(
        decode(&[5, 8, 24, 12, 16, 0]),
        Some(vec![(key(5), None), (key(8), Some(24)), (key(12), Some(16))])
    );
    assert_eq!(decode(&[0]), Some(vec![]));
}

#[test]
fn builder_collects_pairs_and_encodes_them_once() {
    let mut builder = AttributeListBuilder::new();
    assert!(!builder.is_finalized());
    assert_eq!(builder.push(key(kCGLPFADoubleBuffer), None), Ok(()));
    assert_eq!(builder.push(key(kCGLPFAColorSize), Some(24)), Ok(()));
    assert_eq!(builder.push(key(kCGLPFADepthSize), Some(16)), Ok(()));
    let list = builder.finalize().unwrap();
    assert!(builder.is_finalized());
    assert_eq!(list.as_slice(), &[5, 8, 24, 12, 16, 0]);
}

#[test]
fn builder_refuses_a_valued_key_without_value_and_goes_on() {
    let mut builder = AttributeListBuilder::new();
    assert_eq!(builder.push(key(kCGLPFAColorSize), None), Err(AttributeError::MissingValue));
    assert!(!builder.is_finalized());
    assert_eq!(builder.push(key(kCGLPFAColorSize), Some(32)), Ok(()));
    assert_eq!(builder.finalize().unwrap().as_slice(), &[8, 32, 0]);
}

#[test]
fn finalized_builder_refuses_to_be_extended() {
    let mut builder = AttributeListBuilder::new();
    assert_eq!(builder.push(key(kCGLPFADoubleBuffer), None), Ok(()));
    let list = builder.finalize().unwrap();
    assert_eq!(
        builder.push(key(kCGLPFAColorSize), Some(24)),
        Err(AttributeError::AlreadyFinalized)
    );
    assert_eq!(builder.push(key(kCGLPFAStereo), None), Err(AttributeError::AlreadyFinalized));
    assert_eq!(builder.push(key(kCGLPFAColorSize), None), Err(AttributeError::AlreadyFinalized));
    assert!(builder.is_finalized());
    assert_eq!(list.as_slice(), &[5, 0]);
}

#[test]
fn finalized_builder_refuses_to_be_finalized_again() {
    let mut builder = AttributeListBuilder::new();
    assert_eq!(builder.finalize().unwrap().as_slice(), &[0]);
    assert_eq!(builder.finalize(), Err(AttributeError::AlreadyFinalized));
    assert!(builder.is_finalized());
}
