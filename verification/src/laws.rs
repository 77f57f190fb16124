//! What holds of the attribute-list protocol as a whole: encoding and
//! decoding are inverse, every pair stands where the pairs before it end,
//! and the terminator is reached only at the end.

use vstd::prelude::*;
use crate::attribute::{accepted, all_canonical, canonical, decoded, encoded, encoded_pair,
    encoded_pairs, kind_of, lemma_encoded_pairs_concat, normalized, normalized_all, prepended,
    shifted, terminator_position, AttributePair, DriverAttributeKey, TERMINATOR};
use crate::cgl::{lemma_attribute_tables, CGLPixelFormatAttribute};
use crate::types::GLint;

verus! {

/// The encoding of a request is the encoding of its first pair followed by
/// the encoding of the rest.
pub proof fn lemma_encoded_unfold(pairs: Seq<AttributePair>)
    requires
        pairs.len() > 0,
    ensures
        encoded(pairs) == encoded_pair(pairs.first()) + encoded(pairs.drop_first()),
{
}

/// A reader that meets the tokens of a canonical pair takes exactly that
/// pair off the front: it decodes to the normalized pair followed by what
/// the rest decodes to, and the reader stops where it would stop in the
/// rest alone.
pub proof fn lemma_decoded_pair(pair: AttributePair, tail: Seq<CGLPixelFormatAttribute>)
    requires
        canonical(pair),
    ensures
        decoded(encoded_pair(pair) + tail) == prepended(seq![normalized(pair)], decoded(tail)),
        terminator_position(encoded_pair(pair) + tail) == shifted(
            terminator_position(tail),
            encoded_pair(pair).len() as int,
        ),
{
    let tokens = encoded_pair(pair) + tail;
    if pair.0.spec_kind() is Valued {
        assert(tokens.skip(2) =~= tail);
    } else {
        assert(tokens.skip(1) =~= tail);
    }
}

/// Decoding undoes encoding. For every request whose pairs are canonical,
/// the encoded list decodes to the same pairs in the same order, each key
/// that is not valued without a value.
pub proof fn lemma_round_trip(pairs: Seq<AttributePair>)
    requires
        all_canonical(pairs),
    ensures
        decoded(encoded(pairs)) == Some(normalized_all(pairs)),
    decreases pairs.len(),
{
    if pairs.len() > 0 {
        let rest = pairs.drop_first();
        lemma_round_trip(rest);
        lemma_encoded_unfold(pairs);
        lemma_decoded_pair(pairs.first(), encoded(rest));
    }
}

/// Encoding undoes decoding. Every token sequence that decodes at all is
/// the attribute list of the request that it decodes to, and that request
/// is canonical.
pub proof fn lemma_decode_then_encode(tokens: Seq<CGLPixelFormatAttribute>)
    requires
        decoded(tokens) is Some,
    ensures
        all_canonical(decoded(tokens).unwrap()),
        encoded(decoded(tokens).unwrap()) == tokens,
    decreases tokens.len(),
{
    let pairs = decoded(tokens).unwrap();
    if tokens[0] != TERMINATOR {
        let width: int = if kind_of(tokens[0]) is Valued {
            2
        } else {
            1
        };
        let rest = tokens.skip(width);
        lemma_decode_then_encode(rest);
        assert(pairs.drop_first() =~= decoded(rest).unwrap());
        lemma_encoded_unfold(pairs);
    }
}

/// Different requests have different attribute lists: two canonical
/// requests with the same encoding agree pair by pair.
pub proof fn lemma_encoding_is_injective(a: Seq<AttributePair>, b: Seq<AttributePair>)
    requires
        all_canonical(a),
        all_canonical(b),
        encoded(a) == encoded(b),
    ensures
        normalized_all(a) == normalized_all(b),
{
    lemma_round_trip(a);
    lemma_round_trip(b);
}

/// The terminator of an encoded list appears exactly once, as its last
/// token: a reader of the list of a canonical request stops there and
/// nowhere before.
pub proof fn lemma_terminator_is_last(pairs: Seq<AttributePair>)
    requires
        all_canonical(pairs),
    ensures
        encoded(pairs).last() == TERMINATOR,
        terminator_position(encoded(pairs)) == Some(encoded(pairs).len() - 1),
    decreases pairs.len(),
{
    if pairs.len() > 0 {
        let rest = pairs.drop_first();
        lemma_terminator_is_last(rest);
        lemma_encoded_unfold(pairs);
        lemma_decoded_pair(pairs.first(), encoded(rest));
    }
}

/// Every pair of a request is written where the pairs before it end, and
/// the next pair, or the terminator, follows it at once.
pub proof fn lemma_pair_position(pairs: Seq<AttributePair>, i: int)
    requires
        0 <= i < pairs.len(),
    ensures
        ({
            let start = encoded_pairs(pairs.take(i)).len() as int;
            let end = encoded_pairs(pairs.take(i + 1)).len() as int;
            &&& end == start + encoded_pair(pairs[i]).len()
            &&& end < encoded(pairs).len()
            &&& encoded(pairs).subrange(start, end) == encoded_pair(pairs[i])
            &&& encoded(pairs).last() == TERMINATOR
        }),
{
    let before = pairs.take(i);
    let after = pairs.skip(i + 1);
    assert(pairs.take(i + 1) =~= before + seq![pairs[i]]);
    assert(pairs =~= pairs.take(i + 1) + after);
    lemma_encoded_pairs_concat(before, seq![pairs[i]]);
    lemma_encoded_pairs_concat(pairs.take(i + 1), after);
    assert(encoded_pairs(seq![pairs[i]]) =~= encoded_pair(pairs[i])) by {
        reveal_with_fuel(encoded_pairs, 2);
    }
}

/// A boolean key, whatever value comes with it, is written as the key alone
/// and read back as one pair without a value.
pub proof fn lemma_boolean_key_round_trip(key: DriverAttributeKey, value: Option<GLint>)
    requires
        key.spec_kind() is Boolean,
    ensures
        accepted((key, value)),
        encoded_pair((key, value)) == seq![key.token],
        encoded(seq![(key, value)]) == seq![key.token, TERMINATOR],
        decoded(encoded(seq![(key, value)])) == Some(seq![(key, None::<GLint>)]),
{
    lemma_attribute_tables();
    let pairs = seq![(key, value)];
    lemma_round_trip(pairs);
    lemma_encoded_unfold(pairs);
}

/// A valued key with its value is written as the key, the value right after
/// it, and the terminator, which a reader reaches there and only there; it
/// is read back as the same pair.
pub proof fn lemma_valued_key_round_trip(key: DriverAttributeKey, value: GLint)
    requires
        key.spec_kind() is Valued,
    ensures
        accepted((key, Some(value))),
        encoded_pair((key, Some(value))) == seq![key.token, value],
        encoded(seq![(key, Some(value))]) == seq![key.token, value, TERMINATOR],
        terminator_position(encoded(seq![(key, Some(value))])) == Some(2int),
        decoded(encoded(seq![(key, Some(value))])) == Some(seq![(key, Some(value))]),
{
    lemma_attribute_tables();
    let pairs = seq![(key, Some(value))];
    lemma_round_trip(pairs);
    lemma_terminator_is_last(pairs);
    lemma_encoded_unfold(pairs);
}

} // verus!
