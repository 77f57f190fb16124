//! The attribute-list protocol of pixel-format negotiation.
//!
//! A request for a pixel format is an ordered list of attributes. On the
//! wire it is a sequence of integer tokens that ends with a zero. A boolean
//! attribute is its key alone; a valued attribute is its key followed by one
//! integer. Which keys are boolean and which are valued is fixed knowledge
//! of the interface, held in the tables of [`crate::cgl`]. A key in neither
//! table is passed through as it is, written alone like a boolean key. Zero
//! is no key: it ends the list, once, as its last token, and a reader that
//! goes through the list key by key reaches it there and nowhere before.

use vstd::prelude::*;
use crate::cgl::{is_boolean_attribute, is_integer_attribute, lemma_attribute_tables,
    CGLPixelFormatAttribute, CORE_BOOLEAN_ATTRIBUTES, CORE_INTEGER_ATTRIBUTES};
use crate::error::AttributeError;
use crate::laws::{lemma_round_trip, lemma_terminator_is_last};
use crate::types::GLint;

verus! {

/// The token that ends an attribute list.
pub const TERMINATOR: CGLPixelFormatAttribute = 0;

/// How a key is written in an attribute list.
#[derive(Clone, Copy, Debug, PartialEq, Eq, Structural)]
pub enum AttributeKind {
    /// The key stands alone; its presence means "true".
    Boolean,
    /// The key is followed by exactly one integer value.
    Valued,
    /// The key is in neither table of the interface. It is passed through,
    /// written alone.
    Unknown,
}

/// Token that names something negotiable about a pixel format, such as
/// double buffering or the depth of the colour buffer.
#[derive(Clone, Copy, Debug, PartialEq, Eq, Structural)]
pub struct DriverAttributeKey {
    pub token: CGLPixelFormatAttribute,
}

/// One attribute of a request: a key and, where one is given, its value.
pub type AttributePair = (DriverAttributeKey, Option<GLint>);

/// How `token` is written in an attribute list.
pub open spec fn kind_of(token: CGLPixelFormatAttribute) -> AttributeKind {
    if is_boolean_attribute(token) {
        AttributeKind::Boolean
    } else if is_integer_attribute(token) {
        AttributeKind::Valued
    } else {
        AttributeKind::Unknown
    }
}

/// Whether `token` occurs in `table`.
fn table_contains(table: &[CGLPixelFormatAttribute], token: CGLPixelFormatAttribute) -> (found:
    bool)
    ensures
        found == table@.contains(token),
{
    let mut i: usize = 0;
    while i < table.len()
        invariant
            i <= table@.len(),
            forall|j: int| 0 <= j < i ==> table@[j] != token,
        decreases table@.len() - i,
    {
        if table[i] == token {
            return true;
        }
        i = i + 1;
    }
    false
}

impl DriverAttributeKey {
    /// The key with the given token.
    pub fn new(token: CGLPixelFormatAttribute) -> (key: DriverAttributeKey)
        ensures
            key.token == token,
    {
        DriverAttributeKey { token }
    }

    /// How this key is written in an attribute list.
    pub open spec fn spec_kind(&self) -> AttributeKind {
        kind_of(self.token)
    }

    /// How this key is written in an attribute list, by the tables of the
    /// interface.
    #[verifier::when_used_as_spec(spec_kind)]
    pub fn kind(&self) -> (kind: AttributeKind)
        ensures
            kind == self.spec_kind(),
    {
        proof {
            lemma_attribute_tables();
        }
        if table_contains(CORE_BOOLEAN_ATTRIBUTES.as_slice(), self.token) {
            AttributeKind::Boolean
        } else if table_contains(CORE_INTEGER_ATTRIBUTES.as_slice(), self.token) {
            AttributeKind::Valued
        } else {
            AttributeKind::Unknown
        }
    }
}

/// Whether a pair can be encoded: a valued key must come with its value.
pub open spec fn accepted(pair: AttributePair) -> bool {
    pair.0.spec_kind() is Valued ==> pair.1 is Some
}

/// Whether every pair of a request can be encoded.
pub open spec fn all_accepted(pairs: Seq<AttributePair>) -> bool {
    forall|i: int| 0 <= i < pairs.len() ==> accepted(#[trigger] pairs[i])
}

/// Whether no key of a request is the terminator.
pub open spec fn no_terminator_key(pairs: Seq<AttributePair>) -> bool {
    forall|i: int| 0 <= i < pairs.len() ==> (#[trigger] pairs[i]).0.token != TERMINATOR
}

/// The tokens of one pair. A valued key is followed by its value. Every
/// other key is written alone, whatever value came with it.
pub open spec fn encoded_pair(pair: AttributePair) -> Seq<CGLPixelFormatAttribute> {
    match (pair.0.spec_kind(), pair.1) {
        (AttributeKind::Valued, Some(value)) => seq![pair.0.token, value],
        _ => seq![pair.0.token],
    }
}

/// The tokens of a sequence of pairs, in order, without the terminator.
pub open spec fn encoded_pairs(pairs: Seq<AttributePair>) -> Seq<CGLPixelFormatAttribute>
    decreases pairs.len(),
{
    if pairs.len() == 0 {
        Seq::empty()
    } else {
        encoded_pair(pairs.first()) + encoded_pairs(pairs.drop_first())
    }
}

/// The attribute list of a request: the tokens of its pairs, in order, and
/// one terminator after them.
pub open spec fn encoded(pairs: Seq<AttributePair>) -> Seq<CGLPixelFormatAttribute> {
    encoded_pairs(pairs).push(TERMINATOR)
}

/// Encoding distributes over concatenation.
pub proof fn lemma_encoded_pairs_concat(a: Seq<AttributePair>, b: Seq<AttributePair>)
    ensures
        encoded_pairs(a + b) == encoded_pairs(a) + encoded_pairs(b),
    decreases a.len(),
{
    if a.len() > 0 {
        lemma_encoded_pairs_concat(a.drop_first(), b);
        assert((a + b).drop_first() == a.drop_first() + b);
    }
}

/// Appending one pair to a request appends its tokens to the encoding.
pub proof fn lemma_encoded_pairs_push(pairs: Seq<AttributePair>, pair: AttributePair)
    ensures
        encoded_pairs(pairs.push(pair)) == encoded_pairs(pairs) + encoded_pair(pair),
{
    lemma_encoded_pairs_concat(pairs, seq![pair]);
    assert(pairs.push(pair) == pairs + seq![pair]);
    assert(encoded_pairs(seq![pair]) == encoded_pair(pair)) by {
        reveal_with_fuel(encoded_pairs, 2);
    }
}

/// Whether `tokens` is the attribute list of the request `pairs`.
pub open spec fn encodes(pairs: Seq<AttributePair>, tokens: Seq<CGLPixelFormatAttribute>) -> bool {
    all_canonical(pairs) && tokens == encoded(pairs)
}

/// An encoded attribute list: tokens that end with the terminator. It is
/// made once, by [`AttributeList::build`] or by a builder, and never changed
/// afterwards.
#[derive(Debug, PartialEq, Eq)]
pub struct AttributeList {
    tokens: Vec<CGLPixelFormatAttribute>,
}

impl View for AttributeList {
    type V = Seq<CGLPixelFormatAttribute>;

    /// The tokens of the list, terminator included.
    closed spec fn view(&self) -> Seq<CGLPixelFormatAttribute> {
        self.tokens@
    }
}

impl AttributeList {
    /// The list encodes some request, and its one terminator is its last
    /// token.
    #[verifier::type_invariant]
    spec fn well_formed(&self) -> bool {
        &&& encodes(self.pairs(), self.tokens@)
        &&& terminator_position(self.tokens@) == Some(self.tokens@.len() - 1)
    }

    /// A request that the list encodes.
    pub closed spec fn pairs(&self) -> Seq<AttributePair> {
        choose|pairs: Seq<AttributePair>| encodes(pairs, self.tokens@)
    }

    /// Encodes a request. No key may be zero, which is the terminator.
    /// Fails with [`AttributeError::MissingValue`] if and only if some
    /// valued key comes without a value. The list that is made reads back
    /// as the request, each key that is not valued without a value.
    pub fn build(pairs: &[AttributePair]) -> (r: Result<AttributeList, AttributeError>)
        requires
            no_terminator_key(pairs@),
        ensures
            all_accepted(pairs@) ==> (r matches Ok(list) && list@ == encoded(pairs@)
                && decoded(list@) == Some(normalized_all(pairs@)) && terminator_position(list@)
                == Some(list@.len() - 1)),
            !all_accepted(pairs@) ==> r == Err::<AttributeList, AttributeError>(
                AttributeError::MissingValue,
            ),
    {
        let mut tokens: Vec<CGLPixelFormatAttribute> = Vec::new();
        let mut i: usize = 0;
        while i < pairs.len()
            invariant
                i <= pairs@.len(),
                all_accepted(pairs@.take(i as int)),
                tokens@ == encoded_pairs(pairs@.take(i as int)),
            decreases pairs@.len() - i,
        {
            let (key, value) = pairs[i];
            proof {
                lemma_encoded_pairs_push(pairs@.take(i as int), pairs@[i as int]);
                assert(pairs@.take(i as int).push(pairs@[i as int]) == pairs@.take(i + 1));
            }
            match key.kind() {
                AttributeKind::Boolean => {
                    tokens.push(key.token);
                },
                AttributeKind::Valued => {
                    match value {
                        Some(v) => {
                            tokens.push(key.token);
                            tokens.push(v);
                        },
                        None => {
                            return Err(AttributeError::MissingValue);
                        },
                    }
                },
                AttributeKind::Unknown => {
                    tokens.push(key.token);
                },
            }
            i = i + 1;
        }
        assert(pairs@.take(i as int) == pairs@);
        tokens.push(TERMINATOR);
        proof {
            lemma_round_trip(pairs@);
            lemma_terminator_is_last(pairs@);
            assert(encodes(pairs@, tokens@));
        }
        Ok(AttributeList { tokens })
    }

    /// The tokens to hand to the driver. The last one is the terminator,
    /// and a reader reaches no terminator before it.
    pub fn as_slice(&self) -> (tokens: &[CGLPixelFormatAttribute])
        ensures
            tokens@ == self@,
            encodes(self.pairs(), self@),
            tokens@.len() >= 1,
            tokens@.last() == TERMINATOR,
            terminator_position(tokens@) == Some(tokens@.len() - 1),
    {
        proof {
            use_type_invariant(self);
        }
        self.tokens.as_slice()
    }

    /// Number of tokens, terminator included.
    pub fn len(&self) -> (n: usize)
        ensures
            n == self@.len(),
            n >= 1,
    {
        proof {
            use_type_invariant(self);
        }
        self.tokens.len()
    }

    /// Reads the list back: the pairs that its tokens spell. Every list
    /// parses.
    pub fn decode(&self) -> (pairs: Vec<AttributePair>)
        ensures
            decoded(self@) == Some(pairs@),
            pairs@ == normalized_all(self.pairs()),
    {
        proof {
            use_type_invariant(self);
            lemma_round_trip(self.pairs());
        }
        decode(self.tokens.as_slice()).unwrap()
    }
}

/// The pair that comes back when `pair` is encoded and decoded: a key that
/// is not valued loses whatever value came with it.
pub open spec fn normalized(pair: AttributePair) -> AttributePair {
    if pair.0.spec_kind() is Valued {
        pair
    } else {
        (pair.0, None)
    }
}

/// A request with every pair as it comes back from decoding.
pub open spec fn normalized_all(pairs: Seq<AttributePair>) -> Seq<AttributePair> {
    pairs.map_values(|pair: AttributePair| normalized(pair))
}

/// Whether a pair can stand in an attribute list: its key is not the
/// terminator, and a valued key has its value.
pub open spec fn canonical(pair: AttributePair) -> bool {
    pair.0.token != TERMINATOR && accepted(pair)
}

/// Whether every pair of a request can stand in an attribute list.
pub open spec fn all_canonical(pairs: Seq<AttributePair>) -> bool {
    forall|i: int| 0 <= i < pairs.len() ==> canonical(#[trigger] pairs[i])
}

/// `front` followed by `rest`, where there is a `rest`.
pub open spec fn prepended(front: Seq<AttributePair>, rest: Option<Seq<AttributePair>>) -> Option<
    Seq<AttributePair>,
> {
    match rest {
        Some(pairs) => Some(front + pairs),
        None => None,
    }
}

/// `position` moved right by `by`, where there is a position.
pub open spec fn shifted(position: Option<int>, by: int) -> Option<int> {
    match position {
        Some(p) => Some(p + by),
        None => None,
    }
}

/// Where a reader of `tokens` stops: the index of the first zero that
/// stands where a key is expected. A zero that is the value of a valued key
/// does not end the list. `None` where the reader runs off the end.
pub open spec fn terminator_position(tokens: Seq<CGLPixelFormatAttribute>) -> Option<int>
    decreases tokens.len(),
{
    if tokens.len() == 0 {
        None
    } else if tokens[0] == TERMINATOR {
        Some(0)
    } else if kind_of(tokens[0]) is Valued {
        if tokens.len() < 2 {
            None
        } else {
            shifted(terminator_position(tokens.skip(2)), 2)
        }
    } else {
        shifted(terminator_position(tokens.skip(1)), 1)
    }
}

/// The pairs that `tokens` spell: each valued key with the token after it,
/// every other key alone, up to a terminator that must be the last token.
/// `None` where a valued key lacks its value, where the terminator is
/// missing, or where anything follows it.
pub open spec fn decoded(tokens: Seq<CGLPixelFormatAttribute>) -> Option<Seq<AttributePair>>
    decreases tokens.len(),
{
    if tokens.len() == 0 {
        None
    } else if tokens[0] == TERMINATOR {
        if tokens.len() == 1 {
            Some(Seq::empty())
        } else {
            None
        }
    } else if kind_of(tokens[0]) is Valued {
        if tokens.len() < 2 {
            None
        } else {
            prepended(
                seq![(DriverAttributeKey { token: tokens[0] }, Some(tokens[1]))],
                decoded(tokens.skip(2)),
            )
        }
    } else {
        prepended(
            seq![(DriverAttributeKey { token: tokens[0] }, None::<GLint>)],
            decoded(tokens.skip(1)),
        )
    }
}

/// Parses an attribute list. Returns the pairs that the tokens spell, or
/// `None` where they are no well-formed list.
pub fn decode(tokens: &[CGLPixelFormatAttribute]) -> (r: Option<Vec<AttributePair>>)
    ensures
        r matches Some(pairs) ==> decoded(tokens@) == Some(pairs@),
        r is None ==> decoded(tokens@) is None,
{
    let mut pairs: Vec<AttributePair> = Vec::new();
    let mut i: usize = 0;
    assert(tokens@.skip(0) == tokens@);
    while i < tokens.len()
        invariant
            i <= tokens@.len(),
            decoded(tokens@) == prepended(pairs@, decoded(tokens@.skip(i as int))),
        decreases tokens@.len() - i,
    {
        let ghost rest = tokens@.skip(i as int);
        let token: CGLPixelFormatAttribute = tokens[i];
        if token == TERMINATOR {
            if tokens.len() - i == 1 {
                return Some(pairs);
            } else {
                return None;
            }
        }
        let key = DriverAttributeKey::new(token);
        match key.kind() {
            AttributeKind::Valued => {
                if tokens.len() - i < 2 {
                    return None;
                }
                let value: GLint = tokens[i + 1];
                assert(rest.skip(2) == tokens@.skip(i + 2));
                pairs.push((key, Some(value)));
                i = i + 2;
            },
            _ => {
                assert(rest.skip(1) == tokens@.skip(i + 1));
                pairs.push((key, None));
                i = i + 1;
            },
        }
    }
    None
}

/// Collects the pairs of a request one at a time and encodes them once.
///
/// A builder starts empty and open. [`finalize`](Self::finalize) produces
/// the list and leaves the builder finalized for good: every later `push`
/// or `finalize` is refused and changes nothing.
#[derive(Debug)]
pub struct AttributeListBuilder {
    pairs: Vec<AttributePair>,
    finalized: bool,
}

impl AttributeListBuilder {
    #[verifier::type_invariant]
    spec fn well_formed(&self) -> bool {
        all_canonical(self.pairs@)
    }

    /// The pairs taken so far, in order.
    pub closed spec fn pairs(&self) -> Seq<AttributePair> {
        self.pairs@
    }

    /// Whether the builder has produced its list.
    pub closed spec fn spec_is_finalized(&self) -> bool {
        self.finalized
    }

    /// An empty, open builder.
    pub fn new() -> (builder: AttributeListBuilder)
        ensures
            builder.pairs() == Seq::<AttributePair>::empty(),
            !builder.is_finalized(),
    {
        AttributeListBuilder { pairs: Vec::new(), finalized: false }
    }

    /// Whether the builder has produced its list.
    #[verifier::when_used_as_spec(spec_is_finalized)]
    pub fn is_finalized(&self) -> (finalized: bool)
        ensures
            finalized == self.spec_is_finalized(),
    {
        self.finalized
    }

    /// Appends one pair to the request. The key may not be zero, which is
    /// the terminator.
    ///
    /// A finalized builder refuses with [`AttributeError::AlreadyFinalized`].
    /// An open one refuses a valued key without a value with
    /// [`AttributeError::MissingValue`]. A refusal changes nothing.
    pub fn push(&mut self, key: DriverAttributeKey, value: Option<GLint>) -> (r: Result<
        (),
        AttributeError,
    >)
        requires
            !old(self).is_finalized() ==> key.token != TERMINATOR,
        ensures
            final(self).is_finalized() == old(self).is_finalized(),
            old(self).is_finalized() ==> r == Err::<(), AttributeError>(
                AttributeError::AlreadyFinalized,
            ),
            !old(self).is_finalized() && !accepted((key, value)) ==> r == Err::<
                (),
                AttributeError,
            >(AttributeError::MissingValue),
            !old(self).is_finalized() && accepted((key, value)) ==> r == Ok::<
                (),
                AttributeError,
            >(()),
            r is Ok ==> final(self).pairs() == old(self).pairs().push((key, value)),
            r is Err ==> final(self).pairs() == old(self).pairs(),
    {
        proof {
            use_type_invariant(&*self);
        }
        if self.finalized {
            return Err(AttributeError::AlreadyFinalized);
        }
        let missing: bool = match key.kind() {
            AttributeKind::Valued => value.is_none(),
            _ => false,
        };
        if missing {
            return Err(AttributeError::MissingValue);
        }
        // The invariant has to hold whenever a field is borrowed, so the
        // vector is taken out, extended, and put back.
        let mut pairs: Vec<AttributePair> = Vec::new();
        core::mem::swap(&mut self.pairs, &mut pairs);
        pairs.push((key, value));
        core::mem::swap(&mut self.pairs, &mut pairs);
        Ok(())
    }

    /// Encodes the request and finalizes the builder.
    ///
    /// A finalized builder refuses with [`AttributeError::AlreadyFinalized`]
    /// and is left as it was.
    pub fn finalize(&mut self) -> (r: Result<AttributeList, AttributeError>)
        ensures
            final(self).is_finalized(),
            final(self).pairs() == old(self).pairs(),
            old(self).is_finalized() ==> r == Err::<AttributeList, AttributeError>(
                AttributeError::AlreadyFinalized,
            ),
            !old(self).is_finalized() ==> (r matches Ok(list) && list@ == encoded(
                old(self).pairs(),
            ) && decoded(list@) == Some(normalized_all(old(self).pairs()))),
    {
        proof {
            use_type_invariant(&*self);
        }
        if self.finalized {
            return Err(AttributeError::AlreadyFinalized);
        }
        let r = AttributeList::build(self.pairs.as_slice());
        self.finalized = true;
        r
    }
}

} // verus!
