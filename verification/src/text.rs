//! Comparisons of text by its UTF-8 encoding, the order in which Rust compares strings.

use vstd::prelude::*;

use vstd::utf8::encode_utf8;

verus! {

/// The outcome of comparing two texts.
#[derive(Debug, Clone, Copy, PartialEq, Eq, Hash, Structural)]
pub enum TextOrder {
    /// The first text comes first.
    Less,
    /// The texts are equal.
    Equal,
    /// The first text comes last.
    Greater,
}

/// The lexicographic order of byte sequences: the first differing byte decides, and a proper
/// prefix comes before the longer sequence.
pub open spec fn lexicographic(a: Seq<u8>, b: Seq<u8>) -> TextOrder
    decreases a.len(),
{
    if a.len() == 0 {
        if b.len() == 0 {
            TextOrder::Equal
        } else {
            TextOrder::Less
        }
    } else if b.len() == 0 {
        TextOrder::Greater
    } else if a[0] < b[0] {
        TextOrder::Less
    } else if a[0] > b[0] {
        TextOrder::Greater
    } else {
        lexicographic(a.drop_first(), b.drop_first())
    }
}

/// The UTF-8 encoding of a text.
pub open spec fn text_bytes(s: Seq<char>) -> Seq<u8> {
    encode_utf8(s)
}

/// The order of two texts: the lexicographic order of their UTF-8 encodings.
pub open spec fn text_order(a: Seq<char>, b: Seq<char>) -> TextOrder {
    lexicographic(text_bytes(a), text_bytes(b))
}

/// Whether the UTF-8 encoding of `prefix` begins the UTF-8 encoding of `s`.
pub open spec fn text_starts_with(s: Seq<char>, prefix: Seq<char>) -> bool {
    text_bytes(prefix).is_prefix_of(text_bytes(s))
}

proof fn lemma_lexicographic_skip(a: Seq<u8>, b: Seq<u8>, i: int)
    requires
        0 <= i < a.len(),
        i < b.len(),
        a[i] == b[i],
    ensures
        lexicographic(a.skip(i), b.skip(i)) == lexicographic(a.skip(i + 1), b.skip(i + 1)),
{
    assert(a.skip(i).drop_first() =~= a.skip(i + 1));
    assert(b.skip(i).drop_first() =~= b.skip(i + 1));
}

/// Compares two byte sequences lexicographically.
pub fn compare_bytes(a: &[u8], b: &[u8]) -> (r: TextOrder)
    ensures
        r == lexicographic(a@, b@),
{
    let mut i: usize = 0;
    assert(a@.skip(0) =~= a@);
    assert(b@.skip(0) =~= b@);
    while i < a.len() && i < b.len()
        invariant
            0 <= i <= a.len(),
            i <= b.len(),
            lexicographic(a@, b@) == lexicographic(a@.skip(i as int), b@.skip(i as int)),
        decreases a.len() - i,
    {
        if a[i] < b[i] {
            return TextOrder::Less;
        } else if a[i] > b[i] {
            return TextOrder::Greater;
        }
        proof {
            lemma_lexicographic_skip(a@, b@, i as int);
        }
        i = i + 1;
    }
    if i < b.len() {
        TextOrder::Less
    } else if i < a.len() {
        TextOrder::Greater
    } else {
        TextOrder::Equal
    }
}

/// Compares two texts by their UTF-8 encodings, as Rust orders `str`s.
pub fn compare_text(a: &str, b: &str) -> (r: TextOrder)
    ensures
        r == text_order(a@, b@),
{
    compare_bytes(a.as_bytes(), b.as_bytes())
}

/// Whether `prefix` is a prefix of `s`, byte for byte.
pub fn bytes_start_with(s: &[u8], prefix: &[u8]) -> (r: bool)
    ensures
        r == prefix@.is_prefix_of(s@),
{
    if prefix.len() > s.len() {
        return false;
    }
    let mut i: usize = 0;
    while i < prefix.len()
        invariant
            prefix.len() <= s.len(),
            0 <= i <= prefix.len(),
            forall|j: int| 0 <= j < i ==> prefix@[j] == s@[j],
        decreases prefix.len() - i,
    {
        if prefix[i] != s[i] {
            assert(prefix@[i as int] != s@.subrange(0, prefix@.len() as int)[i as int]);
            return false;
        }
        i = i + 1;
    }
    assert(prefix@ =~= s@.subrange(0, prefix@.len() as int));
    true
}

/// Whether the text `s` begins with the text `prefix`, as `str::starts_with` tests it.
pub fn text_starts_with_text(s: &str, prefix: &str) -> (r: bool)
    ensures
        r == text_starts_with(s@, prefix@),
{
    bytes_start_with(s.as_bytes(), prefix.as_bytes())
}

/// Whether two byte sequences are equal.
pub fn bytes_equal(a: &[u8], b: &[u8]) -> (r: bool)
    ensures
        r == (a@ == b@),
{
    if a.len() != b.len() {
        return false;
    }
    let r = bytes_start_with(a, b);
    proof {
        if r {
            assert(a@ =~= a@.subrange(0, b@.len() as int));
        }
    }
    r
}

/// The comparison seen from the other side.
pub open spec fn reversed(o: TextOrder) -> TextOrder {
    match o {
        TextOrder::Less => TextOrder::Greater,
        TextOrder::Equal => TextOrder::Equal,
        TextOrder::Greater => TextOrder::Less,
    }
}

/// Comparing the other way round reverses the outcome.
pub proof fn lemma_lexicographic_antisymmetric(a: Seq<u8>, b: Seq<u8>)
    ensures
        lexicographic(b, a) == reversed(lexicographic(a, b)),
    decreases a.len(),
{
    if a.len() > 0 && b.len() > 0 && a[0] == b[0] {
        lemma_lexicographic_antisymmetric(a.drop_first(), b.drop_first());
    }
}

/// The first position where two byte sequences differ decides their order: the sequence with the
/// smaller byte there comes first; when one ends there it comes first, and when both end there
/// they are equal.
pub proof fn lemma_lexicographic_first_difference(a: Seq<u8>, b: Seq<u8>, i: int)
    requires
        0 <= i <= a.len(),
        i <= b.len(),
        a.subrange(0, i) == b.subrange(0, i),
    ensures
        i < a.len() && i < b.len() && a[i] < b[i] ==> lexicographic(a, b) == TextOrder::Less,
        i < a.len() && i < b.len() && a[i] > b[i] ==> lexicographic(a, b) == TextOrder::Greater,
        i == a.len() && i < b.len() ==> lexicographic(a, b) == TextOrder::Less,
        i < a.len() && i == b.len() ==> lexicographic(a, b) == TextOrder::Greater,
        i == a.len() && i == b.len() ==> lexicographic(a, b) == TextOrder::Equal,
    decreases i,
{
    if i > 0 {
        assert(a[0] == a.subrange(0, i)[0]);
        assert(b[0] == b.subrange(0, i)[0]);
        assert(a.drop_first().subrange(0, i - 1) =~= a.subrange(0, i).drop_first());
        assert(b.drop_first().subrange(0, i - 1) =~= b.subrange(0, i).drop_first());
        lemma_lexicographic_first_difference(a.drop_first(), b.drop_first(), i - 1);
    }
}

/// Two byte sequences compare equal exactly when they are the same sequence.
pub proof fn lemma_lexicographic_equal(a: Seq<u8>, b: Seq<u8>)
    ensures
        (lexicographic(a, b) == TextOrder::Equal) <==> a == b,
    decreases a.len(),
{
    if a.len() > 0 && b.len() > 0 && a[0] == b[0] {
        lemma_lexicographic_equal(a.drop_first(), b.drop_first());
        if a.drop_first() == b.drop_first() {
            assert(a =~= seq![a[0]] + a.drop_first());
            assert(b =~= seq![b[0]] + b.drop_first());
        }
        if a == b {
            assert(a.drop_first() =~= b.drop_first());
        }
    } else if a.len() == 0 && b.len() == 0 {
        assert(a =~= b);
    }
}

/// The order is transitive.
pub proof fn lemma_lexicographic_transitive(a: Seq<u8>, b: Seq<u8>, c: Seq<u8>)
    requires
        lexicographic(a, b) == TextOrder::Less,
        lexicographic(b, c) == TextOrder::Less,
    ensures
        lexicographic(a, c) == TextOrder::Less,
    decreases a.len(),
{
    if a.len() > 0 && b.len() > 0 && c.len() > 0 && a[0] == b[0] && b[0] == c[0] {
        lemma_lexicographic_transitive(a.drop_first(), b.drop_first(), c.drop_first());
    }
}

/// Two texts compare equal exactly when they are the same text.
pub proof fn lemma_text_order_equal(a: Seq<char>, b: Seq<char>)
    ensures
        (text_order(a, b) == TextOrder::Equal) <==> a == b,
{
    lemma_lexicographic_equal(text_bytes(a), text_bytes(b));
    if text_bytes(a) == text_bytes(b) {
        vstd::utf8::encode_utf8_decode_utf8(a);
        vstd::utf8::encode_utf8_decode_utf8(b);
    }
}

/// Every text begins with itself.
pub proof fn lemma_text_starts_with_itself(s: Seq<char>)
    ensures
        text_starts_with(s, s),
{
    assert(text_bytes(s) =~= text_bytes(s).subrange(0, text_bytes(s).len() as int));
}

} // verus!
