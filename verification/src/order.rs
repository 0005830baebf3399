use vstd::prelude::*;
use vstd::utf8::*;
use vstd::string::*;

verus! {

/// Lexicographic order on byte sequences: the first position at which the two
/// differ decides, and a proper prefix comes before any of its extensions.
pub open spec fn bytes_lt(a: Seq<u8>, b: Seq<u8>) -> bool
    decreases a.len(),
{
    if a.len() == 0 {
        b.len() > 0
    } else if b.len() == 0 {
        false
    } else if a[0] != b[0] {
        a[0] < b[0]
    } else {
        bytes_lt(a.drop_first(), b.drop_first())
    }
}

/// The order of `str` and `String` values: lexicographic on their UTF-8 bytes.
pub open spec fn str_lt(a: Seq<char>, b: Seq<char>) -> bool {
    bytes_lt(encode_utf8(a), encode_utf8(b))
}

/// The byte order is decided at the first position where the sequences
/// differ, by comparing the two bytes there as unsigned numbers; where one
/// sequence runs out first, the shorter comes first.
pub proof fn lemma_bytes_lt_first_difference(a: Seq<u8>, b: Seq<u8>)
    ensures
        bytes_lt(a, b) <==> exists|k: int|
            0 <= k <= a.len() && k <= b.len() && #[trigger] a.subrange(0, k) == b.subrange(0, k)
                && ((k == a.len() && k < b.len()) || (k < a.len() && k < b.len() && a[k] < b[k])),
    decreases a.len(),
{
    if a.len() == 0 {
        if b.len() > 0 {
            assert(a.subrange(0, 0) =~= b.subrange(0, 0));
        }
    } else if b.len() == 0 {
    } else if a[0] != b[0] {
        if a[0] < b[0] {
            assert(a.subrange(0, 0) =~= b.subrange(0, 0));
        }
        if exists|k: int|
            0 <= k <= a.len() && k <= b.len() && #[trigger] a.subrange(0, k) == b.subrange(0, k)
                && ((k == a.len() && k < b.len()) || (k < a.len() && k < b.len() && a[k] < b[k])) {
            let k = choose|k: int|
                0 <= k <= a.len() && k <= b.len() && #[trigger] a.subrange(0, k) == b.subrange(0, k)
                    && ((k == a.len() && k < b.len()) || (k < a.len() && k < b.len() && a[k] < b[k]));
            if k > 0 {
                assert(a.subrange(0, k)[0] == b.subrange(0, k)[0]);
            }
        }
    } else {
        let ta = a.drop_first();
        let tb = b.drop_first();
        lemma_bytes_lt_first_difference(ta, tb);
        if bytes_lt(a, b) {
            let k = choose|k: int|
                0 <= k <= ta.len() && k <= tb.len() && #[trigger] ta.subrange(0, k) == tb.subrange(0, k)
                    && ((k == ta.len() && k < tb.len()) || (k < ta.len() && k < tb.len() && ta[k] < tb[k]));
            assert(a.subrange(0, k + 1) =~= seq![a[0]] + ta.subrange(0, k));
            assert(b.subrange(0, k + 1) =~= seq![b[0]] + tb.subrange(0, k));
        }
        if exists|k: int|
            0 <= k <= a.len() && k <= b.len() && #[trigger] a.subrange(0, k) == b.subrange(0, k)
                && ((k == a.len() && k < b.len()) || (k < a.len() && k < b.len() && a[k] < b[k])) {
            let k = choose|k: int|
                0 <= k <= a.len() && k <= b.len() && #[trigger] a.subrange(0, k) == b.subrange(0, k)
                    && ((k == a.len() && k < b.len()) || (k < a.len() && k < b.len() && a[k] < b[k]));
            assert(k > 0);
            assert(ta.subrange(0, k - 1) =~= a.subrange(0, k).drop_first());
            assert(tb.subrange(0, k - 1) =~= b.subrange(0, k).drop_first());
            assert(ta.subrange(0, k - 1) == tb.subrange(0, k - 1));
            assert(bytes_lt(ta, tb));
        }
    }
}

/// The order of strings is the byte order of their UTF-8 encodings, decided at
/// the first differing byte as for `lemma_bytes_lt_first_difference`.
pub proof fn lemma_str_lt_is_utf8_byte_order(a: Seq<char>, b: Seq<char>)
    ensures
        str_lt(a, b) <==> exists|k: int|
            0 <= k <= encode_utf8(a).len() && k <= encode_utf8(b).len()
                && #[trigger] encode_utf8(a).subrange(0, k) == encode_utf8(b).subrange(0, k)
                && ((k == encode_utf8(a).len() && k < encode_utf8(b).len()) || (k < encode_utf8(a).len()
                && k < encode_utf8(b).len() && encode_utf8(a)[k] < encode_utf8(b)[k])),
{
    lemma_bytes_lt_first_difference(encode_utf8(a), encode_utf8(b));
}

/// No byte sequence precedes itself.
pub proof fn lemma_bytes_lt_irreflexive(a: Seq<u8>)
    ensures
        !bytes_lt(a, a),
    decreases a.len(),
{
    if a.len() > 0 {
        lemma_bytes_lt_irreflexive(a.drop_first());
    }
}

/// The byte order is transitive.
pub proof fn lemma_bytes_lt_transitive(a: Seq<u8>, b: Seq<u8>, c: Seq<u8>)
    requires
        bytes_lt(a, b),
        bytes_lt(b, c),
    ensures
        bytes_lt(a, c),
    decreases a.len(),
{
    if a.len() > 0 && b.len() > 0 && c.len() > 0 && a[0] == b[0] && b[0] == c[0] {
        lemma_bytes_lt_transitive(a.drop_first(), b.drop_first(), c.drop_first());
    }
}

/// Two different byte sequences are ordered one way or the other, never both.
pub proof fn lemma_bytes_lt_total(a: Seq<u8>, b: Seq<u8>)
    ensures
        a != b ==> (bytes_lt(a, b) || bytes_lt(b, a)),
        !(bytes_lt(a, b) && bytes_lt(b, a)),
    decreases a.len(),
{
    if a.len() > 0 && b.len() > 0 && a[0] == b[0] {
        lemma_bytes_lt_total(a.drop_first(), b.drop_first());
        if a != b {
            assert(a.drop_first() != b.drop_first()) by {
                if a.drop_first() == b.drop_first() {
                    assert(a =~= seq![a[0]] + a.drop_first());
                    assert(b =~= seq![b[0]] + b.drop_first());
                }
            }
        }
    } else if a.len() == 0 && b.len() == 0 {
        assert(a =~= b);
    }
}

/// Different strings have different UTF-8 encodings.
pub proof fn lemma_encode_utf8_injective(a: Seq<char>, b: Seq<char>)
    ensures
        encode_utf8(a) == encode_utf8(b) ==> a == b,
{
    encode_utf8_decode_utf8(a);
    encode_utf8_decode_utf8(b);
}

/// No string precedes itself.
pub proof fn lemma_str_lt_irreflexive(a: Seq<char>)
    ensures
        !str_lt(a, a),
{
    lemma_bytes_lt_irreflexive(encode_utf8(a));
}

/// The string order is transitive.
pub proof fn lemma_str_lt_transitive(a: Seq<char>, b: Seq<char>, c: Seq<char>)
    requires
        str_lt(a, b),
        str_lt(b, c),
    ensures
        str_lt(a, c),
{
    lemma_bytes_lt_transitive(encode_utf8(a), encode_utf8(b), encode_utf8(c));
}

/// Two different strings are ordered one way or the other, never both.
pub proof fn lemma_str_lt_total(a: Seq<char>, b: Seq<char>)
    ensures
        a != b ==> (str_lt(a, b) || str_lt(b, a)),
        !(str_lt(a, b) && str_lt(b, a)),
{
    lemma_encode_utf8_injective(a, b);
    lemma_bytes_lt_total(encode_utf8(a), encode_utf8(b));
}

/// The outcome of comparing two values.
#[derive(Debug, Clone, Copy, PartialEq, Eq, Structural)]
pub enum Order {
    Less,
    Equal,
    Greater,
}

proof fn lemma_bytes_lt_step(a: Seq<u8>, b: Seq<u8>, i: int)
    requires
        0 <= i < a.len(),
        i < b.len(),
        a[i] == b[i],
    ensures
        bytes_lt(a.skip(i), b.skip(i)) == bytes_lt(a.skip(i + 1), b.skip(i + 1)),
{
    assert(a.skip(i).drop_first() =~= a.skip(i + 1));
    assert(b.skip(i).drop_first() =~= b.skip(i + 1));
}

/// Compares two byte slices lexicographically.
pub fn compare_bytes(a: &[u8], b: &[u8]) -> (order: Order)
    ensures
        order == Order::Less <==> bytes_lt(a@, b@),
        order == Order::Greater <==> bytes_lt(b@, a@),
        order == Order::Equal <==> a@ == b@,
        order == Order::Less <==> exists|k: int|
            0 <= k <= a@.len() && k <= b@.len() && #[trigger] a@.subrange(0, k) == b@.subrange(0, k)
                && ((k == a@.len() && k < b@.len()) || (k < a@.len() && k < b@.len() && a@[k] < b@[k])),
        order == Order::Greater <==> exists|k: int|
            0 <= k <= a@.len() && k <= b@.len() && #[trigger] b@.subrange(0, k) == a@.subrange(0, k)
                && ((k == b@.len() && k < a@.len()) || (k < a@.len() && k < b@.len() && b@[k] < a@[k])),
{
    proof {
        lemma_bytes_lt_first_difference(a@, b@);
        lemma_bytes_lt_first_difference(b@, a@);
    }
    let mut i: usize = 0;
    assert(a@.skip(0) =~= a@);
    assert(b@.skip(0) =~= b@);
    while i < a.len() && i < b.len()
        invariant
            i <= a@.len(),
            i <= b@.len(),
            a@.subrange(0, i as int) == b@.subrange(0, i as int),
            bytes_lt(a@, b@) == bytes_lt(a@.skip(i as int), b@.skip(i as int)),
            bytes_lt(b@, a@) == bytes_lt(b@.skip(i as int), a@.skip(i as int)),
        decreases a@.len() - i,
    {
        proof {
            lemma_bytes_lt_first_difference(a@, b@);
            lemma_bytes_lt_first_difference(b@, a@);
        }
        if a[i] < b[i] {
            return Order::Less;
        }
        if b[i] < a[i] {
            return Order::Greater;
        }
        proof {
            lemma_bytes_lt_step(a@, b@, i as int);
            lemma_bytes_lt_step(b@, a@, i as int);
            assert(a@.subrange(0, i + 1) =~= a@.subrange(0, i as int).push(a@[i as int]));
            assert(b@.subrange(0, i + 1) =~= b@.subrange(0, i as int).push(b@[i as int]));
        }
        i = i + 1;
    }
    proof {
        lemma_bytes_lt_irreflexive(a@);
    }
    if i < b.len() {
        assert(a@ =~= a@.subrange(0, i as int));
        Order::Less
    } else if i < a.len() {
        assert(b@ =~= b@.subrange(0, i as int));
        Order::Greater
    } else {
        assert(a@ =~= a@.subrange(0, i as int));
        assert(b@ =~= b@.subrange(0, i as int));
        Order::Equal
    }
}

/// Compares two strings in the order of `str` (by their UTF-8 bytes).
pub fn compare_str(a: &str, b: &str) -> (order: Order)
    ensures
        order == Order::Less <==> str_lt(a@, b@),
        order == Order::Greater <==> str_lt(b@, a@),
        order == Order::Equal <==> a@ == b@,
        order == Order::Less <==> exists|k: int|
            0 <= k <= encode_utf8(a@).len() && k <= encode_utf8(b@).len()
                && #[trigger] encode_utf8(a@).subrange(0, k) == encode_utf8(b@).subrange(0, k)
                && ((k == encode_utf8(a@).len() && k < encode_utf8(b@).len()) || (k < encode_utf8(a@).len()
                && k < encode_utf8(b@).len() && encode_utf8(a@)[k] < encode_utf8(b@)[k])),
{
    proof {
        lemma_encode_utf8_injective(a@, b@);
    }
    compare_bytes(a.as_bytes(), b.as_bytes())
}

} // verus!
