//! The order in which the offering store lists its keys: byte by byte over the
//! UTF-8 encoding, a proper prefix before its extensions.

use vstd::prelude::*;
use vstd::utf8::{encode_utf8, encode_utf8_decode_utf8};

verus! {

/// `a` and `b` agree before position `i`, and there `a` ends or holds the
/// smaller byte.
pub open spec fn precedes_at(a: Seq<u8>, b: Seq<u8>, i: int) -> bool {
    &&& 0 <= i <= a.len()
    &&& i <= b.len()
    &&& forall|j: int| 0 <= j < i ==> a[j] == b[j]
    &&& i == a.len() ==> i < b.len()
    &&& i < a.len() ==> i < b.len() && a[i] < b[i]
}

/// `a` comes strictly before `b` in lexicographic byte order.
pub open spec fn bytes_lt(a: Seq<u8>, b: Seq<u8>) -> bool {
    exists|i: int| precedes_at(a, b, i)
}

/// The key `a` comes strictly before the key `b`.
pub open spec fn key_lt(a: Seq<char>, b: Seq<char>) -> bool {
    bytes_lt(encode_utf8(a), encode_utf8(b))
}

/// How one key stands to another.
#[derive(Clone, Copy, Debug, PartialEq, Eq, Structural)]
pub enum KeyOrder {
    Before,
    Same,
    After,
}

/// Nothing comes before itself.
pub proof fn lemma_bytes_lt_irreflexive(a: Seq<u8>)
    ensures
        !bytes_lt(a, a),
{
}

/// What comes before something that comes before `c` comes before `c`.
pub proof fn lemma_bytes_lt_transitive(a: Seq<u8>, b: Seq<u8>, c: Seq<u8>)
    requires
        bytes_lt(a, b),
        bytes_lt(b, c),
    ensures
        bytes_lt(a, c),
{
    let i = choose|i: int| precedes_at(a, b, i);
    let j = choose|j: int| precedes_at(b, c, j);
    if i <= j {
        assert(precedes_at(a, c, i));
    } else {
        assert(precedes_at(a, c, j));
    }
}

/// Of two keys, at most one comes before the other, and neither before itself.
pub proof fn lemma_key_lt_asymmetric(a: Seq<char>, b: Seq<char>)
    requires
        key_lt(a, b),
    ensures
        !key_lt(b, a),
        a != b,
{
    let x = encode_utf8(a);
    let y = encode_utf8(b);
    lemma_bytes_lt_irreflexive(x);
    if bytes_lt(y, x) {
        lemma_bytes_lt_transitive(x, y, x);
    }
}

/// The key order is transitive.
pub proof fn lemma_key_lt_transitive(a: Seq<char>, b: Seq<char>, c: Seq<char>)
    requires
        key_lt(a, b),
        key_lt(b, c),
    ensures
        key_lt(a, c),
{
    lemma_bytes_lt_transitive(encode_utf8(a), encode_utf8(b), encode_utf8(c));
}

/// Compares two keys in the store's order.
pub fn compare_keys(a: &str, b: &str) -> (r: KeyOrder)
    ensures
        r == KeyOrder::Before <==> key_lt(a@, b@),
        r == KeyOrder::Same <==> a@ == b@,
        r == KeyOrder::After <==> key_lt(b@, a@),
{
    let x = a.as_bytes();
    let y = b.as_bytes();
    let mut i: usize = 0;
    while i < x.len() && i < y.len()
        invariant
            i <= x.len(),
            i <= y.len(),
            x@ == encode_utf8(a@),
            y@ == encode_utf8(b@),
            forall|j: int| 0 <= j < i ==> x@[j] == y@[j],
        decreases x.len() - i,
    {
        if x[i] < y[i] {
            assert(precedes_at(x@, y@, i as int));
            proof {
                lemma_key_lt_asymmetric(a@, b@);
            }
            return KeyOrder::Before;
        }
        if x[i] > y[i] {
            assert(precedes_at(y@, x@, i as int));
            proof {
                lemma_key_lt_asymmetric(b@, a@);
            }
            return KeyOrder::After;
        }
        i = i + 1;
    }
    if x.len() < y.len() {
        assert(precedes_at(x@, y@, i as int));
        proof {
            lemma_key_lt_asymmetric(a@, b@);
        }
        KeyOrder::Before
    } else if x.len() > y.len() {
        assert(precedes_at(y@, x@, i as int));
        proof {
            lemma_key_lt_asymmetric(b@, a@);
        }
        KeyOrder::After
    } else {
        proof {
            assert(x@ =~= y@);
            encode_utf8_decode_utf8(a@);
            encode_utf8_decode_utf8(b@);
            lemma_bytes_lt_irreflexive(x@);
        }
        KeyOrder::Same
    }
}

} // verus!
