//! The order of addresses: that of their bytes, first difference first,
//! a prefix before what extends it.

use vstd::prelude::*;
use vstd::utf8::encode_utf8;
use vstd::utf8::encode_utf8_decode_utf8;

verus! {

/// How one address stands to another.
#[derive(Clone, Copy, Debug, PartialEq, Eq, Structural)]
pub enum KeyOrder {
    Before,
    Same,
    After,
}

/// Whether `a` and `b` agree on their first `n` bytes.
pub open spec fn same_prefix(a: Seq<u8>, b: Seq<u8>, n: int) -> bool {
    forall|j: int| 0 <= j < n ==> a[j] == b[j]
}

/// Whether `a` comes before `b` with the first difference at `i`: either
/// `a` ends there and `b` goes on, or `a` has the smaller byte there.
pub open spec fn differs_at(a: Seq<u8>, b: Seq<u8>, i: int) -> bool {
    &&& 0 <= i <= a.len()
    &&& i <= b.len()
    &&& same_prefix(a, b, i)
    &&& (i == a.len() && i < b.len()) || (i < a.len() && i < b.len() && a[i] < b[i])
}

/// Whether the bytes `a` come before the bytes `b`.
pub open spec fn bytes_lt(a: Seq<u8>, b: Seq<u8>) -> bool {
    exists|i: int| differs_at(a, b, i)
}

/// Whether the address `a` comes before the address `b`.
pub open spec fn key_lt(a: Seq<char>, b: Seq<char>) -> bool {
    bytes_lt(encode_utf8(a), encode_utf8(b))
}

/// Whether the address `key` lies behind `bound`; every address lies
/// behind no bound.
pub open spec fn key_after(bound: Option<Seq<char>>, key: Seq<char>) -> bool {
    match bound {
        Some(b) => key_lt(b, key),
        None => true,
    }
}

/// The order is transitive.
pub proof fn lemma_bytes_lt_transitive(a: Seq<u8>, b: Seq<u8>, c: Seq<u8>)
    requires
        bytes_lt(a, b),
        bytes_lt(b, c),
    ensures
        bytes_lt(a, c),
{
    let i = choose|i: int| differs_at(a, b, i);
    let j = choose|j: int| differs_at(b, c, j);
    let k = if i < j {
        i
    } else {
        j
    };
    assert(differs_at(a, c, k));
}

/// The order is transitive on addresses.
pub proof fn lemma_key_lt_transitive(a: Seq<char>, b: Seq<char>, c: Seq<char>)
    requires
        key_lt(a, b),
        key_lt(b, c),
    ensures
        key_lt(a, c),
{
    lemma_bytes_lt_transitive(encode_utf8(a), encode_utf8(b), encode_utf8(c));
}

/// Nothing comes before itself.
pub proof fn lemma_bytes_lt_irreflexive(a: Seq<u8>)
    ensures
        !bytes_lt(a, a),
{
}

/// Addresses with the same bytes are the same address.
pub proof fn lemma_same_bytes_same_key(a: Seq<char>, b: Seq<char>)
    requires
        encode_utf8(a) == encode_utf8(b),
    ensures
        a == b,
{
    encode_utf8_decode_utf8(a);
    encode_utf8_decode_utf8(b);
}

/// How the bytes `a` stand to the bytes `b`.
pub fn order_of_bytes(a: &[u8], b: &[u8]) -> (r: KeyOrder)
    ensures
        r == KeyOrder::Before <==> bytes_lt(a@, b@),
        r == KeyOrder::Same <==> a@ == b@,
        r == KeyOrder::After <==> bytes_lt(b@, a@),
{
    let mut i: usize = 0;
    while i < a.len() && i < b.len()
        invariant
            i <= a@.len(),
            i <= b@.len(),
            same_prefix(a@, b@, i as int),
        decreases a@.len() - i,
    {
        if a[i] < b[i] {
            proof {
                assert(differs_at(a@, b@, i as int));
                lemma_first_difference_decides(a@, b@, i as int);
            }
            return KeyOrder::Before;
        }
        if a[i] > b[i] {
            proof {
                assert(same_prefix(b@, a@, i as int));
                assert(differs_at(b@, a@, i as int));
                lemma_first_difference_decides(b@, a@, i as int);
            }
            return KeyOrder::After;
        }
        i = i + 1;
    }
    if a.len() < b.len() {
        proof {
            assert(differs_at(a@, b@, i as int));
            lemma_first_difference_decides(a@, b@, i as int);
        }
        return KeyOrder::Before;
    }
    if a.len() > b.len() {
        proof {
            assert(same_prefix(b@, a@, i as int));
            assert(differs_at(b@, a@, i as int));
            lemma_first_difference_decides(b@, a@, i as int);
        }
        return KeyOrder::After;
    }
    proof {
        assert(a@ =~= b@);
        lemma_bytes_lt_irreflexive(a@);
    }
    KeyOrder::Same
}

/// Where `a` comes before `b`, the two differ and `b` does not come
/// before `a`.
pub proof fn lemma_first_difference_decides(a: Seq<u8>, b: Seq<u8>, i: int)
    requires
        differs_at(a, b, i),
    ensures
        bytes_lt(a, b),
        !bytes_lt(b, a),
        a != b,
{
    if bytes_lt(b, a) {
        let j = choose|j: int| differs_at(b, a, j);
        if i < j {
            assert(b[i] == a[i]);
        } else if j < i {
            assert(a[j] == b[j]);
        }
    }
    if a == b {
        lemma_bytes_lt_irreflexive(a);
    }
}

/// How the address `a` stands to the address `b`.
pub fn order_of(a: &String, b: &String) -> (r: KeyOrder)
    ensures
        r == KeyOrder::Before <==> key_lt(a@, b@),
        r == KeyOrder::Same <==> a@ == b@,
        r == KeyOrder::After <==> key_lt(b@, a@),
{
    let r = order_of_bytes(a.as_str().as_bytes(), b.as_str().as_bytes());
    proof {
        if encode_utf8(a@) == encode_utf8(b@) {
            lemma_same_bytes_same_key(a@, b@);
        }
    }
    r
}

proof fn lemma_bytes_differ_somewhere(a: Seq<u8>, b: Seq<u8>, i: int)
    requires
        a != b,
        0 <= i <= a.len(),
        i <= b.len(),
        same_prefix(a, b, i),
    ensures
        bytes_lt(a, b) || bytes_lt(b, a),
    decreases a.len() - i,
{
    if i == a.len() {
        if i == b.len() {
            assert(a =~= b);
        } else {
            assert(differs_at(a, b, i));
        }
    } else if i == b.len() {
        assert(same_prefix(b, a, i));
        assert(differs_at(b, a, i));
    } else if a[i] < b[i] {
        assert(differs_at(a, b, i));
    } else if a[i] > b[i] {
        assert(same_prefix(b, a, i));
        assert(differs_at(b, a, i));
    } else {
        lemma_bytes_differ_somewhere(a, b, i + 1);
    }
}

/// Of two different addresses one comes before the other, and only one.
pub proof fn lemma_key_order_is_total(a: Seq<char>, b: Seq<char>)
    requires
        a != b,
    ensures
        key_lt(a, b) != key_lt(b, a),
{
    if encode_utf8(a) == encode_utf8(b) {
        lemma_same_bytes_same_key(a, b);
    }
    lemma_bytes_differ_somewhere(encode_utf8(a), encode_utf8(b), 0);
    if key_lt(a, b) {
        let i = choose|i: int| differs_at(encode_utf8(a), encode_utf8(b), i);
        lemma_first_difference_decides(encode_utf8(a), encode_utf8(b), i);
    }
}

/// No address comes before itself.
pub proof fn lemma_key_lt_irreflexive(a: Seq<char>)
    ensures
        !key_lt(a, a),
{
    lemma_bytes_lt_irreflexive(encode_utf8(a));
}

} // verus!
