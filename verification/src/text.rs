//! The order of section keys: strings compared byte by byte in their UTF-8
//! form, as `str` itself is ordered.

use vstd::prelude::*;
use vstd::string::*;
use vstd::utf8::*;

verus! {

/// Whether `a` and `b` agree on their first `k` bytes and `a` comes first
/// from there: `a` ends at `k` and `b` goes on, or `a` has the smaller byte.
pub open spec fn bytes_split_at(a: Seq<u8>, b: Seq<u8>, k: int) -> bool {
    &&& 0 <= k <= a.len()
    &&& k <= b.len()
    &&& forall|j: int| 0 <= j < k ==> a[j] == b[j]
    &&& if k == a.len() {
        k < b.len()
    } else {
        k < b.len() && a[k] < b[k]
    }
}

/// Whether `a` is strictly before `b` in lexicographic order.
pub open spec fn bytes_before(a: Seq<u8>, b: Seq<u8>) -> bool {
    exists|k: int| bytes_split_at(a, b, k)
}

/// Whether key `a` is strictly before key `b`.
pub open spec fn key_before(a: Seq<char>, b: Seq<char>) -> bool {
    bytes_before(encode_utf8(a), encode_utf8(b))
}

/// Whether the keys of `keys` stand in strictly increasing order.
pub open spec fn keys_increasing(keys: Seq<Seq<char>>) -> bool {
    forall|i: int, j: int| 0 <= i < j < keys.len() ==> key_before(keys[i], keys[j])
}

/// A byte string is not before itself, and no two are before each other.
pub proof fn lemma_bytes_one_way(a: Seq<u8>, b: Seq<u8>)
    requires
        bytes_before(a, b),
    ensures
        a != b,
        !bytes_before(b, a),
{
    let k = choose|k: int| bytes_split_at(a, b, k);
    if bytes_before(b, a) {
        let m = choose|m: int| bytes_split_at(b, a, m);
        if k < m {
            assert(b[k] == a[k]);
        } else if m < k {
            assert(a[m] == b[m]);
        }
    }
}

/// The order is transitive.
pub proof fn lemma_bytes_transitive(a: Seq<u8>, b: Seq<u8>, c: Seq<u8>)
    requires
        bytes_before(a, b),
        bytes_before(b, c),
    ensures
        bytes_before(a, c),
{
    let k = choose|k: int| bytes_split_at(a, b, k);
    let m = choose|m: int| bytes_split_at(b, c, m);
    if k <= m {
        assert forall|j: int| 0 <= j < k implies a[j] == c[j] by {
            assert(a[j] == b[j] && b[j] == c[j]);
        }
        if k < m {
            assert(b[k] == c[k]);
        }
        assert(bytes_split_at(a, c, k));
    } else {
        assert forall|j: int| 0 <= j < m implies a[j] == c[j] by {
            assert(a[j] == b[j] && b[j] == c[j]);
        }
        assert(a[m] == b[m]);
        assert(bytes_split_at(a, c, m));
    }
}

/// Two keys with the same UTF-8 bytes are the same key.
pub proof fn lemma_same_bytes_same_key(a: Seq<char>, b: Seq<char>)
    requires
        encode_utf8(a) == encode_utf8(b),
    ensures
        a == b,
{
    encode_utf8_decode_utf8(a);
    encode_utf8_decode_utf8(b);
}

/// A key is not before itself, and no two keys are before each other.
pub proof fn lemma_keys_one_way(a: Seq<char>, b: Seq<char>)
    requires
        key_before(a, b),
    ensures
        a != b,
        !key_before(b, a),
{
    lemma_bytes_one_way(encode_utf8(a), encode_utf8(b));
}

/// The order of keys is transitive.
pub proof fn lemma_keys_transitive(a: Seq<char>, b: Seq<char>, c: Seq<char>)
    requires
        key_before(a, b),
        key_before(b, c),
    ensures
        key_before(a, c),
{
    lemma_bytes_transitive(encode_utf8(a), encode_utf8(b), encode_utf8(c));
}

/// How one key stands to another.
#[derive(Clone, Copy, Debug, PartialEq, Eq, Structural)]
pub enum KeyOrder {
    Before,
    Same,
    After,
}

/// Compares two keys byte by byte.
pub fn key_order(a: &str, b: &str) -> (r: KeyOrder)
    ensures
        r is Before <==> key_before(a@, b@),
        r is Same <==> a@ == b@,
        r is After <==> key_before(b@, a@),
{
    let x = a.as_bytes();
    let y = b.as_bytes();
    let n = if x.len() < y.len() {
        x.len()
    } else {
        y.len()
    };
    let mut i: usize = 0;
    while i < n
        invariant
            i <= n,
            n <= x@.len(),
            n <= y@.len(),
            x@ == encode_utf8(a@),
            y@ == encode_utf8(b@),
            forall|j: int| 0 <= j < i ==> x@[j] == y@[j],
        decreases n - i,
    {
        if x[i] < y[i] {
            proof {
                assert(bytes_split_at(x@, y@, i as int));
                lemma_keys_one_way(a@, b@);
            }
            return KeyOrder::Before;
        }
        if y[i] < x[i] {
            proof {
                assert(bytes_split_at(y@, x@, i as int));
                lemma_keys_one_way(b@, a@);
            }
            return KeyOrder::After;
        }
        i += 1;
    }
    if x.len() < y.len() {
        proof {
            assert(bytes_split_at(x@, y@, n as int));
            lemma_keys_one_way(a@, b@);
        }
        KeyOrder::Before
    } else if y.len() < x.len() {
        proof {
            assert(bytes_split_at(y@, x@, n as int));
            lemma_keys_one_way(b@, a@);
        }
        KeyOrder::After
    } else {
        proof {
            assert(x@ =~= y@);
            lemma_same_bytes_same_key(a@, b@);
            if key_before(a@, b@) {
                lemma_keys_one_way(a@, b@);
            }
        }
        KeyOrder::Same
    }
}

/// Whether two texts hold the same characters.
pub fn same_text(a: &str, b: &str) -> (r: bool)
    ensures
        r == (a@ == b@),
{
    match key_order(a, b) {
        KeyOrder::Same => true,
        _ => false,
    }
}

} // verus!
