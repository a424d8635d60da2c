//! The order of `String`: lexicographic over the UTF-8 bytes.
use vstd::prelude::*;
use vstd::utf8::encode_utf8;

verus! {

/// `a` comes strictly after `b` in lexicographic byte order.
pub open spec fn bytes_after(a: Seq<u8>, b: Seq<u8>) -> bool
    decreases a.len(),
{
    if a.len() == 0 {
        false
    } else if b.len() == 0 {
        true
    } else if a[0] != b[0] {
        a[0] > b[0]
    } else {
        bytes_after(a.drop_first(), b.drop_first())
    }
}

/// Text `a` sorts strictly after text `b`, as `String`'s `>` decides it.
pub open spec fn text_after(a: Seq<char>, b: Seq<char>) -> bool {
    bytes_after(encode_utf8(a), encode_utf8(b))
}

/// No byte string comes after itself.
pub proof fn lemma_bytes_after_irreflexive(a: Seq<u8>)
    ensures
        !bytes_after(a, a),
    decreases a.len(),
{
    if a.len() > 0 {
        lemma_bytes_after_irreflexive(a.drop_first());
    }
}

/// Lexicographic byte order is transitive.
pub proof fn lemma_bytes_after_transitive(a: Seq<u8>, b: Seq<u8>, c: Seq<u8>)
    requires
        bytes_after(a, b),
        bytes_after(b, c),
    ensures
        bytes_after(a, c),
    decreases a.len(),
{
    if a.len() > 0 && b.len() > 0 && c.len() > 0 && a[0] == b[0] && b[0] == c[0] {
        lemma_bytes_after_transitive(a.drop_first(), b.drop_first(), c.drop_first());
    }
}

/// Decides whether `a` comes strictly after `b` in lexicographic byte order.
pub fn bytes_later(a: &[u8], b: &[u8]) -> (r: bool)
    ensures
        r == bytes_after(a@, b@),
{
    let mut i: usize = 0;
    assert(a@.skip(0) =~= a@);
    assert(b@.skip(0) =~= b@);
    while i < a.len() && i < b.len()
        invariant
            i <= a@.len(),
            i <= b@.len(),
            bytes_after(a@, b@) == bytes_after(a@.skip(i as int), b@.skip(i as int)),
        decreases a@.len() - i,
    {
        if a[i] != b[i] {
            return a[i] > b[i];
        }
        assert(a@.skip(i as int).drop_first() =~= a@.skip(i + 1));
        assert(b@.skip(i as int).drop_first() =~= b@.skip(i + 1));
        i = i + 1;
    }
    i < a.len()
}

/// Decides whether text `a` sorts strictly after text `b`.
pub fn text_later(a: &str, b: &str) -> (r: bool)
    ensures
        r == text_after(a@, b@),
{
    bytes_later(a.as_bytes(), b.as_bytes())
}

} // verus!
