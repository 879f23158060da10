//! The shared-secret check that guards named uploads and deletions.
use vstd::prelude::*;

verus! {

/// True when `supplied` is present and equals `secret`.
pub open spec fn is_authorized(supplied: Option<Seq<char>>, secret: Seq<char>) -> bool {
    supplied == Some(secret)
}

proof fn lemma_diff_step(d: u8, x: u8, y: u8)
    ensures
        ((d | (x ^ y)) == 0u8) <==> (d == 0u8 && x == y),
{
    assert(((d | (x ^ y)) == 0u8) <==> (d == 0u8 && x == y)) by (bit_vector);
}

/// The text of a token as it arrived, if one did.
pub open spec fn token_view(supplied: Option<&str>) -> Option<Seq<char>> {
    match supplied {
        Some(s) => Some(s@),
        None => None,
    }
}

/// Compares two tokens byte by byte without stopping at the first
/// difference, so the time taken does not reveal where they differ.
pub fn tokens_match(supplied: &str, secret: &str) -> (r: bool)
    ensures
        r == (supplied@ == secret@),
{
    let a = supplied.as_bytes();
    let b = secret.as_bytes();
    proof {
        vstd::utf8::encode_utf8_decode_utf8(supplied@);
        vstd::utf8::encode_utf8_decode_utf8(secret@);
    }
    if a.len() != b.len() {
        return false;
    }
    let mut diff: u8 = 0;
    let mut i: usize = 0;
    while i < a.len()
        invariant
            i <= a@.len(),
            a@.len() == b@.len(),
            (diff == 0) <==> (a@.subrange(0, i as int) =~= b@.subrange(0, i as int)),
        decreases a@.len() - i,
    {
        proof {
            lemma_diff_step(diff, a@[i as int], b@[i as int]);
            assert(a@.subrange(0, i + 1) == a@.subrange(0, i as int).push(a@[i as int]));
            assert(b@.subrange(0, i + 1) == b@.subrange(0, i as int).push(b@[i as int]));
            if a@.subrange(0, i + 1) =~= b@.subrange(0, i + 1) {
                assert(a@.subrange(0, i + 1)[i as int] == b@.subrange(0, i + 1)[i as int]);
                assert(a@.subrange(0, i as int) =~= a@.subrange(0, i + 1).subrange(0, i as int));
                assert(b@.subrange(0, i as int) =~= b@.subrange(0, i + 1).subrange(0, i as int));
            }
        }
        diff = diff | (a[i] ^ b[i]);
        i = i + 1;
    }
    assert(a@.subrange(0, i as int) =~= a@);
    assert(b@.subrange(0, i as int) =~= b@);
    diff == 0
}

/// Whether a request that carries `supplied` (if anything) may change
/// stored pastes.
pub fn authorized(supplied: Option<&str>, secret: &str) -> (r: bool)
    ensures
        r == is_authorized(token_view(supplied), secret@),
{
    match supplied {
        Some(s) => tokens_match(s, secret),
        None => false,
    }
}

} // verus!
