//! What the rules ask of a piece of script text: whether it reads as a flag,
//! how two pieces are ordered, and how a piece is cut out of the script.

use vstd::prelude::*;
use vstd::string::StrSliceExecFns;
use vstd::string::StringSliceAdditionalSpecFns;
use vstd::utf8::decode_utf8;
use vstd::utf8::encode_utf8;
use vstd::utf8::encode_utf8_decode_utf8;
use vstd::utf8::encode_utf8_valid_utf8;
use vstd::utf8::is_char_boundary;
use vstd::utf8::is_char_boundary_iff_not_is_continuation_byte;
use vstd::utf8::is_char_boundary_start_end_of_seq;
use vstd::utf8::valid_utf8;
use vstd::utf8::valid_utf8_split;

verus! {

/// A piece of text reads as a flag when it begins with a dash.
pub open spec fn is_flag(text: Seq<char>) -> bool {
    text.len() > 0 && text[0] == '-'
}

/// Decides `is_flag`.
pub fn starts_with_dash(text: &str) -> (r: bool)
    ensures
        r == is_flag(text@),
{
    if text.is_empty() {
        false
    } else {
        text.get_char(0) == '-'
    }
}

/// `a` and `b` agree on their first `n` bytes.
pub open spec fn agree_upto(a: Seq<u8>, b: Seq<u8>, n: int) -> bool {
    &&& 0 <= n <= a.len()
    &&& n <= b.len()
    &&& forall|k: int| 0 <= k < n ==> a[k] == b[k]
}

/// Lexical order on byte strings: `a` comes no later than `b` when `a` is a
/// prefix of `b`, or when at the first place where they differ `a` has the
/// smaller byte.
pub open spec fn lex_le(a: Seq<u8>, b: Seq<u8>) -> bool {
    ||| agree_upto(a, b, a.len() as int)
    ||| exists|i: int| #[trigger] agree_upto(a, b, i) && i < a.len() && i < b.len() && a[i] < b[i]
}

/// Lexical order on text, taken on its UTF-8 bytes.
pub open spec fn text_le(a: Seq<char>, b: Seq<char>) -> bool {
    lex_le(encode_utf8(a), encode_utf8(b))
}

/// `a` comes strictly before `b`.
pub open spec fn text_lt(a: Seq<char>, b: Seq<char>) -> bool {
    text_le(a, b) && a != b
}

/// The first place at which `a` and `b` differ, or the length of the shorter
/// where neither has a differing place.
pub open spec fn first_difference(a: Seq<u8>, b: Seq<u8>) -> int
    decreases a.len(),
{
    if a.len() == 0 || b.len() == 0 || a[0] != b[0] {
        0
    } else {
        1 + first_difference(a.drop_first(), b.drop_first())
    }
}

/// `a` and `b` agree up to their first difference, and differ there unless
/// one of them ends there.
pub proof fn lemma_first_difference(a: Seq<u8>, b: Seq<u8>)
    ensures
        agree_upto(a, b, first_difference(a, b)),
        first_difference(a, b) < a.len() && first_difference(a, b) < b.len() ==> a[first_difference(
            a,
            b,
        )] != b[first_difference(a, b)],
    decreases a.len(),
{
    if a.len() > 0 && b.len() > 0 && a[0] == b[0] {
        let x = a.drop_first();
        let y = b.drop_first();
        lemma_first_difference(x, y);
        assert forall|k: int| 0 <= k < first_difference(a, b) implies a[k] == b[k] by {
            if k > 0 {
                assert(x[k - 1] == y[k - 1]);
            }
        }
    }
}

/// Where `a` and `b` agree up to `n` and differ at `n`, `lex_le` is decided
/// by the bytes at `n`.
pub proof fn lemma_lex_le_at_difference(a: Seq<u8>, b: Seq<u8>, n: int)
    requires
        agree_upto(a, b, n),
        n < a.len(),
        n < b.len(),
        a[n] != b[n],
    ensures
        lex_le(a, b) <==> a[n] < b[n],
{
}

/// Where `a` and `b` agree up to `n` and one of them ends at `n`, `lex_le`
/// holds exactly when it is `a` that ends there.
pub proof fn lemma_lex_le_at_end(a: Seq<u8>, b: Seq<u8>, n: int)
    requires
        agree_upto(a, b, n),
        n == a.len() || n == b.len(),
    ensures
        lex_le(a, b) <==> n == a.len(),
{
}

/// Of two byte strings one comes no later than the other.
pub proof fn lemma_lex_le_total(a: Seq<u8>, b: Seq<u8>)
    ensures
        lex_le(a, b) || lex_le(b, a),
{
    let n = first_difference(a, b);
    lemma_first_difference(a, b);
    if n < a.len() && n < b.len() {
        lemma_lex_le_at_difference(a, b, n);
        lemma_lex_le_at_difference(b, a, n);
    } else {
        lemma_lex_le_at_end(a, b, n);
        lemma_lex_le_at_end(b, a, n);
    }
}

/// Two byte strings that each come no later than the other are equal.
pub proof fn lemma_lex_le_antisymmetric(a: Seq<u8>, b: Seq<u8>)
    requires
        lex_le(a, b),
        lex_le(b, a),
    ensures
        a == b,
{
    let n = first_difference(a, b);
    lemma_first_difference(a, b);
    if n < a.len() && n < b.len() {
        lemma_lex_le_at_difference(a, b, n);
        lemma_lex_le_at_difference(b, a, n);
    } else {
        lemma_lex_le_at_end(a, b, n);
        lemma_lex_le_at_end(b, a, n);
        assert(a =~= b);
    }
}

/// `lex_le` passes on from `a` through `b` to `c`.
pub proof fn lemma_lex_le_transitive(a: Seq<u8>, b: Seq<u8>, c: Seq<u8>)
    requires
        lex_le(a, b),
        lex_le(b, c),
    ensures
        lex_le(a, c),
{
    let n = first_difference(a, b);
    let m = first_difference(b, c);
    lemma_first_difference(a, b);
    lemma_first_difference(b, c);
    if n < a.len() && n < b.len() {
        lemma_lex_le_at_difference(a, b, n);
    } else {
        lemma_lex_le_at_end(a, b, n);
    }
    if m < b.len() && m < c.len() {
        lemma_lex_le_at_difference(b, c, m);
    } else {
        lemma_lex_le_at_end(b, c, m);
    }
    let k = if n <= m {
        n
    } else {
        m
    };
    assert(agree_upto(a, c, k));
}

/// The order on text is total: of two pieces one comes no later than the
/// other, and `a` fails to come at or before `b` exactly when `b` comes
/// strictly before `a`.
pub proof fn law_text_order_is_total(a: Seq<char>, b: Seq<char>)
    ensures
        text_le(a, a),
        text_le(a, b) || text_le(b, a),
        !text_le(a, b) <==> text_lt(b, a),
{
    lemma_lex_le_total(encode_utf8(a), encode_utf8(b));
    if text_le(a, b) && text_le(b, a) {
        lemma_lex_le_antisymmetric(encode_utf8(a), encode_utf8(b));
        encode_utf8_decode_utf8(a);
        encode_utf8_decode_utf8(b);
    }
}

/// The order on text passes on from `a` through `b` to `c`.
pub proof fn law_text_order_is_transitive(a: Seq<char>, b: Seq<char>, c: Seq<char>)
    requires
        text_le(a, b),
        text_le(b, c),
    ensures
        text_le(a, c),
{
    lemma_lex_le_transitive(encode_utf8(a), encode_utf8(b), encode_utf8(c));
}

/// Decides `lex_le`.
pub fn bytes_le(a: &[u8], b: &[u8]) -> (r: bool)
    ensures
        r == lex_le(a@, b@),
{
    let mut i: usize = 0;
    while i < a.len() && i < b.len()
        invariant
            agree_upto(a@, b@, i as int),
        decreases a@.len() - i,
    {
        if a[i] != b[i] {
            proof {
                lemma_lex_le_at_difference(a@, b@, i as int);
            }
            return a[i] < b[i];
        }
        i = i + 1;
    }
    proof {
        lemma_lex_le_at_end(a@, b@, i as int);
    }
    a.len() <= b.len()
}

/// Decides `text_le`: whether `a` sorts at or before `b`.
pub fn sorts_before_or_at(a: &str, b: &str) -> (r: bool)
    ensures
        r == text_le(a@, b@),
{
    bytes_le(a.as_bytes(), b.as_bytes())
}

/// The bytes from `start` up to `end` are a piece of `bytes` that holds whole
/// characters only.
pub open spec fn is_piece(bytes: Seq<u8>, start: int, end: int) -> bool {
    &&& 0 <= start <= end <= bytes.len()
    &&& is_char_boundary(bytes, start)
    &&& is_char_boundary(bytes, end)
}

/// `piece` is cut out of `whole`: its bytes are a piece of the bytes of
/// `whole`.
pub open spec fn is_excerpt(piece: Seq<char>, whole: Seq<char>) -> bool {
    exists|start: int, end: int| #[trigger]
        is_piece(encode_utf8(whole), start, end) && encode_utf8(piece) == encode_utf8(
            whole,
        ).subrange(start, end)
}

/// The text that the bytes of `whole` from `start` up to `end` spell.
pub open spec fn piece_of(whole: Seq<char>, start: int, end: int) -> Seq<char> {
    decode_utf8(encode_utf8(whole).subrange(start, end))
}

/// In valid UTF-8, a place at or after a character boundary `start` is a
/// boundary of the whole exactly when it is one of the part from `start` on.
pub proof fn lemma_boundary_of_tail(bytes: Seq<u8>, start: int, end: int)
    requires
        valid_utf8(bytes),
        0 <= start <= end <= bytes.len(),
        is_char_boundary(bytes, start),
    ensures
        valid_utf8(bytes.subrange(start, bytes.len() as int)),
        is_char_boundary(bytes, end) <==> is_char_boundary(
            bytes.subrange(start, bytes.len() as int),
            end - start,
        ),
{
    let tail = bytes.subrange(start, bytes.len() as int);
    valid_utf8_split(bytes, start);
    if end < bytes.len() {
        is_char_boundary_iff_not_is_continuation_byte(bytes, end);
        is_char_boundary_iff_not_is_continuation_byte(tail, end - start);
    } else {
        is_char_boundary_start_end_of_seq(bytes);
        is_char_boundary_start_end_of_seq(tail);
    }
}

/// Cuts the bytes from `start` up to `end` out of `text`. There is such a
/// piece exactly when both ends lie inside the text, in order, and on
/// character boundaries.
pub fn slice_text<'a>(text: &'a str, start: usize, end: usize) -> (r: Option<&'a str>)
    ensures
        r is Some <==> is_piece(text.spec_bytes(), start as int, end as int),
        r matches Some(piece) ==> piece.spec_bytes() == text.spec_bytes().subrange(
            start as int,
            end as int,
        ),
        r matches Some(piece) ==> piece@ == piece_of(text@, start as int, end as int),
        r matches Some(piece) ==> is_excerpt(piece@, text@),
{
    proof {
        encode_utf8_valid_utf8(text@);
    }
    if start <= end && end <= text.as_bytes().len() && text.is_char_boundary(start) {
        let (_, tail) = text.split_at(start);
        proof {
            lemma_boundary_of_tail(text.spec_bytes(), start as int, end as int);
            assert(tail.spec_bytes() == text.spec_bytes().subrange(
                start as int,
                text.spec_bytes().len() as int,
            ));
        }
        if tail.is_char_boundary(end - start) {
            let (piece, _) = tail.split_at(end - start);
            assert(piece.spec_bytes() =~= text.spec_bytes().subrange(start as int, end as int));
            proof {
                encode_utf8_decode_utf8(piece@);
            }
            Some(piece)
        } else {
            None
        }
    } else {
        None
    }
}

} // verus!
