//! Text helpers: case folding, trimming, truncation and path joining.

use vstd::prelude::*;
use vstd::utf8::{encode_scalar, encode_utf8, is_char_boundary};

verus! {

/// What `str::to_lowercase` yields for a sequence of characters.
pub uninterp spec fn lower_of(s: Seq<char>) -> Seq<char>;

/// What `str::trim` yields for a sequence of characters.
pub uninterp spec fn trimmed_of(s: Seq<char>) -> Seq<char>;

/// Relies on `str::to_lowercase`: the result depends on the characters alone,
/// and the empty string stays empty.
#[verifier::external_body]
pub(crate) fn lowercase(s: &str) -> (r: String)
    ensures
        r@ == lower_of(s@),
        s@.len() == 0 ==> r@.len() == 0,
{
    s.to_lowercase()
}

/// Relies on `str::trim`: the result depends on the characters alone, and
/// is a part of the input, so no longer than it.
#[verifier::external_body]
pub(crate) fn trim(s: &str) -> (r: String)
    ensures
        r@ == trimmed_of(s@),
        r@.len() <= s@.len(),
{
    String::from(s.trim())
}

/// The path `p` appended to the directory `b`, as `Path::join` does on Unix:
/// an absolute `p` replaces `b`, and exactly one separator stands between them.
pub open spec fn joined(b: Seq<char>, p: Seq<char>) -> Seq<char> {
    if p.len() > 0 && p[0] == '/' {
        p
    } else if b.len() == 0 || b.last() == '/' {
        b + p
    } else {
        b + seq!['/'] + p
    }
}

/// Appends the path component `p` to the directory `b`.
pub fn join_path(b: &String, p: &str) -> (r: String)
    ensures
        r@ == joined(b@, p@),
{
    let plen = p.unicode_len();
    if plen > 0 && p.get_char(0) == '/' {
        return String::from_str(p);
    }
    let blen = b.unicode_len();
    let mut r = b.clone();
    if blen == 0 || b.as_str().get_char(blen - 1) == '/' {
        r.append(p);
        assert(r@ =~= joined(b@, p@));
    } else {
        r.append("/");
        r.append(p);
        proof {
            reveal_strlit("/");
        }
        assert(r@ =~= joined(b@, p@));
    }
    r
}

/// The UTF-8 bytes `b` cut to at most `max` bytes, the last three of a cut
/// text being `...`.
pub open spec fn truncated(b: Seq<u8>, max: int) -> Seq<u8> {
    if b.len() <= max {
        b
    } else {
        b.take(max - 3) + seq![46u8, 46u8, 46u8]
    }
}

/// Whether `s` can be cut to `max` bytes: it fits already, or the cut, three
/// bytes before `max`, falls between two characters.
pub open spec fn can_truncate(s: Seq<char>, max: int) -> bool {
    encode_utf8(s).len() <= max || (max >= 3 && is_char_boundary(encode_utf8(s), max - 3))
}

proof fn lemma_encode_concat(a: Seq<char>, b: Seq<char>)
    ensures
        encode_utf8(a + b) == encode_utf8(a) + encode_utf8(b),
    decreases a.len(),
{
    if a.len() > 0 {
        assert((a + b).drop_first() =~= a.drop_first() + b);
        lemma_encode_concat(a.drop_first(), b);
        assert(encode_utf8(a + b) =~= encode_utf8(a) + encode_utf8(b));
    } else {
        assert(a + b =~= b);
        assert(encode_utf8(a) + encode_utf8(b) =~= encode_utf8(b));
    }
}

proof fn lemma_encode_dots()
    ensures
        encode_utf8(seq!['.', '.', '.']) == seq![46u8, 46u8, 46u8],
{
    assert((46u32 & 0x7Fu32) as u8 == 46u8) by (bit_vector);
    assert(('.' as u32) == 46u32);
    assert(encode_scalar(46u32) =~= seq![46u8]);
    let d3 = seq!['.', '.', '.'];
    let d2 = seq!['.', '.'];
    let d1 = seq!['.'];
    let d0 = Seq::<char>::empty();
    assert(d3.drop_first() =~= d2);
    assert(d2.drop_first() =~= d1);
    assert(d1.drop_first() =~= d0);
    assert(encode_utf8(d0) =~= Seq::<u8>::empty());
    assert(encode_utf8(d1) =~= seq![46u8]);
    assert(encode_utf8(d2) =~= seq![46u8, 46u8]);
    assert(encode_utf8(d3) =~= seq![46u8, 46u8, 46u8]);
}

/// Cutting a text a second time to the same width changes nothing.
pub proof fn lemma_truncate_idempotent(b: Seq<u8>, max: int)
    requires
        b.len() <= max || max >= 3,
    ensures
        truncated(b, max).len() <= max,
        truncated(truncated(b, max), max) == truncated(b, max),
{
}

/// Shortens `s` for display to at most `max` bytes of UTF-8, ending a cut
/// text with `...`. The cut is made by bytes, so `requires` leaves out a text
/// whose cut would fall inside a character.
pub fn truncate(s: &str, max: usize) -> (r: String)
    requires
        can_truncate(s@, max as int),
    ensures
        encode_utf8(r@) == truncated(encode_utf8(s@), max as int),
{
    if s.as_bytes().len() <= max {
        String::from_str(s)
    } else {
        let (head, _) = s.split_at(max - 3);
        let mut r = String::from_str(head);
        r.append("...");
        proof {
            reveal_strlit("...");
            lemma_encode_concat(head@, "..."@);
            assert("..."@ =~= seq!['.', '.', '.']);
            lemma_encode_dots();
            assert(encode_utf8(r@) =~= truncated(encode_utf8(s@), max as int));
        }
        r
    }
}

/// Whether a trimmed, case-folded answer is `yes`.
pub fn is_yes(answer_l: &String) -> (r: bool)
    ensures
        r == (answer_l@ == seq!['y', 'e', 's']),
{
    let yes = String::from_str("yes");
    proof {
        reveal_strlit("yes");
    }
    assert(yes@ =~= seq!['y', 'e', 's']);
    *answer_l == yes
}

/// Whether a typed answer confirms a removal: `yes` in any case, with
/// surrounding whitespace ignored.
pub fn is_confirmation(input: &String) -> (r: bool)
    ensures
        r == (lower_of(trimmed_of(input@)) == seq!['y', 'e', 's']),
{
    let t = trim(input.as_str());
    let l = lowercase(t.as_str());
    is_yes(&l)
}

} // verus!
