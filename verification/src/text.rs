//! Text helpers that the game is built on: comparing strings, cutting a
//! command word off the front of a chat line, dropping whitespace, and
//! splitting text into grapheme clusters.

use vstd::prelude::*;
use vstd::utf8::*;

verus! {

/// Encoding a concatenation gives the concatenation of the encodings.
pub proof fn lemma_encode_concat(a: Seq<char>, b: Seq<char>)
    ensures
        encode_utf8(a + b) == encode_utf8(a) + encode_utf8(b),
    decreases a.len(),
{
    if a.len() == 0 {
        assert(a + b =~= b);
        assert(encode_utf8(a) + encode_utf8(b) =~= encode_utf8(b));
    } else {
        lemma_encode_concat(a.drop_first(), b);
        assert((a + b).drop_first() =~= a.drop_first() + b);
        assert(encode_utf8(a + b) =~= encode_utf8(a) + encode_utf8(b));
    }
}

/// Two texts with the same encoding are the same text.
pub proof fn lemma_encode_injective(a: Seq<char>, b: Seq<char>)
    requires
        encode_utf8(a) == encode_utf8(b),
    ensures
        a == b,
{
    encode_utf8_decode_utf8(a);
    encode_utf8_decode_utf8(b);
}

/// Whether two strings hold the same characters.
pub fn same_text(a: &str, b: &str) -> (same: bool)
    ensures
        same == (a@ == b@),
{
    let x = a.as_bytes();
    let y = b.as_bytes();
    proof {
        if a@ != b@ && x@ == y@ {
            lemma_encode_injective(a@, b@);
        }
    }
    if x.len() != y.len() {
        return false;
    }
    let mut i: usize = 0;
    while i < x.len()
        invariant
            x.len() == y.len(),
            x@ == encode_utf8(a@),
            y@ == encode_utf8(b@),
            i <= x.len(),
            forall|j: int| 0 <= j < i ==> x@[j] == y@[j],
        decreases x.len() - i,
    {
        if x[i] != y[i] {
            return false;
        }
        i += 1;
    }
    assert(x@ =~= y@);
    true
}

/// Where one encoded text ends and the next begins is a character boundary
/// of their concatenation.
pub proof fn lemma_boundary_at_concat(a: Seq<char>, b: Seq<char>)
    ensures
        is_char_boundary(encode_utf8(a + b), encode_utf8(a).len() as int),
    decreases a.len(),
{
    let bytes = encode_utf8(a + b);
    encode_utf8_valid_utf8(a + b);
    if a.len() == 0 {
    } else {
        let rest = a.drop_first();
        lemma_encode_concat(a, b);
        lemma_encode_concat(rest, b);
        encode_utf8_first_scalar(a + b);
        assert((a + b).drop_first() =~= rest + b);
        assert(pop_first_scalar(bytes) =~= encode_utf8(rest + b));
        lemma_boundary_at_concat(rest, b);
        assert(encode_utf8(a).len() == encode_scalar(a[0] as u32).len() + encode_utf8(rest).len());
    }
}

/// What follows `prefix` in `text`, where `text` begins with `prefix`.
pub fn after_prefix<'a>(text: &'a str, prefix: &str) -> (rest: Option<&'a str>)
    ensures
        match rest {
            Some(tail) => text@ == prefix@ + tail@,
            None => !prefix@.is_prefix_of(text@),
        },
{
    let n = prefix.as_bytes().len();
    let len = text.as_bytes().len();
    proof {
        encode_utf8_valid_utf8(text@);
        if prefix@.is_prefix_of(text@) {
            let tail = text@.subrange(prefix@.len() as int, text@.len() as int);
            assert(text@ =~= prefix@ + tail);
            lemma_encode_concat(prefix@, tail);
            lemma_boundary_at_concat(prefix@, tail);
            assert(encode_utf8(text@).subrange(0, n as int) =~= encode_utf8(prefix@));
        }
    }
    if len < n || !text.is_char_boundary(n) {
        return None;
    }
    let (head, tail) = text.split_at(n);
    proof {
        decode_utf8_split(encode_utf8(text@), n as int);
        encode_utf8_decode_utf8(text@);
        encode_utf8_decode_utf8(head@);
        encode_utf8_decode_utf8(tail@);
        assert(text@ == head@ + tail@);
        if prefix@.is_prefix_of(text@) {
            lemma_encode_injective(head@, prefix@);
        }
    }
    if same_text(head, prefix) {
        Some(tail)
    } else {
        None
    }
}

/// Whether a character has Unicode's `White_Space` property.
pub uninterp spec fn is_whitespace(c: char) -> bool;

/// `char::is_whitespace` of std: tells whether the character has the
/// `White_Space` property, which is what [`is_whitespace`] names.
#[verifier::external_body]
fn char_is_whitespace(c: char) -> (blank: bool)
    ensures
        blank == is_whitespace(c),
{
    c.is_whitespace()
}

/// `String::push` of std: appends one character at the end of the string.
#[verifier::external_body]
fn push_char(text: &mut String, c: char)
    ensures
        final(text)@ == old(text)@.push(c),
{
    text.push(c)
}

/// A text with its whitespace characters taken out, the others in their order.
pub open spec fn without_whitespace(text: Seq<char>) -> Seq<char> {
    text.filter(|c: char| !is_whitespace(c))
}

/// Copies a text, leaving out every whitespace character.
pub fn strip_whitespace(text: &str) -> (stripped: String)
    ensures
        stripped@ == without_whitespace(text@),
{
    let mut stripped = String::new();
    for c in it: text.chars()
        invariant
            it.seq() == text@,
            stripped@ == without_whitespace(text@.take(it.index() as int)),
    {
        proof {
            let seen = text@.take(it.index() as int);
            assert(text@.take(it.index() + 1) =~= seen.push(c));
            Seq::lemma_filter_push(seen, c, |c: char| !is_whitespace(c));
        }
        if !char_is_whitespace(c) {
            push_char(&mut stripped, c);
        }
    }
    assert(text@.take(text@.len() as int) =~= text@);
    stripped
}

/// The extended grapheme clusters of a text, in their order: the units that a
/// reader takes for single characters, as Unicode's rules for text
/// segmentation cut them.
pub uninterp spec fn grapheme_clusters(text: Seq<char>) -> Seq<Seq<char>>;

/// `UnicodeSegmentation::graphemes` of the crate unicode-segmentation, asked
/// for extended clusters and collected: the slices of `text` that are its
/// grapheme clusters, which is what [`grapheme_clusters`] names.
#[verifier::external_body]
pub(crate) fn graphemes<'a>(text: &'a str) -> (parts: Vec<&'a str>)
    ensures
        parts.deep_view() == grapheme_clusters(text@),
{
    unicode_segmentation::UnicodeSegmentation::graphemes(text, true).collect()
}

} // verus!
