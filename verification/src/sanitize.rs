//! Removal of markup from text that a user typed.

use vstd::prelude::*;

verus! {

/// The most characters that a text handed to the cleaner may have. The
/// cleaner keeps a text node in a buffer that it grows to the next power of
/// two, counted in 32 bits, so no text node may pass 2^31 bytes; and no
/// character of the input makes more than four bytes of a text node.
pub const CLEAN_MAX_LEN: usize = 0x2000_0000;

/// What is left of `src` once it is read as an HTML fragment and every tag
/// is taken out: the text between the tags, with `&`, `<` and `>` written as
/// entities.
pub uninterp spec fn stripped_of_tags(src: Seq<char>) -> Seq<char>;

/// Whether `text` holds a character that can open or close a tag.
pub open spec fn has_tag_delimiter(text: Seq<char>) -> bool {
    text.contains('<') || text.contains('>')
}

/// Whether the cleaner hands the character on as it is wherever it stands.
/// It does so for every character but these: `<` and `&`, which start a tag
/// or an entity; `>` and the no-break space, which it writes as entities;
/// and the null character and the carriage return, which its reader drops
/// or replaces.
pub open spec fn is_plain_char(c: char) -> bool {
    c != '<' && c != '>' && c != '&' && c != '\u{a0}' && c != '\0' && c != '\r'
}

/// Whether `text` is plain: it holds plain characters only, and so no
/// markup, and does not start with a byte order mark, which the cleaner's
/// reader drops from the start of a text and from nowhere else.
pub open spec fn is_plain_text(text: Seq<char>) -> bool {
    &&& forall|i: int| 0 <= i < text.len() ==> is_plain_char(#[trigger] text[i])
    &&& text.len() > 0 ==> text[0] != '\u{feff}'
}

/// Whether `src` is short enough for the cleaner.
pub fn fits_cleaner(src: &str) -> (fits: bool)
    ensures
        fits == (src@.len() <= CLEAN_MAX_LEN),
{
    src.unicode_len() <= CLEAN_MAX_LEN
}

/// Strips every tag from `src`. No tag is allowed to stay; the text between
/// tags is kept.
///
/// Calls `ammonia::Builder::clean` on the default builder with an empty set
/// of allowed tags, and the `Display` of the document it returns.
///
/// Trusted: the result is a function of `src` alone, named
/// [`stripped_of_tags`]; it holds neither `<` nor `>`; and plain text comes
/// back as it went in. With no tag allowed the cleaner keeps text nodes
/// only, and the serializer writes `<` and `>` of a text node as `&lt;` and
/// `&gt;`. The reader hands every plain character on unchanged and the
/// serializer rewrites none of them. The cleaner panics where a text node
/// would pass 2^31 bytes: `requires` leaves out every text long enough for
/// that.
#[verifier::external_body]
pub fn clean_html(src: &str) -> (cleaned: String)
    requires
        src@.len() <= CLEAN_MAX_LEN,
    ensures
        cleaned@ == stripped_of_tags(src@),
        !has_tag_delimiter(cleaned@),
        is_plain_text(src@) ==> cleaned@ == src@,
{
    ::ammonia::Builder::default().tags(std::collections::HashSet::new()).clean(src).to_string()
}

/// Strips every tag from `src`, where it is short enough for the cleaner;
/// `None` where it is not.
pub fn clean_checked(src: &str) -> (cleaned: Option<String>)
    ensures
        cleaned is Some <==> src@.len() <= CLEAN_MAX_LEN,
        cleaned matches Some(text) ==> {
            &&& text@ == stripped_of_tags(src@)
            &&& !has_tag_delimiter(text@)
            &&& is_plain_text(src@) ==> text@ == src@
        },
{
    if fits_cleaner(src) {
        Some(clean_html(src))
    } else {
        None
    }
}

/// Strips every tag from a field that may be absent.
pub fn clean_optional(src: Option<&str>) -> (cleaned: Option<String>)
    requires
        src matches Some(text) ==> text@.len() <= CLEAN_MAX_LEN,
    ensures
        cleaned is Some <==> src is Some,
        cleaned matches Some(text) ==> {
            &&& text@ == stripped_of_tags(src.unwrap()@)
            &&& !has_tag_delimiter(text@)
            &&& is_plain_text(src.unwrap()@) ==> text@ == src.unwrap()@
        },
{
    match src {
        Some(text) => Some(clean_html(text)),
        None => None,
    }
}

} // verus!
