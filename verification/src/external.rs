//! The calls this library makes into code that Verus does not read: `std`
//! functions that vstd gives no specification, and `syn`. Each item's
//! contract is trusted, not proved.
use vstd::prelude::*;

verus! {

/// `String::push`: claims that `c` is appended at the end of `s`.
#[verifier::external_body]
pub(crate) fn push_char(s: &mut String, c: char)
    ensures
        final(s)@ == old(s)@.push(c),
{
    s.push(c);
}

/// The characters `str::to_uppercase` returns for `s` (Unicode case
/// mapping, which may change the length).
pub uninterp spec fn uppercase(s: Seq<char>) -> Seq<char>;

/// `str::to_uppercase`: claims only that the result is the named value
/// `uppercase(s)`; what the Unicode mapping gives is not stated.
#[verifier::external_body]
pub(crate) fn to_uppercase(s: &str) -> (r: String)
    ensures
        r@ == uppercase(s@),
{
    s.to_uppercase()
}

/// A character that may stand in a plain identifier.
pub open spec fn is_ident_char(c: char) -> bool {
    ('a' <= c && c <= 'z') || ('A' <= c && c <= 'Z') || ('0' <= c && c <= '9') || c == '_'
}

/// Words syn refuses as identifiers (its `accept_as_ident` list).
pub open spec fn is_reserved_word(s: Seq<char>) -> bool {
    ||| s == "_"@ || s == "abstract"@ || s == "as"@ || s == "async"@ || s == "await"@
    ||| s == "become"@ || s == "box"@ || s == "break"@ || s == "const"@ || s == "continue"@
    ||| s == "crate"@ || s == "do"@ || s == "dyn"@ || s == "else"@ || s == "enum"@
    ||| s == "extern"@ || s == "false"@ || s == "final"@ || s == "fn"@ || s == "for"@
    ||| s == "if"@ || s == "impl"@ || s == "in"@ || s == "let"@ || s == "loop"@
    ||| s == "macro"@ || s == "match"@ || s == "mod"@ || s == "move"@ || s == "mut"@
    ||| s == "override"@ || s == "priv"@ || s == "pub"@ || s == "ref"@ || s == "return"@
    ||| s == "Self"@ || s == "self"@ || s == "static"@ || s == "struct"@ || s == "super"@
    ||| s == "trait"@ || s == "true"@ || s == "try"@ || s == "type"@ || s == "typeof"@
    ||| s == "unsafe"@ || s == "unsized"@ || s == "use"@ || s == "virtual"@ || s == "where"@
    ||| s == "while"@ || s == "yield"@
}

/// An ASCII identifier: a letter or `_`, then letters, digits or `_`, and
/// not a reserved word.
pub open spec fn plain_ident(s: Seq<char>) -> bool {
    &&& s.len() > 0
    &&& !('0' <= s[0] && s[0] <= '9')
    &&& forall|i: int| 0 <= i < s.len() ==> #[trigger] is_ident_char(s[i])
    &&& !is_reserved_word(s)
}

/// The position of the first `:` in `s`, or its length.
pub open spec fn first_colon(s: Seq<char>) -> int
    decreases s.len(),
{
    if s.len() == 0 || s[0] == ':' {
        0
    } else {
        1 + first_colon(s.drop_first())
    }
}

/// Plain identifiers separated by `::`, with no other character.
pub open spec fn plain_segments(s: Seq<char>) -> bool
    decreases s.len(),
{
    let k = first_colon(s);
    if k >= s.len() {
        plain_ident(s)
    } else {
        &&& 0 < k
        &&& plain_ident(s.take(k))
        &&& k + 2 < s.len()
        &&& s[k + 1] == ':'
        &&& plain_segments(s.skip(k + 2))
    }
}

/// A path such as `::a::b_c::D`: plain identifiers separated by `::`,
/// optionally with a leading `::`, and no other character (no space).
pub open spec fn plain_path(s: Seq<char>) -> bool {
    if s.len() >= 2 && s[0] == ':' && s[1] == ':' {
        plain_segments(s.skip(2))
    } else {
        plain_segments(s)
    }
}

/// The path keywords that syn reads as a segment of a path although they
/// are reserved words: `crate`, `self`, `super` and `Self`.
pub open spec fn path_keyword(s: Seq<char>) -> bool {
    s == "crate"@ || s == "self"@ || s == "super"@ || s == "Self"@
}

/// A path such as `crate::a::B` or `self`: a path keyword, alone or
/// followed by `::` and plain identifiers separated by `::`, and no other
/// character.
pub open spec fn keyword_head_path(s: Seq<char>) -> bool {
    let k = first_colon(s);
    if k >= s.len() {
        path_keyword(s)
    } else {
        &&& path_keyword(s.take(k))
        &&& k + 2 < s.len()
        &&& s[k + 1] == ':'
        &&& plain_segments(s.skip(k + 2))
    }
}

/// `syn::parse_str::<syn::Path>`: `None` when the text parses as a Rust
/// path, else `Some` of syn's error text. Claimed: an empty text is refused
/// (a path needs a segment); a plain path is accepted (both of
/// proc-macro2's lexers, and the compiler's in every edition, read it as
/// the same identifiers and `::` tokens, and syn accepts identifiers that
/// are not in its reserved list); and a path headed by `crate`, `self`,
/// `super` or `Self` is accepted (the lexers read these words as
/// identifiers, and syn's path segment parser takes them by name before
/// its reserved-word check). Nothing is stated of other texts: whether
/// they parse can depend on the lexer in use, which proc-macro2 picks by
/// whether the process runs inside a procedural macro, and inside one on
/// the edition of the crate being expanded; nothing is stated of the error
/// text either.
#[verifier::external_body]
pub(crate) fn check_path(text: &str) -> (r: Option<String>)
    ensures
        text@.len() == 0 ==> r is Some,
        plain_path(text@) ==> r is None,
        keyword_head_path(text@) ==> r is None,
{
    match syn::parse_str::<syn::Path>(text) {
        Ok(_) => None,
        Err(e) => Some(e.to_string()),
    }
}

} // verus!
