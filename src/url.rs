//! The content URL that a window loads.
use vstd::prelude::*;

verus! {

/// What `urlencoding::encode` makes of a string.
pub uninterp spec fn url_encoded(s: Seq<char>) -> Seq<char>;

/// Characters that percent-encoding leaves as they are.
pub open spec fn is_unreserved(c: char) -> bool {
    ('0' <= c && c <= '9') || ('A' <= c && c <= 'Z') || ('a' <= c && c <= 'z') || c == '-'
        || c == '.' || c == '_' || c == '~'
}

/// An upper-case hexadecimal digit.
pub open spec fn hex_digit(d: int) -> char {
    seq!['0', '1', '2', '3', '4', '5', '6', '7', '8', '9', 'A', 'B', 'C', 'D', 'E', 'F'][d]
}

/// Text whose characters are all ASCII.
pub open spec fn is_ascii_text(s: Seq<char>) -> bool {
    forall|i: int| 0 <= i < s.len() ==> (s[i] as u32) < 128
}

/// One ASCII character, percent-encoded.
pub open spec fn encode_ascii_char(c: char) -> Seq<char> {
    if is_unreserved(c) {
        seq![c]
    } else {
        seq!['%', hex_digit((c as u32) as int / 16), hex_digit((c as u32) as int % 16)]
    }
}

/// ASCII text, percent-encoded character by character.
pub open spec fn encode_ascii(s: Seq<char>) -> Seq<char>
    decreases s.len(),
{
    if s.len() == 0 {
        seq![]
    } else {
        encode_ascii(s.drop_last()) + encode_ascii_char(s.last())
    }
}

/// Relies on `urlencoding::encode`: every byte of the UTF-8 text but
/// alphanumerics and `-`, `_`, `.`, `~` becomes `%` and two upper-case hex
/// digits; on ASCII text a byte is a character.
#[verifier::external_body]
fn percent_encode(s: &str) -> (r: String)
    ensures
        r@ == url_encoded(s@),
        is_ascii_text(s@) ==> r@ == encode_ascii(s@),
{
    urlencoding::encode(s).into_owned()
}

/// The page that every window loads.
pub open spec fn index_page() -> Seq<char> {
    "index.html"@
}

/// The URL of a window's content: the index page alone, or with the file to
/// show as the query parameter `file`, given already encoded.
pub open spec fn url_for_encoded(encoded: Option<Seq<char>>) -> Seq<char> {
    match encoded {
        Some(e) => "index.html?file="@ + e,
        None => index_page(),
    }
}

/// The URL of a window's content for an optional file path.
pub open spec fn content_url_spec(file_path: Option<Seq<char>>) -> Seq<char> {
    url_for_encoded(
        match file_path {
            Some(p) => Some(url_encoded(p)),
            None => None,
        },
    )
}

/// Builds the URL from the file path, already encoded.
pub fn url_from_encoded(encoded: Option<&str>) -> (r: String)
    ensures
        r@ == url_for_encoded(
            match encoded {
                Some(e) => Some(e@),
                None => None,
            },
        ),
{
    match encoded {
        Some(e) => {
            let mut u = String::from_str("index.html?file=");
            u.append(e);
            u
        },
        None => String::from_str("index.html"),
    }
}

/// The URL of a window's content: `index.html`, followed by
/// `?file=<percent-encoded path>` where a file is given.
pub fn content_url(file_path: &Option<String>) -> (r: String)
    ensures
        r@ == content_url_spec(
            match file_path {
                Some(p) => Some(p@),
                None => None,
            },
        ),
        file_path matches Some(p) ==> (is_ascii_text(p@) ==> r@ == "index.html?file="@
            + encode_ascii(p@)),
{
    match file_path {
        Some(p) => {
            let e = percent_encode(p.as_str());
            url_from_encoded(Some(e.as_str()))
        },
        None => url_from_encoded(None),
    }
}

} // verus!
