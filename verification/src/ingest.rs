//! Extracting a sender from raw email text. The RFC 5322 tokenizer of the
//! email crate yields the message's headers; the first header literally
//! named `From` settles the sender, and its value is split into a display
//! name and an address by the last-space heuristic: the token after the last
//! space, stripped of angle brackets, is the address, and what precedes the
//! space is the name. A value without a space is all address. The heuristic
//! is a known limitation and is kept as it is.
//!
//! The tokenizer consumes header text made of printable ASCII, space, tab
//! and line breaks; on any other character in the header section it does not
//! return. A message whose header section leaves that set is therefore
//! treated as having no sender. The body is never tokenized and may hold
//! anything.
use vstd::prelude::*;

use crate::strutil::{
    drop_leading, drop_trailing, last_sep, rfind_char, str_eq, trim_left_char, trim_right_char,
};

verus! {

/// A character the tokenizer consumes without stalling: printable ASCII,
/// space, tab, carriage return or newline.
pub open spec fn tokenizer_char_ok(c: char) -> bool {
    ('!' <= c && c <= '~') || c == ' ' || c == '\t' || c == '\r' || c == '\n'
}

/// Does a blank line start at `i`: a newline immediately followed by another
/// line ending? Header consumption never passes the first such point.
pub open spec fn blank_at(s: Seq<char>, i: int) -> bool {
    0 <= i && i + 1 < s.len() && s[i] == '\n' && (s[i + 1] == '\n' || s[i + 1] == '\r')
}

pub open spec fn hdr_end_from(s: Seq<char>, i: int) -> int
    decreases s.len() - i when i <= s.len()
{
    if 0 <= i < s.len() {
        if blank_at(s, i) {
            i
        } else {
            hdr_end_from(s, i + 1)
        }
    } else {
        s.len() as int
    }
}

/// Where the header section ends: the first blank line, or the end of the
/// text when there is none.
pub open spec fn hdr_end(s: Seq<char>) -> int {
    hdr_end_from(s, 0)
}

/// Is every character of the header section one the tokenizer consumes?
pub open spec fn header_section_safe(s: Seq<char>) -> bool {
    forall|j: int| 0 <= j < hdr_end(s) ==> tokenizer_char_ok(#[trigger] s[j])
}

proof fn lemma_hdr_end_from(s: Seq<char>, k: int, i: int)
    requires
        0 <= k <= i <= s.len(),
        forall|j: int| k <= j < i ==> !blank_at(s, j),
        i == s.len() || blank_at(s, i),
    ensures
        hdr_end_from(s, k) == if i == s.len() {
            s.len() as int
        } else {
            i
        },
    decreases i - k,
{
    if k < i {
        lemma_hdr_end_from(s, k + 1, i);
    }
}

/// The headers the tokenizer yields on a text, in order, each a name and an
/// unfolded raw value: a function of the text alone.
pub uninterp spec fn headers_of(s: Seq<char>) -> Seq<(Seq<char>, Seq<char>)>;

/// Relies on email::rfc5322::Rfc5322Parser::consume_message and the
/// `name: value` display form of email::header::Header: the message's
/// headers with their raw unfolded values, in order. The crate's RFC 2047
/// decoding is not used: it panics on malformed encoded words. The safety
/// bound keeps out the header-section characters on which the tokenizer
/// does not return.
#[verifier::external_body]
fn rfc5322_headers(source: &str) -> (r: Vec<(String, String)>)
    requires
        header_section_safe(source@),
    ensures
        header_views(r@) == headers_of(source@),
{
    let mut parser = email::rfc5322::Rfc5322Parser::new(source);
    match parser.consume_message() {
        Some((map, _body)) => map.iter().map(
            |h|
                {
                    let shown = format!("{}", h);
                    let value = shown[h.name.len() + 2..].to_string();
                    (h.name.clone(), value)
                },
        ).collect(),
        None => Vec::new(),
    }
}

/// The views of a vector of header pairs.
pub open spec fn header_views(v: Seq<(String, String)>) -> Seq<(Seq<char>, Seq<char>)> {
    v.map_values(|h: (String, String)| (h.0@, h.1@))
}

/// The decision the ingest makes on a header list: the value of the first
/// header literally named `From`, if any.
pub open spec fn from_value(headers: Seq<(Seq<char>, Seq<char>)>) -> Option<Seq<char>>
    decreases headers.len(),
{
    if headers.len() == 0 {
        None
    } else if headers[0].0 == "From"@ {
        Some(headers[0].1)
    } else {
        from_value(headers.skip(1))
    }
}

/// The value of the first header literally named `From`, if any.
pub fn find_from_header(headers: &Vec<(String, String)>) -> (r: Option<String>)
    ensures
        match r {
            Some(v) => from_value(header_views(headers@)) == Some(v@),
            None => from_value(header_views(headers@)) is None,
        },
{
    let ghost hv = header_views(headers@);
    let mut i: usize = 0;
    proof {
        assert(hv.skip(0) =~= hv);
    }
    while i < headers.len()
        invariant
            0 <= i <= headers@.len(),
            from_value(hv.skip(i as int)) == from_value(hv),
        decreases headers@.len() - i,
    {
        let h = &headers[i];
        let ghost rest = hv.skip(i as int);
        proof {
            assert(rest[0] == hv[i as int]);
            assert(rest.skip(1) =~= hv.skip(i + 1));
        }
        if str_eq(h.0.as_str(), "From") {
            return Some(h.1.clone());
        }
        i = i + 1;
    }
    proof {
        assert(hv.skip(hv.len() as int) =~= Seq::<(Seq<char>, Seq<char>)>::empty());
    }
    None
}

/// Is the header section of this text within the tokenizer's safe character
/// set?
fn header_section_ok(s: &str) -> (r: bool)
    ensures
        r == header_section_safe(s@),
{
    let n = s.unicode_len();
    let mut i: usize = 0;
    while i < n
        invariant
            0 <= i <= n,
            forall|j: int| 0 <= j < i ==> !blank_at(s@, j),
            forall|j: int| 0 <= j < i ==> tokenizer_char_ok(#[trigger] s@[j]),
        decreases n - i,
    {
        let c = s.get_char(i);
        if c == '\n' && i + 1 < n {
            let d = s.get_char(i + 1);
            if d == '\n' || d == '\r' {
                proof {
                    lemma_hdr_end_from(s@, 0, i as int);
                }
                return true;
            }
        }
        if !(('!' <= c && c <= '~') || c == ' ' || c == '\t' || c == '\r' || c == '\n') {
            proof {
                assert(!tokenizer_char_ok(s@[i as int]));
                assert(!blank_at(s@, i as int));
                lemma_hdr_end_from_at_least(s@, 0, i as int + 1);
            }
            return false;
        }
        i = i + 1;
    }
    proof {
        lemma_hdr_end_from(s@, 0, n as int);
    }
    true
}

proof fn lemma_hdr_end_from_lb(s: Seq<char>, k: int)
    requires
        0 <= k <= s.len(),
    ensures
        hdr_end_from(s, k) >= k,
    decreases s.len() - k,
{
    if k < s.len() && !blank_at(s, k) {
        lemma_hdr_end_from_lb(s, k + 1);
    }
}

proof fn lemma_hdr_end_from_at_least(s: Seq<char>, k: int, i: int)
    requires
        0 <= k <= i <= s.len(),
        forall|j: int| k <= j < i ==> !blank_at(s, j),
    ensures
        hdr_end_from(s, k) >= i,
    decreases i - k,
{
    if k < i {
        lemma_hdr_end_from_at_least(s, k + 1, i);
    } else {
        lemma_hdr_end_from_lb(s, k);
    }
}

/// The sender of a raw email: the value of the first header literally named
/// `From` among the headers the tokenizer yields. A message whose header
/// section holds a character the tokenizer cannot consume has no sender.
pub fn read_sender_from_email(email_text: &str) -> (r: Option<String>)
    ensures
        header_section_safe(email_text@) ==> (match r {
            Some(v) => from_value(headers_of(email_text@)) == Some(v@),
            None => from_value(headers_of(email_text@)) is None,
        }),
        !header_section_safe(email_text@) ==> r is None,
{
    if !header_section_ok(email_text) {
        return None;
    }
    let headers = rfc5322_headers(email_text);
    find_from_header(&headers)
}

/// An address token, stripped of its leading `<` and trailing `>`.
pub open spec fn strip_angles(t: Seq<char>) -> Seq<char> {
    drop_trailing(drop_leading(t, '<'), '>')
}

/// The display name of a `From` header value: what precedes the last space,
/// absent when there is no space at all.
pub open spec fn from_header_name(s: Seq<char>) -> Option<Seq<char>> {
    let i = last_sep(s, ' ');
    if i == -1 {
        None
    } else {
        Some(s.take(i))
    }
}

/// The address of a `From` header value: the token after the last space (or
/// the whole value when there is none), stripped of angle brackets.
pub open spec fn from_header_email(s: Seq<char>) -> Seq<char> {
    let i = last_sep(s, ' ');
    if i == -1 {
        strip_angles(s)
    } else {
        strip_angles(s.skip(i + 1))
    }
}

/// Split a `From` header value into `(display name, address)` by the
/// last-space heuristic. The address is always present.
pub fn parse_from_header<'a>(s: &'a String) -> (r: (Option<&'a str>, Option<&'a str>))
    ensures
        (match r.0 {
            Some(n) => from_header_name(s@) == Some(n@),
            None => from_header_name(s@) is None,
        }),
        (r.1 matches Some(e) && e@ == from_header_email(s@)),
{
    let st = s.as_str();
    let n = st.unicode_len();
    match rfind_char(st, ' ') {
        Some(i) => {
            let name = st.substring_char(0, i);
            let tail = st.substring_char(i + 1, n);
            proof {
                assert(name@ =~= s@.take(i as int));
                assert(tail@ =~= s@.skip(i + 1));
            }
            let address = trim_right_char(trim_left_char(tail, '<'), '>');
            (Some(name), Some(address))
        },
        None => {
            let address = trim_right_char(trim_left_char(st, '<'), '>');
            (None, Some(address))
        },
    }
}

} // verus!
