//! What a metadata-only request tells about a remote file.
use vstd::prelude::*;
use vstd::string::*;
use crate::checksum::{eq_ignore_ascii_case, equals_ignoring_ascii_case};

verus! {

/// Size, range support and content type of a remote file.
pub struct FileInfo {
    /// Declared length in bytes; 0 when the server declared none, which means
    /// unknown rather than empty.
    pub size: u64,
    /// Whether the server accepts byte-range requests.
    pub supports_range: bool,
    /// The declared MIME type.
    pub content_type: String,
}

/// The `Accept-Ranges` value that advertises byte ranges, in lower case.
pub open spec fn bytes_unit() -> Seq<char> {
    seq!['b', 'y', 't', 'e', 's']
}

/// The content type assumed when the server declares none.
pub open spec fn default_content_type() -> Seq<char> {
    seq![
        'a', 'p', 'p', 'l', 'i', 'c', 'a', 't', 'i', 'o', 'n', '/', 'o', 'c', 't', 'e', 't', '-',
        's', 't', 'r', 'e', 'a', 'm',
    ]
}

impl FileInfo {
    /// Builds the description of a file from the headers of a response of any
    /// status: the `Content-Length`, `Accept-Ranges` and `Content-Type`
    /// values, each absent when the response has none (or none readable as
    /// text). A length that is not a decimal number fitting in `u64` counts
    /// as absent.
    pub fn from_headers(content_length: Option<&str>, accept_ranges: Option<&str>, content_type: Option<&str>) -> (r: FileInfo)
        ensures
            r.size == match content_length {
                Some(v) => match content_length_value(v@) {
                    Some(n) => n,
                    None => 0,
                },
                None => 0,
            },
            r.supports_range == (accept_ranges matches Some(v) && eq_ignore_ascii_case(v@, bytes_unit())),
            r.content_type@ == match content_type {
                Some(t) => t@,
                None => default_content_type(),
            },
    {
        let size = match content_length {
            Some(v) => match parse_content_length(v) {
                Some(n) => n,
                None => 0,
            },
            None => 0,
        };
        let unit = "bytes";
        proof {
            reveal_strlit("bytes");
            assert(unit@ =~= bytes_unit());
        }
        let supports_range = match accept_ranges {
            Some(v) => equals_ignoring_ascii_case(v, unit),
            None => false,
        };
        let content_type = match content_type {
            Some(t) => String::from_str(t),
            None => {
                let d = "application/octet-stream";
                proof {
                    reveal_strlit("application/octet-stream");
                    assert(d@ =~= default_content_type());
                }
                String::from_str(d)
            },
        };
        FileInfo { size, supports_range, content_type }
    }
}

/// Whether `c` is an ASCII decimal digit.
pub open spec fn is_digit(c: char) -> bool {
    '0' <= c && c <= '9'
}

/// The number written in decimal by the digits `s`.
pub open spec fn digits_value(s: Seq<char>) -> nat
    decreases s.len(),
{
    if s.len() == 0 {
        0
    } else {
        digits_value(s.drop_last()) * 10 + (s.last() as u32 - '0' as u32) as nat
    }
}

/// The value of a `Content-Length` header: one or more decimal digits whose
/// number fits in `u64`.
pub open spec fn content_length_value(s: Seq<char>) -> Option<u64> {
    if s.len() > 0 && (forall|i: int| 0 <= i < s.len() ==> is_digit(#[trigger] s[i])) && digits_value(s)
        <= u64::MAX {
        Some(digits_value(s) as u64)
    } else {
        None
    }
}

proof fn lemma_prefix_value_le(s: Seq<char>, i: int)
    requires
        0 <= i <= s.len(),
    ensures
        digits_value(s.subrange(0, i)) <= digits_value(s),
    decreases s.len(),
{
    if i == s.len() {
        assert(s.subrange(0, i) =~= s);
    } else {
        lemma_prefix_value_le(s.drop_last(), i);
        assert(s.drop_last().subrange(0, i) =~= s.subrange(0, i));
    }
}

/// Reads a `Content-Length` header value; anything but a decimal number that
/// fits in `u64` gives `None`.
pub fn parse_content_length(v: &str) -> (r: Option<u64>)
    ensures
        r == content_length_value(v@),
{
    let n = v.unicode_len();
    if n == 0 {
        return None;
    }
    let mut acc: u128 = 0;
    let mut i: usize = 0;
    while i < n
        invariant
            n == v@.len(),
            i <= n,
            forall|j: int| 0 <= j < i ==> is_digit(#[trigger] v@[j]),
            acc == digits_value(v@.subrange(0, i as int)),
            acc <= u64::MAX,
        decreases n - i,
    {
        let c = v.get_char(i);
        if !('0' <= c && c <= '9') {
            return None;
        }
        let next = acc * 10 + ((c as u32) - ('0' as u32)) as u128;
        proof {
            assert(v@.subrange(0, i + 1).drop_last() =~= v@.subrange(0, i as int));
        }
        if next > 18446744073709551615u128 {
            proof {
                lemma_prefix_value_le(v@, i + 1);
            }
            return None;
        }
        acc = next;
        i = i + 1;
    }
    assert(v@.subrange(0, n as int) =~= v@);
    Some(acc as u64)
}

} // verus!
