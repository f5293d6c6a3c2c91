//! Inbound requests as plain values, and the request interpreter that reads
//! a header out of them.

use crate::error::RedirectGetError;
use vstd::prelude::*;
use vstd::string::StringSliceAdditionalSpecFns;
use vstd::utf8::*;

verus! {

/// One header line of a request: its name, and its value as the bytes that
/// came over the wire.
#[derive(Debug, PartialEq, Eq)]
pub struct RequestHeader {
    pub name: String,
    pub value: Vec<u8>,
}

impl View for RequestHeader {
    type V = (Seq<char>, Seq<u8>);

    open spec fn view(&self) -> (Seq<char>, Seq<u8>) {
        (self.name@, self.value@)
    }
}

/// An inbound HTTP request, as far as the lookup reads it: the header lines
/// in the order in which they arrived.
#[derive(Debug, PartialEq, Eq)]
pub struct Request {
    pub headers: Vec<RequestHeader>,
}

impl View for Request {
    type V = Seq<(Seq<char>, Seq<u8>)>;

    open spec fn view(&self) -> Seq<(Seq<char>, Seq<u8>)> {
        self.headers@.map_values(|h: RequestHeader| h@)
    }
}

/// `c` with the letters `A` to `Z` mapped to `a` to `z`.
pub open spec fn ascii_lower(c: char) -> char {
    if 'A' <= c && c <= 'Z' {
        ((c as u8) + 32) as char
    } else {
        c
    }
}

/// `s` with the letters `A` to `Z` mapped to `a` to `z`.
pub open spec fn ascii_lowercase(s: Seq<char>) -> Seq<char> {
    s.map_values(|c: char| ascii_lower(c))
}

/// Whether two header names are the same name: header names match without
/// regard to the case of ASCII letters.
pub open spec fn same_header_name(a: Seq<char>, b: Seq<char>) -> bool {
    ascii_lowercase(a) == ascii_lowercase(b)
}

/// The value of the first header line of `headers` whose name is `name`.
pub open spec fn header_value(headers: Seq<(Seq<char>, Seq<u8>)>, name: Seq<char>) -> Option<
    Seq<u8>,
>
    decreases headers.len(),
{
    if headers.len() == 0 {
        None
    } else if same_header_name(headers[0].0, name) {
        Some(headers[0].1)
    } else {
        header_value(headers.drop_first(), name)
    }
}

/// The header `name` of a request as text: the value of the first header
/// line of that name, decoded as UTF-8. A request without such a line, or
/// with a value that is not UTF-8, is a bad request.
pub open spec fn header_text(headers: Seq<(Seq<char>, Seq<u8>)>, name: Seq<char>) -> Result<
    Seq<char>,
    RedirectGetError,
> {
    match header_value(headers, name) {
        Some(bytes) => if valid_utf8(bytes) {
            Ok(decode_utf8(bytes))
        } else {
            Err(RedirectGetError::BadRequest)
        },
        None => Err(RedirectGetError::BadRequest),
    }
}

/// A header reading, over views.
pub open spec fn text_view(reading: Result<String, RedirectGetError>) -> Result<
    Seq<char>,
    RedirectGetError,
> {
    match reading {
        Ok(text) => Ok(text@),
        Err(error) => Err(error),
    }
}

#[verifier::external_type_specification]
#[verifier::external_body]
pub struct ExUtf8Error(core::str::Utf8Error);

/// `str::eq_ignore_ascii_case`, trusted as documented: the two strings are
/// equal once the letters `A` to `Z` of both are mapped to lower case.
pub assume_specification[ str::eq_ignore_ascii_case ](a: &str, b: &str) -> (same: bool)
    ensures
        same == same_header_name(a@, b@),
;

/// `core::str::from_utf8`, trusted as documented: it succeeds exactly on
/// valid UTF-8, and the string slice it then returns has the given bytes.
pub assume_specification<'a>[ core::str::from_utf8 ](v: &'a [u8]) -> (r: Result<
    &'a str,
    core::str::Utf8Error,
>)
    ensures
        r is Ok <==> valid_utf8(v@),
        r is Ok ==> r->Ok_0.spec_bytes() == v@,
;

/// The request interpreter: reads the header `header` of `event` as text.
///
/// Header names match without regard to ASCII case, and the first matching
/// line counts. Returns `BadRequest` where no line matches or where the
/// matching line's value is not valid UTF-8.
pub fn get_request_header(event: Request, header: &str) -> (reading: Result<
    String,
    RedirectGetError,
>)
    ensures
        text_view(reading) == header_text(event@, header@),
{
    let mut i: usize = 0;
    assert(event@.subrange(0, event@.len() as int) =~= event@);
    while i < event.headers.len()
        invariant
            i <= event.headers.len(),
            header_value(event@, header@) == header_value(
                event@.subrange(i as int, event@.len() as int),
                header@,
            ),
        decreases event.headers.len() - i,
    {
        let ghost rest = event@.subrange(i as int, event@.len() as int);
        assert(rest[0] == event.headers@[i as int]@);
        assert(rest.drop_first() =~= event@.subrange(i + 1, event@.len() as int));
        if event.headers[i].name.as_str().eq_ignore_ascii_case(header) {
            return match core::str::from_utf8(event.headers[i].value.as_slice()) {
                Ok(text) => {
                    proof {
                        encode_utf8_decode_utf8(text@);
                    }
                    Ok(text.to_owned())
                },
                Err(_) => Err(RedirectGetError::BadRequest),
            };
        }
        i += 1;
    }
    Err(RedirectGetError::BadRequest)
}

} // verus!
