//! Responses, as the `http` and `bytes` crates build them, and what the rest of
//! the library may assume of those crates.

use bytes::Bytes;
use http::response::Builder;
use http::Response;
use vstd::multiset::Multiset;
use vstd::prelude::*;
use vstd::utf8::encode_utf8;

verus! {

/// `bytes::Bytes`: an immutable buffer of octets.
#[verifier::external_type_specification]
#[verifier::external_body]
pub struct ExBytes(Bytes);

/// `http::response::Builder`: a response under construction, or the error of
/// the first step that failed.
#[verifier::external_type_specification]
#[verifier::external_body]
pub struct ExBuilder(Builder);

/// `http::Response`: a finished response with a body of type `T`.
#[verifier::external_type_specification]
#[verifier::external_body]
#[verifier::reject_recursive_types(T)]
pub struct ExResponse<T>(Response<T>);

/// `http::Request`: a request with a body of type `T`. Nothing here looks
/// inside one.
#[verifier::external_type_specification]
#[verifier::external_body]
#[verifier::reject_recursive_types(T)]
pub struct ExRequest<T>(http::Request<T>);

/// `http::Error`: why a response could not be assembled.
#[verifier::external_type_specification]
#[verifier::external_body]
pub struct ExHttpError(http::Error);

/// One header line: the name in lower case, and the value as text.
pub type HeaderLine = (Seq<char>, Seq<char>);

/// The status code and the header lines of a response.
pub struct Head {
    pub status: u16,
    pub headers: Multiset<HeaderLine>,
}

/// A response as a client sees it: status code, header lines and body.
pub struct ResponseView {
    pub status: u16,
    pub headers: Multiset<HeaderLine>,
    pub body: Seq<u8>,
}

/// Whether `c` may stand in a header name: a letter, a digit, or one of
/// ``!#$%&'*+-.^_`|~``.
pub open spec fn is_name_char(c: char) -> bool {
    ||| 'a' <= c <= 'z'
    ||| 'A' <= c <= 'Z'
    ||| '0' <= c <= '9'
    ||| c == '!' || c == '#' || c == '$' || c == '%' || c == '&' || c == '\'' || c == '*'
    ||| c == '+' || c == '-' || c == '.' || c == '^' || c == '_' || c == '`' || c == '|'
    ||| c == '~'
}

/// Whether `name` is accepted as a header name.
pub open spec fn is_header_name(name: Seq<char>) -> bool {
    &&& 1 <= name.len() <= 65535
    &&& forall|i: int| 0 <= i < name.len() ==> is_name_char(#[trigger] name[i])
}

/// Whether `c` may stand in a header value: a tab, or anything from the space
/// on but the delete character.
pub open spec fn is_value_char(c: char) -> bool {
    c == '\t' || (' ' <= c && c != '\x7f')
}

/// Whether `value` is accepted as a header value.
pub open spec fn is_header_value(value: Seq<char>) -> bool {
    forall|i: int| 0 <= i < value.len() ==> is_value_char(#[trigger] value[i])
}

/// `c`, in lower case where it is an ASCII capital.
pub open spec fn lower(c: char) -> char {
    if 'A' <= c <= 'Z' {
        ((c as u8) + 32) as u8 as char
    } else {
        c
    }
}

/// `name` with its ASCII capitals in lower case.
pub open spec fn lowercase(name: Seq<char>) -> Seq<char> {
    Seq::new(name.len(), |i: int| lower(name[i]))
}

/// A number of header lines that every response has room for. A header map
/// turns a line away only when its table would have to grow past 32768 slots,
/// and it never grows the table beyond ten slots for each line that it holds,
/// so the true limit lies well above this.
pub const HEADER_ROOM: usize = 1024;

impl Head {
    /// This head with the line `name: value` added.
    pub open spec fn with_line(self, name: Seq<char>, value: Seq<char>) -> Head {
        Head { status: self.status, headers: self.headers.insert((lowercase(name), value)) }
    }
}

/// The octets that a buffer holds.
pub uninterp spec fn octets(buffer: Bytes) -> Seq<u8>;

/// What a builder has collected; `None` once one of its steps has failed.
pub uninterp spec fn builder_head(builder: Builder) -> Option<Head>;

/// What a finished response holds.
pub uninterp spec fn response_view(response: Response<Bytes>) -> ResponseView;

/// `Bytes::from` on a `String`. Trusted: the buffer takes over the string's
/// storage, so it holds the UTF-8 encoding of the text.
#[verifier::external_body]
pub(crate) fn bytes_from(text: String) -> (buffer: Bytes)
    ensures
        octets(buffer) == encode_utf8(text@),
{
    Bytes::from(text)
}

/// `Builder::new`. Trusted: a new builder has status 200 and no header line.
#[verifier::external_body]
pub(crate) fn new_builder() -> (builder: Builder)
    ensures
        builder_head(builder) == Some(Head { status: 200, headers: Multiset::empty() }),
{
    Builder::new()
}

/// `Builder::status` with a number. Trusted: a number from 100 to 999 becomes
/// the status; any other number, or an earlier failure, leaves the builder
/// failed.
#[verifier::external_body]
pub(crate) fn with_status(builder: Builder, code: u16) -> (next: Builder)
    ensures
        builder_head(next) == match builder_head(builder) {
            Some(head) if 100 <= code <= 999 => Some(Head { status: code, headers: head.headers }),
            _ => None,
        },
{
    builder.status(code)
}

/// `Builder::header` with a name and a value given as text. Trusted: where the
/// builder goes on, it had not failed before and has gained exactly this line,
/// the name in lower case; a name or a value that is not accepted fails it; and
/// it does go on while it holds fewer than `HEADER_ROOM` lines.
#[verifier::external_body]
pub(crate) fn with_header(builder: Builder, name: &str, value: &str) -> (next: Builder)
    ensures
        builder_head(next) matches Some(head) ==> builder_head(builder) matches Some(before)
            && head == before.with_line(name@, value@),
        !is_header_name(name@) || !is_header_value(value@) ==> builder_head(next) is None,
        builder_head(builder) matches Some(before) && is_header_name(name@) && is_header_value(
            value@,
        ) && before.headers.len() < HEADER_ROOM ==> builder_head(next) is Some,
{
    builder.header(name, value)
}

/// `Builder::body`. Trusted: a failed builder gives its error; any other gives
/// a response with the builder's status and header lines and with this body.
#[verifier::external_body]
pub(crate) fn with_body(builder: Builder, body: Bytes) -> (result: Result<
    Response<Bytes>,
    http::Error,
>)
    ensures
        match result {
            Ok(response) => builder_head(builder) matches Some(head) && response_view(response)
                == (ResponseView {
                status: head.status,
                headers: head.headers,
                body: octets(body),
            }),
            Err(_) => builder_head(builder) is None,
        },
{
    builder.body(body)
}

} // verus!
