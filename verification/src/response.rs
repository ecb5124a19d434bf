//! HTTP response representation and the builder that assembles one.
//!
//! A [`Response`] renders itself to the exact byte sequence that is written
//! back to the client: a status line, a header block, a blank line, and the
//! body. The rendering is specified character by character by
//! [`response_text`] and proved down to the UTF-8 bytes.

use vstd::prelude::*;
use vstd::string::StrSliceExecFns;
use vstd::string::StringExecFns;
use vstd::utf8::encode_utf8;

verus! {

/// A single response header: a name and a value.
pub struct Header {
    pub name: String,
    pub value: String,
}

/// Mathematical model of a header: the character sequences of its two parts.
pub ghost struct HeaderView {
    pub name: Seq<char>,
    pub value: Seq<char>,
}

impl View for Header {
    type V = HeaderView;

    open spec fn view(&self) -> HeaderView {
        HeaderView { name: self.name@, value: self.value@ }
    }
}

impl Clone for Header {
    fn clone(&self) -> (r: Header)
        ensures
            r@ == self@,
    {
        Header { name: self.name.clone(), value: self.value.clone() }
    }
}

/// An HTTP response: status code, headers, and body.
pub struct Response {
    pub status_code: u16,
    pub headers: Vec<Header>,
    pub body: String,
}

/// Mathematical model of a response.
pub ghost struct ResponseView {
    pub status_code: u16,
    pub headers: Seq<HeaderView>,
    pub body: Seq<char>,
}

impl View for Response {
    type V = ResponseView;

    open spec fn view(&self) -> ResponseView {
        ResponseView {
            status_code: self.status_code,
            headers: self.headers@.map_values(|h: Header| h@),
            body: self.body@,
        }
    }
}

/// The character for one decimal digit.
pub open spec fn digit_char(d: nat) -> char {
    if d == 0 {
        '0'
    } else if d == 1 {
        '1'
    } else if d == 2 {
        '2'
    } else if d == 3 {
        '3'
    } else if d == 4 {
        '4'
    } else if d == 5 {
        '5'
    } else if d == 6 {
        '6'
    } else if d == 7 {
        '7'
    } else if d == 8 {
        '8'
    } else {
        '9'
    }
}

/// The usual decimal rendering of a number, most significant digit first,
/// with no leading zeros (a single zero for 0).
pub open spec fn decimal(n: nat) -> Seq<char>
    decreases n,
{
    if n < 10 {
        seq![digit_char(n)]
    } else {
        decimal(n / 10).push(digit_char(n % 10))
    }
}

/// One rendered header: `name:value ` (colon-separated, trailing space).
pub open spec fn header_line(h: HeaderView) -> Seq<char> {
    h.name + ":"@ + h.value + " "@
}

/// All headers rendered in order.
pub open spec fn headers_block(hs: Seq<HeaderView>) -> Seq<char>
    decreases hs.len(),
{
    if hs.len() == 0 {
        Seq::empty()
    } else {
        header_line(hs[0]) + headers_block(hs.drop_first())
    }
}

/// The full text of a response: status line, header block, blank line, body.
pub open spec fn response_text(r: ResponseView) -> Seq<char> {
    "HTTP/1.1 "@ + decimal(r.status_code as nat) + " Testing-phrase "@ + "\r\n"@ + headers_block(
        r.headers,
    ) + "\r\n"@ + r.body
}

/// Appending one more header extends the rendered block by one line.
proof fn lemma_headers_block_push(hs: Seq<HeaderView>, h: HeaderView)
    ensures
        headers_block(hs.push(h)) == headers_block(hs) + header_line(h),
    decreases hs.len(),
{
    let s = hs.push(h);
    assert(headers_block(s) == header_line(s[0]) + headers_block(s.drop_first()));
    if hs.len() == 0 {
        assert(s.drop_first() =~= hs);
        assert(s[0] == h);
        assert(headers_block(hs.push(h)) =~= headers_block(hs) + header_line(h));
    } else {
        lemma_headers_block_push(hs.drop_first(), h);
        assert(s.drop_first() =~= hs.drop_first().push(h));
        assert(s[0] == hs[0]);
        assert(headers_block(hs.push(h)) =~= headers_block(hs) + header_line(h));
    }
}

/// Append the character of one decimal digit to a string.
fn push_digit(s: &mut String, d: u16)
    requires
        d < 10,
    ensures
        final(s)@ == old(s)@ + seq![digit_char(d as nat)],
{
    if d == 0 {
        s.append("0");
        proof {
            reveal_strlit("0");
            assert(final(s)@ =~= old(s)@ + seq![digit_char(d as nat)]);
        }
    } else if d == 1 {
        s.append("1");
        proof {
            reveal_strlit("1");
            assert(final(s)@ =~= old(s)@ + seq![digit_char(d as nat)]);
        }
    } else if d == 2 {
        s.append("2");
        proof {
            reveal_strlit("2");
            assert(final(s)@ =~= old(s)@ + seq![digit_char(d as nat)]);
        }
    } else if d == 3 {
        s.append("3");
        proof {
            reveal_strlit("3");
            assert(final(s)@ =~= old(s)@ + seq![digit_char(d as nat)]);
        }
    } else if d == 4 {
        s.append("4");
        proof {
            reveal_strlit("4");
            assert(final(s)@ =~= old(s)@ + seq![digit_char(d as nat)]);
        }
    } else if d == 5 {
        s.append("5");
        proof {
            reveal_strlit("5");
            assert(final(s)@ =~= old(s)@ + seq![digit_char(d as nat)]);
        }
    } else if d == 6 {
        s.append("6");
        proof {
            reveal_strlit("6");
            assert(final(s)@ =~= old(s)@ + seq![digit_char(d as nat)]);
        }
    } else if d == 7 {
        s.append("7");
        proof {
            reveal_strlit("7");
            assert(final(s)@ =~= old(s)@ + seq![digit_char(d as nat)]);
        }
    } else if d == 8 {
        s.append("8");
        proof {
            reveal_strlit("8");
            assert(final(s)@ =~= old(s)@ + seq![digit_char(d as nat)]);
        }
    } else {
        s.append("9");
        proof {
            reveal_strlit("9");
            assert(final(s)@ =~= old(s)@ + seq![digit_char(d as nat)]);
        }
    }
}

/// Append the decimal rendering of a number to a string.
fn push_decimal(s: &mut String, n: u16)
    ensures
        final(s)@ == old(s)@ + decimal(n as nat),
    decreases n,
{
    if n < 10 {
        push_digit(s, n);
        proof {
            assert(final(s)@ =~= old(s)@ + decimal(n as nat));
        }
    } else {
        push_decimal(s, n / 10);
        push_digit(s, n % 10);
        proof {
            assert(decimal(n as nat) =~= decimal(n as nat / 10) + seq![
                digit_char(n as nat % 10),
            ]);
            assert(final(s)@ =~= old(s)@ + decimal(n as nat));
        }
    }
}

impl Clone for Response {
    fn clone(&self) -> (r: Response)
        ensures
            r@ == self@,
    {
        let mut headers: Vec<Header> = Vec::new();
        let mut i: usize = 0;
        while i < self.headers.len()
            invariant
                i <= self.headers.len(),
                headers@.len() == i as nat,
                forall|j: int| 0 <= j < i ==> headers@[j]@ == self.headers@[j]@,
            decreases self.headers.len() - i,
        {
            headers.push(self.headers[i].clone());
            i = i + 1;
        }
        let r = Response {
            status_code: self.status_code,
            headers,
            body: self.body.clone(),
        };
        proof {
            assert(r@.headers =~= self@.headers);
        }
        r
    }
}

impl Response {
    /// Render the response to the bytes that go on the wire: the UTF-8
    /// encoding of exactly the text given by [`response_text`].
    pub fn bytes(&self) -> (r: Vec<u8>)
        ensures
            r@ == encode_utf8(response_text(self@)),
    {
        let mut response = String::new();
        response.append("HTTP/1.1 ");
        push_decimal(&mut response, self.status_code);
        response.append(" Testing-phrase ");
        response.append("\r\n");

        let ghost prefix: Seq<char> = response@;
        let mut i: usize = 0;
        while i < self.headers.len()
            invariant
                i <= self.headers.len(),
                response@ == prefix + headers_block(self@.headers.take(i as int)),
            decreases self.headers.len() - i,
        {
            let header = &self.headers[i];
            response.append(header.name.as_str());
            response.append(":");
            response.append(header.value.as_str());
            response.append(" ");
            proof {
                lemma_headers_block_push(self@.headers.take(i as int), self@.headers[i as int]);
                assert(self@.headers.take(i + 1 as int) =~= self@.headers.take(i as int).push(
                    self@.headers[i as int],
                ));
                assert(response@ =~= prefix + headers_block(self@.headers.take(i + 1 as int)));
            }
            i = i + 1;
        }
        proof {
            assert(self@.headers.take(self.headers@.len() as int) =~= self@.headers);
        }

        response.append("\r\n");
        response.append(self.body.as_str());
        proof {
            assert(response@ =~= response_text(self@));
        }
        response.as_str().as_bytes_vec()
    }
}

/// Assembles a [`Response`] step by step, starting from an empty success
/// response.
pub struct ResponseBuilder {
    response: Response,
}

impl ResponseBuilder {
    /// The response assembled so far.
    pub closed spec fn spec_response(self) -> Response {
        self.response
    }

    /// A fresh builder: status 200, no headers, empty body.
    pub fn new() -> (r: ResponseBuilder)
        ensures
            r.spec_response()@.status_code == 200,
            r.spec_response()@.headers == Seq::<HeaderView>::empty(),
            r.spec_response()@.body == Seq::<char>::empty(),
    {
        let response = Response { status_code: 200, headers: Vec::new(), body: String::new() };
        proof {
            assert(response@.headers =~= Seq::<HeaderView>::empty());
        }
        ResponseBuilder { response }
    }

    /// Replace the status code; everything else is kept.
    pub fn status_code(self, code: u16) -> (r: ResponseBuilder)
        ensures
            r.spec_response()@ == (ResponseView {
                status_code: code,
                ..self.spec_response()@
            }),
    {
        let mut this = self;
        this.response.status_code = code;
        this
    }

    /// Append one header; everything else is kept.
    pub fn add_header(self, header: Header) -> (r: ResponseBuilder)
        ensures
            r.spec_response()@ == (ResponseView {
                headers: self.spec_response()@.headers.push(header@),
                ..self.spec_response()@
            }),
    {
        let mut this = self;
        this.response.headers.push(header);
        proof {
            assert(this.response@.headers =~= self.spec_response()@.headers.push(
                this.response.headers@.last()@,
            ));
        }
        this
    }

    /// Replace the body; everything else is kept.
    pub fn body(self, bytes: String) -> (r: ResponseBuilder)
        ensures
            r.spec_response()@ == (ResponseView { body: bytes@, ..self.spec_response()@ }),
    {
        let mut this = self;
        this.response.body = bytes;
        this
    }

    /// A builder for a success response: status 200, no headers, empty body.
    pub fn success() -> (r: ResponseBuilder)
        ensures
            r.spec_response()@.status_code == 200,
            r.spec_response()@.headers == Seq::<HeaderView>::empty(),
            r.spec_response()@.body == Seq::<char>::empty(),
    {
        ResponseBuilder::new()
    }

    /// A builder for a client-error response: status 400, no headers, empty
    /// body.
    pub fn bad_request() -> (r: ResponseBuilder)
        ensures
            r.spec_response()@.status_code == 400,
            r.spec_response()@.headers == Seq::<HeaderView>::empty(),
            r.spec_response()@.body == Seq::<char>::empty(),
    {
        ResponseBuilder::new().status_code(400)
    }

    /// Hand out the assembled response; the builder keeps its state.
    pub fn build(&mut self) -> (r: Response)
        ensures
            r@ == old(self).spec_response()@,
            *final(self) == *old(self),
    {
        self.response.clone()
    }
}

} // verus!
