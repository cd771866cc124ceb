//! Requests and responses of the control plane.

use core::str::Utf8Error;
use vstd::prelude::*;
use vstd::string::StringSliceAdditionalSpecFns;
use vstd::utf8::{
    decode_utf8, encode_utf8, encode_utf8_decode_utf8, encode_utf8_valid_utf8, valid_utf8,
};

use crate::json::{error_json, error_object, push_bytes};
use crate::text::{
    all_digits, characters, compose, decimal, decimal_text, digit, digits_value, find, join, lower,
    lowered, number, parse_number, piece, position_of, run_end, skip_run, spells, trim, trimmed,
    unsigned_part, white_space,
};

verus! {

/// `core::str::Utf8Error`, carried through to be shown.
#[verifier::external_type_specification]
#[verifier::external_body]
pub struct ExUtf8Error(Utf8Error);

/// `core::str::from_utf8`: the text that the bytes encode, or an error where they are not valid
/// UTF-8.
pub assume_specification[ core::str::from_utf8 ](v: &[u8]) -> (r: Result<&str, Utf8Error>)
    ensures
        r is Ok <==> valid_utf8(v@),
        r matches Ok(s) ==> s.spec_bytes() == v@,
;

pub const MAX_REQUEST_BYTES: usize = 16_384;

#[derive(Debug)]
pub struct HttpRequest {
    pub method: String,
    pub path: String,
    pub body: Vec<u8>,
}

/// Why a request could not be read.
#[derive(Debug)]
pub enum RequestError {
    ClosedEarly,
    TooLarge,
    NotText(Utf8Error),
    MissingLine,
    MissingMethod,
    MissingPath,
    BodyTooLarge,
    ClosedInBody,
}

impl RequestError {
    /// The error in words; that of bytes which are no text is the standard library's.
    pub open spec fn message(self) -> Option<Seq<char>> {
        match self {
            RequestError::ClosedEarly => Some("connection closed before request completed"@),
            RequestError::TooLarge => Some("request too large"@),
            RequestError::NotText(_) => None,
            RequestError::MissingLine => Some("missing request line"@),
            RequestError::MissingMethod => Some("missing method"@),
            RequestError::MissingPath => Some("missing path"@),
            RequestError::BodyTooLarge => Some("request body too large"@),
            RequestError::ClosedInBody => Some("connection closed before body completed"@),
        }
    }

    pub fn text(&self) -> (r: String)
        ensures
            self.message() matches Some(m) ==> r@ == m,
            self matches RequestError::NotText(e)
                ==> vstd::string::to_string_from_display_ensures(e, r),
    {
        match self {
            RequestError::ClosedEarly => "connection closed before request completed".to_owned(),
            RequestError::TooLarge => "request too large".to_owned(),
            RequestError::NotText(e) => e.to_string(),
            RequestError::MissingLine => "missing request line".to_owned(),
            RequestError::MissingMethod => "missing method".to_owned(),
            RequestError::MissingPath => "missing path".to_owned(),
            RequestError::BodyTooLarge => "request body too large".to_owned(),
            RequestError::ClosedInBody => "connection closed before body completed".to_owned(),
        }
    }
}

// ---------------------------------------------------------------------------------------------
// The grammar of a request's head.

/// The line of `s` that begins at `i`, without its end.
pub open spec fn line_at(s: Seq<char>, i: int) -> Seq<char> {
    let end = position_of(s, '\n', i);
    if end < s.len() && end > i && s[end - 1] == '\r' {
        s.subrange(i, end - 1)
    } else {
        s.subrange(i, end)
    }
}

/// Where the line after the one at `i` begins.
pub open spec fn next_line(s: Seq<char>, i: int) -> int {
    let end = position_of(s, '\n', i);
    if end < s.len() {
        end + 1
    } else {
        end
    }
}

/// The number in a header line that tells the length of the body.
pub open spec fn length_in(line: Seq<char>) -> Option<nat> {
    let colon = position_of(line, ':', 0);
    if colon < line.len() && lowered(line.subrange(0, colon)) == lowered("content-length"@) {
        match number(trimmed(line.subrange(colon + 1, line.len() as int))) {
            Some(n) if n <= usize::MAX => Some(n),
            _ => None,
        }
    } else {
        None
    }
}

/// The length that the first such line from `i` on tells; zero where there is none.
pub open spec fn length_from(s: Seq<char>, i: int) -> nat
    decreases s.len() - i,
{
    if 0 <= i < s.len() {
        match length_in(line_at(s, i)) {
            Some(n) => n,
            None => if i < next_line(s, i) <= s.len() {
                length_from(s, next_line(s, i))
            } else {
                0
            },
        }
    } else {
        0
    }
}

/// The method and the path of a request line: its first two words.
pub open spec fn words_of(line: Seq<char>) -> (Seq<char>, Seq<char>) {
    let a = run_end(line, 0, true);
    let b = run_end(line, a, false);
    let c = run_end(line, b, true);
    let d = run_end(line, c, false);
    (line.subrange(a, b), line.subrange(c, d))
}

/// What a request's head says.
pub struct HeadModel {
    pub method: Seq<char>,
    pub path: Seq<char>,
    pub length: nat,
}

/// Why a head could not be read, apart from bytes that are no text.
pub enum HeadFault {
    Line,
    Method,
    Path,
}

pub open spec fn head_of(s: Seq<char>) -> Result<HeadModel, HeadFault> {
    let (method, path) = words_of(line_at(s, 0));
    if s.len() == 0 {
        Err(HeadFault::Line)
    } else if method.len() == 0 {
        Err(HeadFault::Method)
    } else if path.len() == 0 {
        Err(HeadFault::Path)
    } else {
        Ok(HeadModel { method, path, length: length_from(s, next_line(s, 0)) })
    }
}

/// The empty line that ends a head stands at `i`.
pub open spec fn ends_at(bytes: Seq<u8>, i: int) -> bool {
    &&& 0 <= i
    &&& i + 4 <= bytes.len()
    &&& bytes[i] == 0x0d
    &&& bytes[i + 1] == 0x0a
    &&& bytes[i + 2] == 0x0d
    &&& bytes[i + 3] == 0x0a
}

/// Where the head ends: at the first empty line from `i` on.
pub open spec fn head_end(bytes: Seq<u8>, i: int) -> Option<int>
    decreases bytes.len() - i,
{
    if i + 4 > bytes.len() {
        None
    } else if ends_at(bytes, i) {
        Some(i)
    } else {
        head_end(bytes, i + 1)
    }
}

pub fn find_header_end(bytes: &[u8]) -> (r: Option<usize>)
    ensures
        match r {
            Some(i) => head_end(bytes@, 0) == Some(i as int) && ends_at(bytes@, i as int),
            None => head_end(bytes@, 0) is None,
        },
{
    let mut i: usize = 0;
    let n: usize = bytes.len();
    while i < n && n - i >= 4
        invariant
            n == bytes@.len(),
            i <= n,
            head_end(bytes@, 0) == head_end(bytes@, i as int),
        decreases n - i,
    {
        if bytes[i] == 0x0d && bytes[i + 1] == 0x0a && bytes[i + 2] == 0x0d && bytes[i + 3]
            == 0x0a {
            return Some(i);
        }
        i += 1;
    }
    None
}

fn take_line(s: &[char], from: usize) -> (r: (Vec<char>, usize))
    requires
        from <= s@.len(),
    ensures
        r.0@ == line_at(s@, from as int),
        r.1 == next_line(s@, from as int),
        from <= r.1 <= s@.len(),
        from < s@.len() ==> from < r.1,
{
    let end: usize = find(s, '\n', from);
    if end < s.len() {
        if end > from && s[end - 1] == '\r' {
            (piece(s, from, end - 1), end + 1)
        } else {
            (piece(s, from, end), end + 1)
        }
    } else {
        (piece(s, from, end), end)
    }
}

fn header_length(line: &[char]) -> (r: Option<usize>)
    ensures
        match length_in(line@) {
            Some(n) => r == Some(n as usize),
            None => r is None,
        },
{
    let colon: usize = find(line, ':', 0);
    if colon >= line.len() {
        return None;
    }
    let name: Vec<char> = piece(line, 0, colon);
    if !spells(name.as_slice(), "content-length") {
        return None;
    }
    let value: Vec<char> = piece(line, colon + 1, line.len());
    let bare: Vec<char> = trim(value.as_slice());
    match parse_number(bare.as_slice(), usize::MAX as u64) {
        Some(n) => Some(n as usize),
        None => None,
    }
}

fn body_length(s: &[char], from: usize) -> (r: usize)
    requires
        from <= s@.len(),
    ensures
        r == length_from(s@, from as int),
{
    let mut i: usize = from;
    while i < s.len()
        invariant
            from <= i <= s@.len(),
            length_from(s@, from as int) == length_from(s@, i as int),
        decreases s@.len() - i,
    {
        let (line, next) = take_line(s, i);
        match header_length(line.as_slice()) {
            Some(n) => return n,
            None => {},
        }
        i = next;
    }
    0
}

/// A request's head.
#[derive(Debug)]
pub struct RequestHead {
    pub method: String,
    pub path: String,
    pub length: usize,
}

/// The head that the bytes before the empty line spell.
pub open spec fn head_result(bytes: Seq<u8>, r: Result<RequestHead, RequestError>) -> bool {
    if !valid_utf8(bytes) {
        r matches Err(RequestError::NotText(_))
    } else {
        match head_of(decode_utf8(bytes)) {
            Ok(head) => r matches Ok(h) && h.method@ == head.method && h.path@ == head.path
                && h.length == head.length,
            Err(HeadFault::Line) => r matches Err(RequestError::MissingLine),
            Err(HeadFault::Method) => r matches Err(RequestError::MissingMethod),
            Err(HeadFault::Path) => r matches Err(RequestError::MissingPath),
        }
    }
}

/// Reads a request's head.
pub fn parse_head(bytes: &[u8]) -> (r: Result<RequestHead, RequestError>)
    ensures
        head_result(bytes@, r),
{
    let text: &str = match core::str::from_utf8(bytes) {
        Ok(text) => text,
        Err(e) => return Err(RequestError::NotText(e)),
    };
    let c: Vec<char> = characters(text);
    let s: &[char] = c.as_slice();
    assert(encode_utf8(text@) == bytes@);
    assert(s@ == decode_utf8(bytes@)) by {
        encode_utf8_decode_utf8(text@);
    }
    if s.len() == 0 {
        return Err(RequestError::MissingLine);
    }
    let (line, next) = take_line(s, 0);
    let l: &[char] = line.as_slice();
    let a: usize = skip_run(l, 0, true);
    let b: usize = skip_run(l, a, false);
    let d: usize = skip_run(l, b, true);
    let e: usize = skip_run(l, d, false);
    if a == b {
        return Err(RequestError::MissingMethod);
    }
    if d == e {
        return Err(RequestError::MissingPath);
    }
    let method: Vec<char> = piece(l, a, b);
    let path: Vec<char> = piece(l, d, e);
    Ok(
        RequestHead {
            method: compose(method.as_slice()),
            path: compose(path.as_slice()),
            length: body_length(s, next),
        },
    )
}

// ---------------------------------------------------------------------------------------------
// Reading a request piece by piece.

/// A head that was read, and how many bytes the request has in all.
#[derive(Debug)]
pub struct PendingBody {
    pub method: String,
    pub path: String,
    pub start: usize,
    pub required: usize,
}

/// The bytes of a request that have come in so far.
#[derive(Debug)]
pub struct RequestReader {
    pub bytes: Vec<u8>,
    pub pending: Option<PendingBody>,
}

/// How far a request has come.
#[derive(Debug)]
pub enum ReadStep {
    More,
    Complete(HttpRequest),
    Failed(RequestError),
}

impl RequestReader {
    pub open spec fn well_formed(self) -> bool {
        self.pending matches Some(p) ==> p.start <= p.required <= MAX_REQUEST_BYTES && p.start
            <= self.bytes@.len()
    }

    /// What a body that is `pending` makes of all the bytes that have come in.
    pub open spec fn body_step(
        all: Seq<u8>,
        method: Seq<char>,
        path: Seq<char>,
        start: int,
        required: int,
        after: Self,
        step: ReadStep,
    ) -> bool {
        if all.len() >= required {
            &&& step matches ReadStep::Complete(request)
            &&& request.method@ == method
            &&& request.path@ == path
            &&& request.body@ == all.subrange(start, required)
        } else {
            &&& step is More
            &&& after.bytes@ == all
            &&& after.pending matches Some(p)
            &&& p.method@ == method
            &&& p.path@ == path
            &&& p.start == start
            &&& p.required == required
        }
    }

    /// What a head that ends at `end` makes of all the bytes that have come in.
    pub open spec fn head_step(
        all: Seq<u8>,
        end: int,
        head: Result<RequestHead, RequestError>,
        after: Self,
        step: ReadStep,
    ) -> bool {
        match head {
            Err(e) => step == ReadStep::Failed(e),
            Ok(h) => if end + 4 + h.length > MAX_REQUEST_BYTES {
                step matches ReadStep::Failed(RequestError::BodyTooLarge)
            } else {
                Self::body_step(
                    all,
                    h.method@,
                    h.path@,
                    end + 4,
                    end + 4 + h.length,
                    after,
                    step,
                )
            },
        }
    }

    /// The same, for the head that those bytes spell.
    pub open spec fn head_found(all: Seq<u8>, end: int, after: Self, step: ReadStep) -> bool {
        exists|head: Result<RequestHead, RequestError>|
            {
                &&& #[trigger] head_result(all.take(end), head)
                &&& Self::head_step(all, end, head, after, step)
            }
    }

    /// What the next bytes make of the request.
    pub open spec fn fed(self, chunk: Seq<u8>, after: Self, step: ReadStep) -> bool {
        let all = self.bytes@ + chunk;
        match self.pending {
            Some(p) => if chunk.len() == 0 {
                step matches ReadStep::Failed(RequestError::ClosedInBody)
            } else {
                Self::body_step(
                    all,
                    p.method@,
                    p.path@,
                    p.start as int,
                    p.required as int,
                    after,
                    step,
                )
            },
            None => if chunk.len() == 0 {
                step matches ReadStep::Failed(RequestError::ClosedEarly)
            } else if all.len() > MAX_REQUEST_BYTES {
                step matches ReadStep::Failed(RequestError::TooLarge)
            } else {
                match head_end(all, 0) {
                    None => step is More && after.bytes@ == all && after.pending is None,
                    Some(end) => Self::head_found(all, end, after, step),
                }
            },
        }
    }

    pub fn new() -> (r: Self)
        ensures
            r.bytes@ == Seq::<u8>::empty(),
            r.pending is None,
            r.well_formed(),
    {
        RequestReader { bytes: Vec::new(), pending: None }
    }

    fn body_piece(&self, from: usize, to: usize) -> (r: Vec<u8>)
        requires
            from <= to <= self.bytes@.len(),
        ensures
            r@ == self.bytes@.subrange(from as int, to as int),
    {
        let mut r: Vec<u8> = Vec::new();
        let mut i: usize = from;
        while i < to
            invariant
                from <= i <= to <= self.bytes@.len(),
                r@ == self.bytes@.subrange(from as int, i as int),
            decreases to - i,
        {
            r.push(self.bytes[i]);
            assert(r@ == self.bytes@.subrange(from as int, i + 1));
            i += 1;
        }
        r
    }

    fn body_ready(&mut self, p: PendingBody) -> (r: ReadStep)
        requires
            p.start <= p.required <= MAX_REQUEST_BYTES,
            p.start <= old(self).bytes@.len(),
        ensures
            Self::body_step(
                old(self).bytes@,
                p.method@,
                p.path@,
                p.start as int,
                p.required as int,
                *final(self),
                r,
            ),
            final(self).well_formed(),
    {
        if self.bytes.len() >= p.required {
            let body: Vec<u8> = self.body_piece(p.start, p.required);
            self.pending = None;
            ReadStep::Complete(HttpRequest { method: p.method, path: p.path, body })
        } else {
            self.pending = Some(p);
            ReadStep::More
        }
    }

    /// Takes the next bytes in; none stand for the end of the connection.
    pub fn feed(&mut self, chunk: &[u8]) -> (r: ReadStep)
        requires
            old(self).well_formed(),
        ensures
            old(self).fed(chunk@, *final(self), r),
            final(self).well_formed(),
    {
        if chunk.len() == 0 {
            return ReadStep::Failed(
                if self.pending.is_some() {
                    RequestError::ClosedInBody
                } else {
                    RequestError::ClosedEarly
                },
            );
        }
        push_bytes(&mut self.bytes, chunk);
        match self.pending.take() {
            Some(p) => {
                return self.body_ready(p);
            },
            None => {},
        }
        if self.bytes.len() > MAX_REQUEST_BYTES {
            return ReadStep::Failed(RequestError::TooLarge);
        }
        let ghost all = self.bytes@;
        let end: usize = match find_header_end(self.bytes.as_slice()) {
            Some(end) => end,
            None => return ReadStep::More,
        };
        let head_bytes: Vec<u8> = self.body_piece(0, end);
        assert(head_bytes@ == all.take(end as int));
        let head: Result<RequestHead, RequestError> = parse_head(head_bytes.as_slice());
        assert(head_result(all.take(end as int), head));
        let ghost read = head;
        match head {
            Err(e) => ReadStep::Failed(e),
            Ok(h) => {
                if h.length > MAX_REQUEST_BYTES || end + 4 + h.length > MAX_REQUEST_BYTES {
                    assert(Self::head_step(
                        all,
                        end as int,
                        read,
                        *self,
                        ReadStep::Failed(RequestError::BodyTooLarge),
                    ));
                    return ReadStep::Failed(RequestError::BodyTooLarge);
                }
                let pending: PendingBody = PendingBody {
                    method: h.method,
                    path: h.path,
                    start: end + 4,
                    required: end + 4 + h.length,
                };
                let step: ReadStep = self.body_ready(pending);
                assert(Self::head_step(all, end as int, read, *self, step));
                step
            },
        }
    }
}

// ---------------------------------------------------------------------------------------------
// Responses.

#[derive(Debug)]
pub struct HttpResponse {
    pub status: &'static str,
    pub body: Vec<u8>,
}

impl HttpResponse {
    pub fn empty(status: &'static str) -> (r: Self)
        ensures
            r.status == status,
            r.body@ == Seq::<u8>::empty(),
    {
        HttpResponse { status, body: Vec::new() }
    }

    pub fn error(status: &'static str, error: &str) -> (r: Self)
        ensures
            r.status == status,
            r.body@ == error_object(error@),
    {
        HttpResponse { status, body: error_json(error) }
    }

    /// The lines before the body.
    pub fn head(&self) -> (r: String)
        ensures
            r@ == "HTTP/1.1 "@ + self.status@
                + "\r\nContent-Type: application/json\r\nContent-Length: "@ + decimal(
                self.body@.len(),
            ) + "\r\nConnection: close\r\n\r\n"@,
    {
        let start: String = join(
            join("HTTP/1.1 ", self.status).as_str(),
            "\r\nContent-Type: application/json\r\nContent-Length: ",
        );
        join(
            join(start.as_str(), decimal_text(self.body.len() as u64).as_str()).as_str(),
            "\r\nConnection: close\r\n\r\n",
        )
    }
}

/// A request's first empty line ends its head: nothing before it does.
pub proof fn law_head_end(bytes: Seq<u8>, i: int)
    requires
        0 <= i,
    ensures
        match head_end(bytes, i) {
            Some(end) => i <= end && ends_at(bytes, end) && forall|j: int|
                i <= j < end ==> !ends_at(bytes, j),
            None => forall|j: int| i <= j ==> !ends_at(bytes, j),
        },
    decreases bytes.len() - i,
{
    if i + 4 <= bytes.len() && !ends_at(bytes, i) {
        law_head_end(bytes, i + 1);
    }
}

/// No request that is accepted is longer than the limit.
pub proof fn law_request_is_bounded(
    before: RequestReader,
    chunk: Seq<u8>,
    after: RequestReader,
    step: ReadStep,
)
    requires
        before.well_formed(),
        before.fed(chunk, after, step),
    ensures
        step matches ReadStep::Complete(request) ==> request.body@.len() <= MAX_REQUEST_BYTES,
{
    let all = before.bytes@ + chunk;
    if before.pending is None && chunk.len() > 0 && all.len() <= MAX_REQUEST_BYTES {
        law_head_end(all, 0);
    }
}

/// The bytes of chunks one after another.
pub open spec fn joined(chunks: Seq<Seq<u8>>) -> Seq<u8>
    decreases chunks.len(),
{
    if chunks.len() == 0 {
        Seq::empty()
    } else {
        joined(chunks.drop_last()) + chunks.last()
    }
}

/// What bytes that have come in spell: a request, a fault, or too little of either.
pub open spec fn spelled(bytes: Seq<u8>, step: ReadStep) -> bool {
    match head_end(bytes, 0) {
        None => step is More,
        Some(end) => if !valid_utf8(bytes.take(end)) {
            step matches ReadStep::Failed(RequestError::NotText(_))
        } else {
            match head_of(decode_utf8(bytes.take(end))) {
                Err(HeadFault::Line) => step matches ReadStep::Failed(RequestError::MissingLine),
                Err(HeadFault::Method) => step matches ReadStep::Failed(
                    RequestError::MissingMethod,
                ),
                Err(HeadFault::Path) => step matches ReadStep::Failed(RequestError::MissingPath),
                Ok(head) => if end + 4 + head.length > MAX_REQUEST_BYTES {
                    step matches ReadStep::Failed(RequestError::BodyTooLarge)
                } else if bytes.len() < end + 4 + head.length {
                    step is More
                } else {
                    &&& step matches ReadStep::Complete(request)
                    &&& request.method@ == head.method
                    &&& request.path@ == head.path
                    &&& request.body@ == bytes.subrange(end + 4, end + 4 + head.length)
                },
            }
        },
    }
}

impl RequestReader {
    /// Nothing has come in yet.
    pub open spec fn fresh(self) -> bool {
        self.bytes@.len() == 0 && self.pending is None
    }

    /// What one more chunk makes of a reading, which goes on only while it needs more.
    pub open spec fn goes_on(
        self,
        so_far: ReadStep,
        chunk: Seq<u8>,
        after: Self,
        step: ReadStep,
    ) -> bool {
        if so_far is More {
            self.fed(chunk, after, step)
        } else {
            after == self && step == so_far
        }
    }

    /// The reader that needs more remembers the bytes and the head that they spell.
    spec fn remembers(self, bytes: Seq<u8>) -> bool {
        &&& self.bytes@ == bytes
        &&& match (head_end(bytes, 0), self.pending) {
            (None, None) => true,
            (Some(end), Some(p)) => {
                &&& valid_utf8(bytes.take(end))
                &&& head_of(decode_utf8(bytes.take(end))) matches Ok(head)
                &&& p.method@ == head.method
                &&& p.path@ == head.path
                &&& p.start == end + 4
                &&& p.required == end + 4 + head.length
                &&& p.required <= MAX_REQUEST_BYTES
            },
            _ => false,
        }
    }
}

/// A reading: a reader that nothing has come in to takes chunks in, one after another, up to the
/// one that a request or a fault comes with.  `readers` and `steps` say how it stands before the
/// first chunk and after each.
pub struct Reading {
    pub chunks: Seq<Seq<u8>>,
    pub readers: Seq<RequestReader>,
    pub steps: Seq<ReadStep>,
}

impl Reading {
    pub open spec fn holds(self) -> bool {
        &&& self.readers.len() == self.chunks.len() + 1
        &&& self.steps.len() == self.chunks.len() + 1
        &&& self.readers[0].fresh()
        &&& self.steps[0] is More
        &&& forall|i: int|
            0 <= i < self.chunks.len() ==> {
                &&& (#[trigger] self.chunks[i]).len() > 0
                &&& self.readers[i].goes_on(
                    self.steps[i],
                    self.chunks[i],
                    self.readers[i + 1],
                    self.steps[i + 1],
                )
            }
    }

    /// The bytes that come in.
    pub open spec fn bytes(self) -> Seq<u8> {
        joined(self.chunks)
    }

    /// What the reading comes to.
    pub open spec fn outcome(self) -> ReadStep {
        self.steps.last()
    }
}

/// More bytes leave the end of a head where it was.
proof fn lemma_head_end_stays(bytes: Seq<u8>, more: Seq<u8>)
    requires
        head_end(bytes, 0) is Some,
    ensures
        head_end(bytes + more, 0) == head_end(bytes, 0),
        (bytes + more).take(head_end(bytes, 0)->0) == bytes.take(head_end(bytes, 0)->0),
        0 <= head_end(bytes, 0)->0,
        head_end(bytes, 0)->0 + 4 <= bytes.len(),
{
    let all = bytes + more;
    law_head_end(bytes, 0);
    law_head_end(all, 0);
    let end = head_end(bytes, 0)->0;
    assert(ends_at(all, end));
    let other = head_end(all, 0)->0;
    if other < end {
        assert(ends_at(bytes, other));
    }
}

/// More bytes change nothing of a request or a fault.
proof fn lemma_spelled_stays(bytes: Seq<u8>, more: Seq<u8>, step: ReadStep)
    requires
        spelled(bytes, step),
        !(step is More),
    ensures
        spelled(bytes + more, step),
{
    lemma_head_end_stays(bytes, more);
    let end = head_end(bytes, 0)->0;
    if step is Complete {
        let head = head_of(decode_utf8(bytes.take(end)))->Ok_0;
        assert((bytes + more).subrange(end + 4, end + 4 + head.length) == bytes.subrange(
            end + 4,
            end + 4 + head.length,
        ));
    }
}

/// A chunk takes a reading from what the bytes before it spell to what those with it spell.
proof fn lemma_chunk(
    before: RequestReader,
    bytes: Seq<u8>,
    chunk: Seq<u8>,
    after: RequestReader,
    step: ReadStep,
)
    requires
        spelled(bytes, ReadStep::More),
        before.remembers(bytes),
        chunk.len() > 0,
        (bytes + chunk).len() <= MAX_REQUEST_BYTES,
        before.fed(chunk, after, step),
    ensures
        spelled(bytes + chunk, step),
        step is More ==> after.remembers(bytes + chunk),
{
    let all = bytes + chunk;
    if head_end(bytes, 0) is Some {
        lemma_head_end_stays(bytes, chunk);
    } else if head_end(all, 0) is Some {
        let end = head_end(all, 0)->0;
        law_head_end(all, 0);
        let head = choose|head: Result<RequestHead, RequestError>|
            {
                &&& #[trigger] head_result(all.take(end), head)
                &&& RequestReader::head_step(all, end, head, after, step)
            };
        assert(head_result(all.take(end), head));
        assert(RequestReader::head_step(all, end, head, after, step));
    }
}

/// What a reading has come to after its first chunks is what their bytes spell.
proof fn lemma_reading(reading: Reading, n: int)
    requires
        reading.holds(),
        0 <= n <= reading.chunks.len(),
        joined(reading.chunks.take(n)).len() <= MAX_REQUEST_BYTES,
    ensures
        spelled(joined(reading.chunks.take(n)), reading.steps[n]),
        reading.steps[n] is More ==> reading.readers[n].remembers(
            joined(reading.chunks.take(n)),
        ),
    decreases n,
{
    if n > 0 {
        let chunk = reading.chunks[n - 1];
        let bytes = joined(reading.chunks.take(n - 1));
        assert(reading.chunks.take(n).drop_last() == reading.chunks.take(n - 1));
        assert(joined(reading.chunks.take(n)) == bytes + chunk);
        lemma_reading(reading, n - 1);
        if reading.steps[n - 1] is More {
            lemma_chunk(
                reading.readers[n - 1],
                bytes,
                chunk,
                reading.readers[n],
                reading.steps[n],
            );
        } else {
            lemma_spelled_stays(bytes, chunk, reading.steps[n]);
        }
    } else {
        assert(reading.readers[0].bytes@ == Seq::<u8>::empty());
    }
}

/// A request reads the same however its bytes are cut: what a reading comes to is what its bytes
/// spell, as long as they are no more than a request may have.
pub proof fn law_cuts_do_not_matter(reading: Reading)
    requires
        reading.holds(),
        reading.bytes().len() <= MAX_REQUEST_BYTES,
    ensures
        spelled(reading.bytes(), reading.outcome()),
{
    assert(reading.chunks.take(reading.chunks.len() as int) == reading.chunks);
    lemma_reading(reading, reading.chunks.len() as int);
}

/// Two readings of the same bytes come to the same, however each of them is cut.
pub proof fn law_readings_agree(reading: Reading, other: Reading)
    requires
        reading.holds(),
        other.holds(),
        reading.bytes() == other.bytes(),
        reading.bytes().len() <= MAX_REQUEST_BYTES,
    ensures
        reading.outcome() is More <==> other.outcome() is More,
        reading.outcome() is Failed <==> other.outcome() is Failed,
        reading.outcome() matches ReadStep::Complete(request) ==> {
            &&& other.outcome() matches ReadStep::Complete(same)
            &&& same.method@ == request.method@
            &&& same.path@ == request.path@
            &&& same.body@ == request.body@
        },
{
    law_cuts_do_not_matter(reading);
    law_cuts_do_not_matter(other);
}

/// A connection that ends before its request is there fails it: within the body once the head
/// is there, and before that otherwise.
pub proof fn law_closed_connection(reading: Reading, after: RequestReader, step: ReadStep)
    requires
        reading.holds(),
        reading.bytes().len() <= MAX_REQUEST_BYTES,
        reading.outcome() is More,
        reading.readers.last().fed(Seq::empty(), after, step),
    ensures
        if head_end(reading.bytes(), 0) is Some {
            step matches ReadStep::Failed(RequestError::ClosedInBody)
        } else {
            step matches ReadStep::Failed(RequestError::ClosedEarly)
        },
{
    assert(reading.chunks.take(reading.chunks.len() as int) == reading.chunks);
    lemma_reading(reading, reading.chunks.len() as int);
}

/// A head, an empty line and a body, however cut, are the request that the head asks for: its
/// method, its path and as much of the body as it tells.  A body that would make the request
/// too long is refused, and one that is not all there is waited for.
pub proof fn law_request_is_read(reading: Reading, head: Seq<char>, body: Seq<u8>)
    requires
        reading.holds(),
        reading.bytes().len() <= MAX_REQUEST_BYTES,
        reading.bytes() == encode_utf8(head) + seq![0x0du8, 0x0au8, 0x0du8, 0x0au8] + body,
        forall|i: int| 0 <= i < encode_utf8(head).len() ==> !ends_at(reading.bytes(), i),
        head_of(head) is Ok,
    ensures
        ({
            let h = head_of(head)->Ok_0;
            if encode_utf8(head).len() + 4 + h.length > MAX_REQUEST_BYTES {
                reading.outcome() matches ReadStep::Failed(RequestError::BodyTooLarge)
            } else if body.len() < h.length {
                reading.outcome() is More
            } else {
                &&& reading.outcome() matches ReadStep::Complete(request)
                &&& request.method@ == h.method
                &&& request.path@ == h.path
                &&& request.body@ == body.take(h.length as int)
            }
        }),
{
    let all = reading.bytes();
    let n = encode_utf8(head).len() as int;
    law_cuts_do_not_matter(reading);
    law_head_end(all, 0);
    assert(ends_at(all, n));
    let end = head_end(all, 0)->0;
    assert(end == n) by {
        assert(!(end < n && ends_at(all, end)));
    }
    assert(all.take(n) == encode_utf8(head));
    encode_utf8_decode_utf8(head);
    encode_utf8_valid_utf8(head);
    let h = head_of(head)->Ok_0;
    if h.length <= body.len() {
        assert(all.subrange(n + 4, n + 4 + h.length) == body.take(h.length as int));
    }
}

// ---------------------------------------------------------------------------------------------
// What a head says.

/// A request line and header lines, each on a line of its own.
pub open spec fn head_text(line: Seq<char>, headers: Seq<Seq<char>>) -> Seq<char>
    decreases headers.len(),
{
    if headers.len() == 0 {
        line
    } else {
        line + seq!['\r', '\n'] + head_text(headers[0], headers.drop_first())
    }
}

/// The length that the first header with one tells; zero where there is none.
pub open spec fn first_length(headers: Seq<Seq<char>>) -> nat
    decreases headers.len(),
{
    if headers.len() == 0 {
        0
    } else {
        match length_in(headers[0]) {
            Some(n) => n,
            None => first_length(headers.drop_first()),
        }
    }
}

/// The text is one line.
pub open spec fn one_line(s: Seq<char>) -> bool {
    forall|i: int| 0 <= i < s.len() ==> #[trigger] s[i] != '\r' && s[i] != '\n'
}

/// The text is one word.
pub open spec fn one_word(s: Seq<char>) -> bool {
    &&& s.len() > 0
    &&& forall|i: int| 0 <= i < s.len() ==> !white_space(#[trigger] s[i])
}

proof fn lemma_position(s: Seq<char>, c: char, i: int, j: int)
    requires
        0 <= i <= j <= s.len(),
        forall|k: int| i <= k < j ==> s[k] != c,
        j < s.len() ==> s[j] == c,
    ensures
        position_of(s, c, i) == j,
    decreases j - i,
{
    if i < j {
        lemma_position(s, c, i + 1, j);
    }
}

proof fn lemma_run(s: Seq<char>, i: int, j: int, spaces: bool)
    requires
        0 <= i <= j <= s.len(),
        forall|k: int| i <= k < j ==> white_space(#[trigger] s[k]) == spaces,
        j < s.len() ==> white_space(s[j]) != spaces,
    ensures
        run_end(s, i, spaces) == j,
    decreases j - i,
{
    if i < j {
        lemma_run(s, i + 1, j, spaces);
    }
}

/// The first line of a head is its request line.
proof fn lemma_first_line(line: Seq<char>, headers: Seq<Seq<char>>)
    requires
        one_line(line),
    ensures
        line_at(head_text(line, headers), 0) == line,
        next_line(head_text(line, headers), 0) == if headers.len() == 0 {
            line.len() as int
        } else {
            line.len() as int + 2
        },
{
    let s = head_text(line, headers);
    if headers.len() == 0 {
        lemma_position(s, '\n', 0, s.len() as int);
        assert(s.subrange(0, s.len() as int) == line);
    } else {
        lemma_position(s, '\n', 0, line.len() as int + 1);
        assert(s.subrange(0, line.len() as int) == line);
    }
}

/// What lines say does not depend on what stands before them.
proof fn lemma_length_after(before: Seq<char>, s: Seq<char>, i: int)
    requires
        0 <= i <= s.len(),
    ensures
        length_from(before + s, before.len() + i) == length_from(s, i),
    decreases s.len() - i,
{
    let all = before + s;
    let n = before.len() as int;
    if i < s.len() {
        let end = position_of(s, '\n', i);
        lemma_position_after(before, s, '\n', i);
        assert(all.subrange(n + i, n + end) == s.subrange(i, end));
        if end < s.len() && end > i && s[end - 1] == '\r' {
            assert(all.subrange(n + i, n + end - 1) == s.subrange(i, end - 1));
        }
        assert(line_at(all, n + i) == line_at(s, i));
        assert(next_line(all, n + i) == n + next_line(s, i));
        if i < next_line(s, i) <= s.len() {
            lemma_length_after(before, s, next_line(s, i));
        }
    }
}

proof fn lemma_position_after(before: Seq<char>, s: Seq<char>, c: char, i: int)
    requires
        0 <= i <= s.len(),
    ensures
        position_of(before + s, c, before.len() + i) == before.len() + position_of(s, c, i),
        i <= position_of(s, c, i) <= s.len(),
    decreases s.len() - i,
{
    if i < s.len() && s[i] != c {
        lemma_position_after(before, s, c, i + 1);
    }
}

/// The length that header lines tell is that of the first that tells one.
proof fn lemma_first_length(line: Seq<char>, headers: Seq<Seq<char>>)
    requires
        one_line(line),
        forall|i: int| 0 <= i < headers.len() ==> one_line(#[trigger] headers[i]),
    ensures
        length_from(head_text(line, headers), next_line(head_text(line, headers), 0))
            == first_length(headers),
    decreases headers.len(),
{
    lemma_first_line(line, headers);
    if headers.len() > 0 {
        let rest = headers.drop_first();
        let text = head_text(headers[0], rest);
        let before = line + seq!['\r', '\n'];
        assert(one_line(headers[0]));
        assert forall|i: int| 0 <= i < rest.len() implies one_line(#[trigger] rest[i]) by {
            assert(rest[i] == headers[i + 1]);
        }
        assert(head_text(line, headers) == before + text);
        lemma_length_after(before, text, 0);
        lemma_first_line(headers[0], rest);
        lemma_first_length(headers[0], rest);
        if text.len() == 0 {
            assert(length_in(headers[0]) is None) by {
                assert(headers[0].len() == 0);
            }
        }
    }
}

/// A request line with a method, a path and a version, followed by header lines, says just that:
/// the method, the path, and the length that the first header with one tells.
pub proof fn law_head(method: Seq<char>, path: Seq<char>, headers: Seq<Seq<char>>)
    requires
        one_word(method),
        one_word(path),
        forall|i: int| 0 <= i < headers.len() ==> one_line(#[trigger] headers[i]),
    ensures
        head_of(
            head_text(method + seq![' '] + path + seq![' '] + "HTTP/1.1"@, headers),
        ) == Ok::<HeadModel, HeadFault>(
            (HeadModel { method, path, length: first_length(headers) }),
        ),
{
    reveal_strlit("HTTP/1.1");
    let line = method + seq![' '] + path + seq![' '] + "HTTP/1.1"@;
    let m = method.len() as int;
    let p = path.len() as int;
    assert forall|i: int| 0 <= i < line.len() implies #[trigger] line[i] != '\r' && line[i]
        != '\n' by {
        if i < m {
            assert(line[i] == method[i]);
        } else if m < i < m + 1 + p {
            assert(line[i] == path[i - m - 1]);
        }
    }
    assert forall|k: int| m + 1 <= k < m + 1 + p implies !white_space(#[trigger] line[k]) by {
        assert(line[k] == path[k - m - 1]);
    }
    assert forall|k: int| 0 <= k < m implies !white_space(#[trigger] line[k]) by {
        assert(line[k] == method[k]);
    }
    lemma_run(line, 0, 0, true);
    lemma_run(line, 0, m, false);
    lemma_run(line, m, m + 1, true);
    lemma_run(line, m + 1, m + 1 + p, false);
    assert(line.subrange(0, m) == method);
    assert(line.subrange(m + 1, m + 1 + p) == path);
    lemma_first_line(line, headers);
    lemma_first_length(line, headers);
    let s = head_text(line, headers);
    assert(s.len() > 0);
}

proof fn lemma_decimal(n: nat)
    ensures
        decimal(n).len() > 0,
        all_digits(decimal(n)),
        digits_value(decimal(n)) == n,
    decreases n,
{
    let d = ('0' as nat + n % 10) as char;
    assert(d as nat == '0' as nat + n % 10);
    if n < 10 {
        assert(decimal(n).drop_last() == Seq::<char>::empty());
        assert(digits_value(Seq::<char>::empty()) == 0);
    } else {
        lemma_decimal(n / 10);
        assert(decimal(n).drop_last() == decimal(n / 10));
        assert(decimal(n).last() == d);
    }
}

/// The header that tells the length of the body may be written in letters of either case.
pub proof fn law_content_length(name: Seq<char>, n: nat)
    requires
        lowered(name) == lowered("content-length"@),
        n <= usize::MAX,
    ensures
        length_in(name + seq![':', ' '] + decimal(n)) == Some(n),
{
    reveal_strlit("content-length");
    let line = name + seq![':', ' '] + decimal(n);
    let k = name.len() as int;
    assert(k == 14) by {
        assert(lowered(name).len() == k);
        assert(lowered("content-length"@).len() == 14);
    }
    assert forall|i: int| 0 <= i < k implies line[i] != ':' by {
        assert(lowered(name)[i] == lowered("content-length"@)[i]);
        assert(lower(':') == ':');
        assert(line[i] == name[i]);
        assert(i == 0 || i == 1 || i == 2 || i == 3 || i == 4 || i == 5 || i == 6 || i == 7 || i
            == 8 || i == 9 || i == 10 || i == 11 || i == 12 || i == 13);
        let c = "content-length"@[i];
        assert(c != ':' && !('A' <= c <= 'Z'));
        assert(lowered(name)[i] == lower(name[i]));
        assert(lowered("content-length"@)[i] == lower(c));
    }
    lemma_position(line, ':', 0, k);
    assert(line.subrange(0, k) == name);
    let value = line.subrange(k + 1, line.len() as int);
    let digits = decimal(n);
    lemma_decimal(n);
    assert(value == seq![' '] + digits);
    assert(digit(digits[0]));
    assert(digit(digits.last()));
    assert(value[1] == digits[0]);
    assert(value.last() == digits.last());
    lemma_run(value, 0, 1, true);
    assert(trimmed(value) == digits) by {
        assert(value.subrange(1, value.len() as int) == digits);
    }
    assert(unsigned_part(digits) == digits);
}

} // verus!
