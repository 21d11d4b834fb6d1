//! The minimal HTTP/1.1 framing of the local API bridge: finding the end of
//! the request head, parsing the request line and `Content-Length`, collecting
//! the body, and writing the response head.
//!
//! Reading a request alternates socket reads and decisions; `RequestReader`
//! takes each chunk the socket returned (an empty chunk at end of stream) and
//! says whether to read more, or what the request was.
use vstd::prelude::*;
use vstd::string::*;
use vstd::utf8::*;
use crate::chars::{find_from, find_from_exec, is_ws_exec, lemma_find_from_bounds, parse_usize, parse_usize_spec, skip_ws_from, token_end_from, trimmed, trimmed_range};
use crate::text::{chars_of, chars_to_string, decimal, push_str, u64_to_decimal};

verus! {

/// The most bytes a request head may take before its terminator is found.
pub const MAX_HEAD_BYTES: usize = 1048576;

/// Whether `s[p..p + 4]` is `\r\n\r\n`.
pub open spec fn blank_line_at(s: Seq<u8>, p: int) -> bool {
    0 <= p && p + 4 <= s.len() && s[p] == 13 && s[p + 1] == 10 && s[p + 2] == 13 && s[p + 3]
        == 10
}

/// The first position at or after `p` where `\r\n\r\n` starts.
pub open spec fn header_end_from(s: Seq<u8>, p: int) -> Option<nat>
    decreases s.len() - p,
{
    if p < 0 || p + 4 > s.len() {
        None
    } else if blank_line_at(s, p) {
        Some(p as nat)
    } else {
        header_end_from(s, p + 1)
    }
}

/// The position where the request head ends (where `\r\n\r\n` first starts).
pub open spec fn header_end_spec(s: Seq<u8>) -> Option<nat> {
    header_end_from(s, 0)
}

proof fn lemma_header_end_from(s: Seq<u8>, p: int)
    requires
        0 <= p,
    ensures
        match header_end_from(s, p) {
            Some(q) => p <= q && blank_line_at(s, q as int) && forall|k: int|
                p <= k < q ==> !blank_line_at(s, k),
            None => forall|k: int| p <= k ==> !blank_line_at(s, k),
        },
    decreases s.len() - p,
{
    if p + 4 <= s.len() && !blank_line_at(s, p) {
        lemma_header_end_from(s, p + 1);
    }
}

/// The first position of `\r\n\r\n` in the buffer, if any.
pub fn find_header_end(buffer: &[u8]) -> (r: Option<usize>)
    ensures
        match r {
            Some(p) => header_end_spec(buffer@) == Some(p as nat),
            None => header_end_spec(buffer@) is None,
        },
{
    if buffer.len() < 4 {
        return None;
    }
    let mut p: usize = 0;
    while p < buffer.len() - 3
        invariant
            buffer.len() >= 4,
            p <= buffer.len() - 3,
            header_end_spec(buffer@) == header_end_from(buffer@, p as int),
        decreases buffer.len() - p,
    {
        if buffer[p] == 13 && buffer[p + 1] == 10 && buffer[p + 2] == 13 && buffer[p + 3] == 10 {
            return Some(p);
        }
        p = p + 1;
    }
    None
}

/// Why a request head could not be parsed.
#[derive(Debug, Clone, Copy, PartialEq, Eq)]
pub enum HeadError {
    NotUtf8,
    MissingRequestLine,
    MissingMethod,
    MissingPath,
    InvalidContentLength,
}

impl HeadError {
    /// The message the bridge reports for this error.
    pub fn message(&self) -> (s: &'static str)
        ensures
            s@ == head_error_text(*self),
    {
        match self {
            HeadError::NotUtf8 => "request headers were not valid UTF-8",
            HeadError::MissingRequestLine => "missing HTTP request line",
            HeadError::MissingMethod => "missing HTTP method",
            HeadError::MissingPath => "missing HTTP path",
            HeadError::InvalidContentLength => "invalid content-length",
        }
    }
}

pub open spec fn head_error_text(e: HeadError) -> Seq<char> {
    match e {
        HeadError::NotUtf8 => "request headers were not valid UTF-8"@,
        HeadError::MissingRequestLine => "missing HTTP request line"@,
        HeadError::MissingMethod => "missing HTTP method"@,
        HeadError::MissingPath => "missing HTTP path"@,
        HeadError::InvalidContentLength => "invalid content-length"@,
    }
}

/// Where the line starting at `i` ends: the next `\n`, or the end.
pub open spec fn line_end(s: Seq<char>, i: int) -> int {
    find_from(s, '\n', i)
}

/// Where the content of the line starting at `i` ends: a `\r` just before
/// the line's `\n` is not part of it (`str::lines`).
pub open spec fn line_content_end(s: Seq<char>, i: int) -> int {
    let e = line_end(s, i);
    if e < s.len() && e > i && s[e - 1] == '\r' {
        e - 1
    } else {
        e
    }
}

/// ASCII lower case of a character.
pub open spec fn ascii_lower(c: char) -> char {
    if 'A' <= c <= 'Z' {
        (((c as u32) + 32) as u8) as char
    } else {
        c
    }
}

/// Whether a header name is `content-length`, ignoring ASCII case.
pub open spec fn is_content_length_name(name: Seq<char>) -> bool {
    name.len() == "content-length"@.len() && forall|k: int|
        0 <= k < name.len() ==> ascii_lower(#[trigger] name[k]) == "content-length"@[k]
}

/// For the line starting at `i`: `None` when it is not a `content-length`
/// header, else what its trimmed value parses to.
pub open spec fn content_length_header(s: Seq<char>, i: int) -> Option<Option<nat>> {
    let line = s.subrange(i, line_content_end(s, i));
    let colon = find_from(line, ':', 0);
    if colon >= line.len() {
        None
    } else if is_content_length_name(line.subrange(0, colon)) {
        Some(parse_usize_spec(trimmed(line.subrange(colon + 1, line.len() as int))))
    } else {
        None
    }
}

/// The content length declared by the header lines from `i` on, the last
/// declaration winning, starting from `cl`; the first invalid declaration is
/// an error.
pub open spec fn scan_headers(s: Seq<char>, i: int, cl: nat) -> Result<nat, HeadError>
    decreases s.len() - i,
{
    if i < 0 || i >= s.len() {
        Ok(cl)
    } else {
        let next_cl = match content_length_header(s, i) {
            None => Ok(cl),
            Some(Some(v)) => Ok(v),
            Some(None) => Err(HeadError::InvalidContentLength),
        };
        match next_cl {
            Err(e) => Err(e),
            Ok(c2) => {
                let e = line_end(s, i);
                if e >= s.len() {
                    Ok(c2)
                } else {
                    proof {
                        lemma_find_from_bounds(s, '\n', i);
                    }
                    scan_headers(s, e + 1, c2)
                }
            },
        }
    }
}

/// The method, path and content length of a request head's text.
pub open spec fn parse_head_text(s: Seq<char>) -> Result<(Seq<char>, Seq<char>, nat), HeadError> {
    if s.len() == 0 {
        Err(HeadError::MissingRequestLine)
    } else {
        let line = s.subrange(0, line_content_end(s, 0));
        let a = skip_ws_from(line, 0);
        if a >= line.len() {
            Err(HeadError::MissingMethod)
        } else {
            let b = token_end_from(line, a);
            let c = skip_ws_from(line, b);
            if c >= line.len() {
                Err(HeadError::MissingPath)
            } else {
                let d = token_end_from(line, c);
                let e = line_end(s, 0);
                let cl = if e >= s.len() {
                    Ok(0nat)
                } else {
                    scan_headers(s, e + 1, 0)
                };
                match cl {
                    Ok(cl) => Ok((line.subrange(a, b), line.subrange(c, d), cl)),
                    Err(x) => Err(x),
                }
            }
        }
    }
}

/// The method, path and content length of a request head's bytes.
pub open spec fn parse_head_spec(h: Seq<u8>) -> Result<(Seq<char>, Seq<char>, nat), HeadError> {
    if !valid_utf8(h) {
        Err(HeadError::NotUtf8)
    } else {
        parse_head_text(decode_utf8(h))
    }
}

/// The parsed request line and body length of a request head.
#[derive(Debug)]
pub struct RequestHead {
    pub method: String,
    pub path: String,
    pub content_length: usize,
}

/// Decodes UTF-8 text (`std::str::from_utf8`): `None` exactly when the bytes
/// are not valid UTF-8, else the characters they encode.
#[verifier::external_body]
pub(crate) fn utf8_text(bytes: &[u8]) -> (r: Option<String>)
    ensures
        r is Some <==> valid_utf8(bytes@),
        r matches Some(s) ==> s@ == decode_utf8(bytes@),
{
    std::str::from_utf8(bytes).ok().map(|s| s.to_string())
}

fn line_content_end_exec(s: &Vec<char>, i: usize) -> (r: (usize, usize))
    requires
        i <= s.len(),
    ensures
        r.0 == line_end(s@, i as int),
        r.1 == line_content_end(s@, i as int),
        i <= r.1 <= r.0 <= s.len(),
{
    let e = find_from_exec(s, '\n', i);
    if e < s.len() && e > i && s[e - 1] == '\r' {
        (e, e - 1)
    } else {
        (e, e)
    }
}

fn is_content_length_name_exec(s: &Vec<char>, i: usize, j: usize) -> (b: bool)
    requires
        i <= j <= s.len(),
    ensures
        b == is_content_length_name(s@.subrange(i as int, j as int)),
{
    let name = "content-length";
    proof {
        reveal_strlit("content-length");
    }
    let n = chars_of(name);
    if j - i != n.len() {
        return false;
    }
    let ghost t = s@.subrange(i as int, j as int);
    let mut k: usize = 0;
    while k < n.len()
        invariant
            j - i == n.len(),
            n@ == "content-length"@,
            t == s@.subrange(i as int, j as int),
            i <= j <= s.len(),
            k <= n.len(),
            forall|m: int| 0 <= m < k ==> ascii_lower(#[trigger] t[m]) == "content-length"@[m],
        decreases n.len() - k,
    {
        let c = s[i + k];
        let lower = if 'A' <= c && c <= 'Z' {
            ((c as u32) + 32) as u8 as char
        } else {
            c
        };
        proof {
            assert(t[k as int] == c);
        }
        if lower != n[k] {
            return false;
        }
        k = k + 1;
    }
    true
}

fn content_length_header_exec(s: &Vec<char>, i: usize) -> (r: Option<Option<usize>>)
    requires
        i <= s.len(),
    ensures
        match r {
            None => content_length_header(s@, i as int) is None,
            Some(None) => content_length_header(s@, i as int) == Some(None::<nat>),
            Some(Some(v)) => content_length_header(s@, i as int) == Some(Some(v as nat)),
        },
{
    let (_, ce) = line_content_end_exec(s, i);
    let ghost line = s@.subrange(i as int, ce as int);
    let mut colon = i;
    while colon < ce && s[colon] != ':'
        invariant
            i <= colon <= ce <= s.len(),
            line == s@.subrange(i as int, ce as int),
            find_from(line, ':', 0) == find_from(line, ':', colon - i),
        decreases ce - colon,
    {
        colon = colon + 1;
    }
    if colon >= ce {
        return None;
    }
    proof {
        assert(line.subrange(0, colon - i) =~= s@.subrange(i as int, colon as int));
        assert(line.subrange(colon - i + 1, line.len() as int) =~= s@.subrange(
            colon + 1,
            ce as int,
        ));
    }
    if !is_content_length_name_exec(s, i, colon) {
        return None;
    }
    let value = trimmed_range(s, colon + 1, ce);
    match parse_usize(&value) {
        Some(v) => Some(Some(v)),
        None => Some(None),
    }
}

fn scan_headers_exec(s: &Vec<char>, start: usize) -> (r: Result<usize, HeadError>)
    requires
        start <= s.len(),
    ensures
        match r {
            Ok(v) => scan_headers(s@, start as int, 0) == Ok::<nat, HeadError>(v as nat),
            Err(e) => scan_headers(s@, start as int, 0) == Err::<nat, HeadError>(e),
        },
{
    let mut cl: usize = 0;
    let mut i = start;
    while i < s.len()
        invariant
            start <= i <= s.len(),
            scan_headers(s@, start as int, 0) == scan_headers(s@, i as int, cl as nat),
        decreases s.len() - i,
    {
        match content_length_header_exec(s, i) {
            None => {},
            Some(Some(v)) => {
                cl = v;
            },
            Some(None) => {
                return Err(HeadError::InvalidContentLength);
            },
        }
        let (e, _) = line_content_end_exec(s, i);
        if e >= s.len() {
            return Ok(cl);
        }
        i = e + 1;
    }
    Ok(cl)
}

/// Parses the text of a request head (the bytes before `\r\n\r\n`).
pub fn parse_request_head(head: &[u8]) -> (r: Result<RequestHead, HeadError>)
    ensures
        match r {
            Ok(h) => parse_head_spec(head@) == Ok::<_, HeadError>(
                (h.method@, h.path@, h.content_length as nat),
            ),
            Err(e) => parse_head_spec(head@) == Err::<(Seq<char>, Seq<char>, nat), HeadError>(e),
        },
{
    let text = match utf8_text(head) {
        Some(t) => t,
        None => return Err(HeadError::NotUtf8),
    };
    let s = chars_of(text.as_str());
    if s.len() == 0 {
        return Err(HeadError::MissingRequestLine);
    }
    let (e, ce) = line_content_end_exec(&s, 0);
    let ghost line = s@.subrange(0, ce as int);
    let a = skip_ws_line(&s, 0, ce);
    if a >= ce {
        return Err(HeadError::MissingMethod);
    }
    let b = token_end_line(&s, a, ce);
    let c = skip_ws_line(&s, b, ce);
    if c >= ce {
        return Err(HeadError::MissingPath);
    }
    let d = token_end_line(&s, c, ce);
    let cl = if e >= s.len() {
        0
    } else {
        match scan_headers_exec(&s, e + 1) {
            Ok(v) => v,
            Err(x) => return Err(x),
        }
    };
    let method = chars_to_string(&s, a, b);
    let path = chars_to_string(&s, c, d);
    proof {
        assert(line.subrange(a as int, b as int) =~= s@.subrange(a as int, b as int));
        assert(line.subrange(c as int, d as int) =~= s@.subrange(c as int, d as int));
    }
    Ok(RequestHead { method, path, content_length: cl })
}

/// `skip_ws_from` within the prefix `s[..end]`.
fn skip_ws_line(s: &Vec<char>, i: usize, end: usize) -> (j: usize)
    requires
        i <= end <= s.len(),
    ensures
        j == skip_ws_from(s@.subrange(0, end as int), i as int),
        i <= j <= end,
{
    let ghost line = s@.subrange(0, end as int);
    let mut j = i;
    while j < end && is_ws_exec(s[j])
        invariant
            i <= j <= end <= s.len(),
            line == s@.subrange(0, end as int),
            skip_ws_from(line, i as int) == skip_ws_from(line, j as int),
        decreases end - j,
    {
        j = j + 1;
    }
    j
}

/// `token_end_from` within the prefix `s[..end]`.
fn token_end_line(s: &Vec<char>, i: usize, end: usize) -> (j: usize)
    requires
        i <= end <= s.len(),
    ensures
        j == token_end_from(s@.subrange(0, end as int), i as int),
        i <= j <= end,
{
    let ghost line = s@.subrange(0, end as int);
    let mut j = i;
    while j < end && !is_ws_exec(s[j])
        invariant
            i <= j <= end <= s.len(),
            line == s@.subrange(0, end as int),
            token_end_from(line, i as int) == token_end_from(line, j as int),
        decreases end - j,
    {
        j = j + 1;
    }
    j
}

/// Appends bytes to a buffer.
pub fn append_bytes(v: &mut Vec<u8>, chunk: &[u8])
    ensures
        final(v)@ == old(v)@ + chunk@,
{
    let mut k: usize = 0;
    while k < chunk.len()
        invariant
            k <= chunk.len(),
            v@ == old(v)@ + chunk@.take(k as int),
        decreases chunk.len() - k,
    {
        v.push(chunk[k]);
        proof {
            assert(chunk@.take(k + 1) =~= chunk@.take(k as int).push(chunk@[k as int]));
        }
        k = k + 1;
    }
    proof {
        assert(chunk@.take(chunk.len() as int) =~= chunk@);
    }
}

/// A request as the bridge handles it.
#[derive(Debug)]
pub struct HttpRequest {
    pub method: String,
    pub path: String,
    pub body: Vec<u8>,
}

/// Why a request could not be read.
#[derive(Debug, Clone, Copy, PartialEq, Eq)]
pub enum ReadError {
    /// More than `MAX_HEAD_BYTES` arrived without the end of the head.
    HeadersTooLarge,
    /// The stream ended before the end of the head.
    Malformed,
    /// The head could not be parsed.
    BadHead(HeadError),
    /// The stream ended before `Content-Length` body bytes arrived.
    BodyTruncated,
}

pub open spec fn read_error_text(e: ReadError) -> Seq<char> {
    match e {
        ReadError::HeadersTooLarge => "request headers too large"@,
        ReadError::Malformed => "malformed HTTP request"@,
        ReadError::BadHead(h) => head_error_text(h),
        ReadError::BodyTruncated => "request body ended before content-length bytes were read"@,
    }
}

impl ReadError {
    /// The message the bridge reports for this error.
    pub fn message(&self) -> (s: &'static str)
        ensures
            s@ == read_error_text(*self),
    {
        match self {
            ReadError::HeadersTooLarge => "request headers too large",
            ReadError::Malformed => "malformed HTTP request",
            ReadError::BadHead(h) => h.message(),
            ReadError::BodyTruncated => "request body ended before content-length bytes were read",
        }
    }
}

/// What the reader says after a chunk.
#[derive(Debug)]
pub enum ReadProgress {
    /// Read another chunk and feed it.
    NeedMore,
    /// The peer closed the connection before sending anything.
    Closed,
    /// The whole request arrived.
    Complete(HttpRequest),
    /// The request cannot be read.
    Failed(ReadError),
}

pub enum ProgressView {
    NeedMore,
    Closed,
    Complete { method: Seq<char>, path: Seq<char>, body: Seq<u8> },
    Failed(ReadError),
}

impl View for ReadProgress {
    type V = ProgressView;

    open spec fn view(&self) -> ProgressView {
        match self {
            ReadProgress::NeedMore => ProgressView::NeedMore,
            ReadProgress::Closed => ProgressView::Closed,
            ReadProgress::Complete(r) => ProgressView::Complete {
                method: r.method@,
                path: r.path@,
                body: r.body@,
            },
            ReadProgress::Failed(e) => ProgressView::Failed(*e),
        }
    }
}

/// Where the reader stands.
pub enum ReaderState {
    /// Collecting the head; the bytes so far.
    Head(Seq<u8>),
    /// Collecting the body of a parsed head.
    Body { method: Seq<char>, path: Seq<char>, content_length: nat, body: Seq<u8> },
    /// The reader has answered for good.
    Finished,
}

/// How the reader answers once it holds `body` for a head.
pub open spec fn body_step(method: Seq<char>, path: Seq<char>, cl: nat, body: Seq<u8>) -> (
    ReaderState,
    ProgressView,
) {
    if body.len() >= cl {
        (
            ReaderState::Finished,
            ProgressView::Complete { method, path, body: body.take(cl as int) },
        )
    } else {
        (ReaderState::Body { method, path, content_length: cl, body }, ProgressView::NeedMore)
    }
}

/// The reader's transition on a chunk; an empty chunk is the end of stream.
pub open spec fn reader_step(st: ReaderState, chunk: Seq<u8>) -> (ReaderState, ProgressView) {
    match st {
        ReaderState::Head(buf) => {
            if chunk.len() == 0 {
                if buf.len() == 0 {
                    (ReaderState::Finished, ProgressView::Closed)
                } else {
                    (ReaderState::Finished, ProgressView::Failed(ReadError::Malformed))
                }
            } else {
                let b2 = buf + chunk;
                match header_end_spec(b2) {
                    Some(e) => match parse_head_spec(b2.take(e as int)) {
                        Err(x) => (ReaderState::Finished, ProgressView::Failed(ReadError::BadHead(x))),
                        Ok((m, p, cl)) => body_step(m, p, cl, b2.skip(e + 4int)),
                    },
                    None => if b2.len() > MAX_HEAD_BYTES {
                        (ReaderState::Finished, ProgressView::Failed(ReadError::HeadersTooLarge))
                    } else {
                        (ReaderState::Head(b2), ProgressView::NeedMore)
                    },
                }
            }
        },
        ReaderState::Body { method, path, content_length, body } => {
            if chunk.len() == 0 {
                (ReaderState::Finished, ProgressView::Failed(ReadError::BodyTruncated))
            } else {
                body_step(method, path, content_length, body + chunk)
            }
        },
        ReaderState::Finished => (ReaderState::Finished, ProgressView::Failed(ReadError::Malformed)),
    }
}

/// Collects one request from a stream, chunk by chunk.
pub struct RequestReader {
    buffer: Vec<u8>,
    head: Option<RequestHead>,
    finished: bool,
}

impl RequestReader {
    /// Where the reader stands.
    pub closed spec fn state(&self) -> ReaderState {
        if self.finished {
            ReaderState::Finished
        } else {
            match self.head {
                None => ReaderState::Head(self.buffer@),
                Some(h) => ReaderState::Body {
                    method: h.method@,
                    path: h.path@,
                    content_length: h.content_length as nat,
                    body: self.buffer@,
                },
            }
        }
    }

    /// A reader that has seen nothing yet.
    pub fn new() -> (r: Self)
        ensures
            r.state() == ReaderState::Head(Seq::<u8>::empty()),
    {
        RequestReader { buffer: Vec::new(), head: None, finished: false }
    }

    /// Takes the next chunk read from the stream (empty at end of stream).
    pub fn feed(&mut self, chunk: &[u8]) -> (p: ReadProgress)
        requires
            !(old(self).state() is Finished),
        ensures
            (final(self).state(), p@) == reader_step(old(self).state(), chunk@),
    {
        if self.head.is_none() {
            if chunk.len() == 0 {
                self.finished = true;
                if self.buffer.len() == 0 {
                    return ReadProgress::Closed;
                } else {
                    return ReadProgress::Failed(ReadError::Malformed);
                }
            }
            append_bytes(&mut self.buffer, chunk);
            match find_header_end(self.buffer.as_slice()) {
                Some(e) => {
                    proof {
                        lemma_header_end_from(self.buffer@, 0);
                    }
                    let ghost b2 = self.buffer@;
                    let mut rest = self.buffer.split_off(e);
                    proof {
                        assert(self.buffer@ =~= b2.take(e as int));
                    }
                    match parse_request_head(self.buffer.as_slice()) {
                        Err(x) => {
                            self.finished = true;
                            ReadProgress::Failed(ReadError::BadHead(x))
                        },
                        Ok(h) => {
                            let body = rest.split_off(4);
                            proof {
                                assert(body@ =~= b2.skip(e + 4int));
                            }
                            self.buffer = body;
                            self.head = Some(h);
                            self.finish_if_complete()
                        },
                    }
                },
                None => {
                    if self.buffer.len() > MAX_HEAD_BYTES {
                        self.finished = true;
                        ReadProgress::Failed(ReadError::HeadersTooLarge)
                    } else {
                        ReadProgress::NeedMore
                    }
                },
            }
        } else {
            if chunk.len() == 0 {
                self.finished = true;
                return ReadProgress::Failed(ReadError::BodyTruncated);
            }
            append_bytes(&mut self.buffer, chunk);
            self.finish_if_complete()
        }
    }

    /// Answers `Complete` once the body holds `content_length` bytes.
    fn finish_if_complete(&mut self) -> (p: ReadProgress)
        requires
            old(self).head is Some,
            !old(self).finished,
        ensures
            (final(self).state(), p@) == body_step(
                old(self).head->0.method@,
                old(self).head->0.path@,
                old(self).head->0.content_length as nat,
                old(self).buffer@,
            ),
            old(self).buffer@.len() >= old(self).head->0.content_length ==> p@
                == (ProgressView::Complete {
                method: old(self).head->0.method@,
                path: old(self).head->0.path@,
                body: old(self).buffer@.take(old(self).head->0.content_length as int),
            }),
            old(self).buffer@.len() < old(self).head->0.content_length ==> p@
                == ProgressView::NeedMore,
    {
        let cl = match &self.head {
            Some(h) => h.content_length,
            None => 0,
        };
        if self.buffer.len() >= cl {
            let mut head = None;
            std::mem::swap(&mut head, &mut self.head);
            let h = match head {
                Some(h) => h,
                None => RequestHead { method: String::new(), path: String::new(), content_length: 0 },
            };
            let mut body = Vec::new();
            std::mem::swap(&mut body, &mut self.buffer);
            body.truncate(cl);
            self.finished = true;
            ReadProgress::Complete(HttpRequest { method: h.method, path: h.path, body })
        } else {
            ReadProgress::NeedMore
        }
    }
}

/// The reason phrase the bridge writes for a status code.
pub open spec fn status_text_spec(status: u16) -> Seq<char> {
    if status == 200 {
        "OK"@
    } else if status == 204 {
        "No Content"@
    } else if status == 404 {
        "Not Found"@
    } else {
        "OK"@
    }
}

pub fn status_text(status: u16) -> (s: &'static str)
    ensures
        s@ == status_text_spec(status),
{
    match status {
        200 => "OK",
        204 => "No Content",
        404 => "Not Found",
        _ => "OK",
    }
}

/// The head of a response: status line, headers, and the blank line.
pub open spec fn response_head_spec(status: u16, content_type: Seq<char>, body_len: nat) -> Seq<
    char,
> {
    "HTTP/1.1 "@ + decimal(status as nat) + " "@ + status_text_spec(status) + "\r\nContent-Type: "@
        + content_type + "\r\nContent-Length: "@ + decimal(body_len)
        + "\r\nAccess-Control-Allow-Origin: *\r\nAccess-Control-Allow-Headers: content-type\r\nAccess-Control-Allow-Methods: GET, POST, OPTIONS\r\nConnection: close\r\n\r\n"@
}

/// Writes the head of a response carrying `body_len` bytes of `content_type`.
pub fn response_head(status: u16, content_type: &str, body_len: usize) -> (s: String)
    ensures
        s@ == response_head_spec(status, content_type@, body_len as nat),
{
    let mut s = String::from_str("HTTP/1.1 ");
    let code = u64_to_decimal(status as u64);
    push_str(&mut s, code.as_str());
    push_str(&mut s, " ");
    push_str(&mut s, status_text(status));
    push_str(&mut s, "\r\nContent-Type: ");
    push_str(&mut s, content_type);
    push_str(&mut s, "\r\nContent-Length: ");
    let len = u64_to_decimal(body_len as u64);
    push_str(&mut s, len.as_str());
    push_str(
        &mut s,
        "\r\nAccess-Control-Allow-Origin: *\r\nAccess-Control-Allow-Headers: content-type\r\nAccess-Control-Allow-Methods: GET, POST, OPTIONS\r\nConnection: close\r\n\r\n",
    );
    s
}

/// The head ends at the first `\r\n\r\n`: when one is found no earlier
/// position starts one, and when none is found the buffer holds none.
pub proof fn law_header_end_is_first(s: Seq<u8>)
    ensures
        match header_end_spec(s) {
            Some(p) => blank_line_at(s, p as int) && forall|k: int| 0 <= k < p ==> !blank_line_at(s, k),
            None => forall|k: int| 0 <= k ==> !blank_line_at(s, k),
        },
{
    lemma_header_end_from(s, 0);
}

/// A request whose head declares `Content-Length: cl` (0 when absent)
/// completes as soon as at least `cl` bytes follow the head, with exactly the
/// first `cl` of them as its body; with fewer the reader asks for more.
pub proof fn law_body_completes_at_content_length(
    b: Seq<u8>,
    e: nat,
    m: Seq<char>,
    p: Seq<char>,
    cl: nat,
)
    requires
        b.len() > 0,
        header_end_spec(b) == Some(e),
        parse_head_spec(b.take(e as int)) == Ok::<_, HeadError>((m, p, cl)),
    ensures
        b.len() >= e + 4 + cl ==> reader_step(ReaderState::Head(Seq::empty()), b).1 == (
        ProgressView::Complete { method: m, path: p, body: b.subrange(e + 4int, e + 4int + cl) }),
        b.len() < e + 4 + cl ==> reader_step(ReaderState::Head(Seq::empty()), b).1
            == ProgressView::NeedMore,
{
    lemma_header_end_from(b, 0);
    assert(Seq::<u8>::empty() + b =~= b);
    if b.len() >= e + 4 + cl {
        assert(b.skip(e + 4int).take(cl as int) =~= b.subrange(e + 4int, e + 4int + cl));
    }
}

} // verus!
