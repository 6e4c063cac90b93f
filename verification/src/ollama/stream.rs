//! Framing Ollama's newline-delimited JSON stream.
use vstd::prelude::*;

use bytes::BytesMut;

use crate::entities::stream_chunk::{FinishReason, StreamChunk};
use crate::ports::llm_backend::BackendError;
use crate::ollama::types::OllamaChatChunk;

verus! {

/// ASCII whitespace (`u8::is_ascii_whitespace`): space, tab, line feed,
/// form feed, carriage return.
pub open spec fn is_ascii_ws(b: u8) -> bool {
    b == 0x20 || b == 0x09 || b == 0x0a || b == 0x0c || b == 0x0d
}

pub open spec fn trim_ascii_start(s: Seq<u8>) -> Seq<u8>
    decreases s.len(),
{
    if s.len() > 0 && is_ascii_ws(s[0]) {
        trim_ascii_start(s.drop_first())
    } else {
        s
    }
}

pub open spec fn trim_ascii_end(s: Seq<u8>) -> Seq<u8>
    decreases s.len(),
{
    if s.len() > 0 && is_ascii_ws(s.last()) {
        trim_ascii_end(s.drop_last())
    } else {
        s
    }
}

/// Leading and trailing ASCII whitespace removed (`<[u8]>::trim_ascii`).
pub open spec fn trim_ascii(s: Seq<u8>) -> Seq<u8> {
    trim_ascii_end(trim_ascii_start(s))
}

fn is_ascii_whitespace(b: u8) -> (r: bool)
    ensures
        r == is_ascii_ws(b),
{
    b == 0x20 || b == 0x09 || b == 0x0a || b == 0x0c || b == 0x0d
}

/// The bytes of `s` from `from` to `to`.
fn copy_range(s: &[u8], from: usize, to: usize) -> (r: Vec<u8>)
    requires
        from <= to <= s.len(),
    ensures
        r@ == s@.subrange(from as int, to as int),
{
    let mut out: Vec<u8> = Vec::new();
    let mut i = from;
    while i < to
        invariant
            from <= i <= to <= s.len(),
            out@ == s@.subrange(from as int, i as int),
        decreases to - i,
    {
        out.push(s[i]);
        i = i + 1;
    }
    out
}

/// `<[u8]>::trim_ascii`.
pub fn trim_ascii_bytes(s: &[u8]) -> (r: Vec<u8>)
    ensures
        r@ == trim_ascii(s@),
{
    let mut a: usize = 0;
    assert(s@.subrange(0, s.len() as int) =~= s@);
    while a < s.len() && is_ascii_whitespace(s[a])
        invariant
            a <= s.len(),
            trim_ascii_start(s@) == trim_ascii_start(s@.subrange(a as int, s.len() as int)),
        decreases s.len() - a,
    {
        proof {
            let t = s@.subrange(a as int, s.len() as int);
            assert(t.drop_first() =~= s@.subrange(a + 1, s.len() as int));
        }
        a = a + 1;
    }
    let ghost st = s@.subrange(a as int, s.len() as int);
    assert(trim_ascii_start(st) == st);
    let mut b: usize = s.len();
    while b > a && is_ascii_whitespace(s[b - 1])
        invariant
            a <= b <= s.len(),
            trim_ascii(s@) == trim_ascii_end(s@.subrange(a as int, b as int)),
        decreases b,
    {
        proof {
            let t = s@.subrange(a as int, b as int);
            assert(t.drop_last() =~= s@.subrange(a as int, (b - 1) as int));
        }
        b = b - 1;
    }
    let ghost t = s@.subrange(a as int, b as int);
    assert(trim_ascii_end(t) == t);
    copy_range(s, a, b)
}

/// The first position of a newline byte (`memchr::memchr(b'\n', haystack)`).
#[verifier::external_body]
fn find_newline(haystack: &[u8]) -> (r: Option<usize>)
    ensures
        match r {
            Some(i) => i < haystack@.len() && haystack@[i as int] == 0x0a && forall|j: int|
                0 <= j < i ==> haystack@[j] != 0x0a,
            None => forall|j: int| 0 <= j < haystack@.len() ==> haystack@[j] != 0x0a,
        },
{
    memchr::memchr(b'\n', haystack)
}

/// The first newline at or after position 0 of `buf`, if any.
pub open spec fn first_newline(buf: Seq<u8>) -> Option<int> {
    if exists|i: int| 0 <= i < buf.len() && buf[i] == 0x0a && forall|j: int| 0 <= j < i ==> buf[j] != 0x0a {
        Some(choose|i: int| 0 <= i < buf.len() && buf[i] == 0x0a && forall|j: int| 0 <= j < i ==> buf[j] != 0x0a)
    } else {
        None
    }
}

/// The next frame of a buffer: the first complete non-blank line, trimmed,
/// and what follows it; blank lines before it are dropped. With no complete
/// non-blank line, nothing and the buffer without its leading blank lines.
pub open spec fn next_frame(buf: Seq<u8>) -> (Option<Seq<u8>>, Seq<u8>)
    decreases buf.len(),
{
    match first_newline(buf) {
        None => (None, buf),
        Some(p) => {
            if 0 <= p < buf.len() {
                let line = trim_ascii(buf.take(p + 1));
                let rest = buf.skip(p + 1);
                if line.len() == 0 {
                    next_frame(rest)
                } else {
                    (Some(line), rest)
                }
            } else {
                (None, buf)
            }
        },
    }
}

proof fn lemma_first_newline_is(buf: Seq<u8>, i: int)
    requires
        0 <= i < buf.len(),
        buf[i] == 0x0a,
        forall|j: int| 0 <= j < i ==> buf[j] != 0x0a,
    ensures
        first_newline(buf) == Some(i),
{
    let k = choose|k: int| 0 <= k < buf.len() && buf[k] == 0x0a && forall|j: int| 0 <= j < k ==> buf[j] != 0x0a;
    assert(0 <= k < buf.len() && buf[k] == 0x0a && forall|j: int| 0 <= j < k ==> buf[j] != 0x0a);
    if k < i {
        assert(buf[k] != 0x0a);
    }
    if i < k {
        assert(buf[i] != 0x0a);
    }
}

#[verifier::external_type_specification]
#[verifier::external_body]
pub struct ExBytesMut(bytes::BytesMut);

/// The bytes a `BytesMut` holds, in order.
pub uninterp spec fn held_bytes(b: BytesMut) -> Seq<u8>;

/// `BytesMut::with_capacity`: an empty buffer with room for `capacity`
/// bytes.
#[verifier::external_body]
fn empty_bytes(capacity: usize) -> (r: BytesMut)
    ensures
        held_bytes(r) == Seq::<u8>::empty(),
{
    BytesMut::with_capacity(capacity)
}

/// `BytesMut::extend_from_slice`: `bytes` are appended.
#[verifier::external_body]
fn append_bytes(buf: &mut BytesMut, bytes: &[u8])
    ensures
        held_bytes(*final(buf)) == held_bytes(*old(buf)) + bytes@,
{
    buf.extend_from_slice(bytes)
}

/// The buffer's bytes as a slice (`&buf[..]`).
#[verifier::external_body]
fn bytes_slice(buf: &BytesMut) -> (r: &[u8])
    ensures
        r@ == held_bytes(*buf),
{
    &buf[..]
}

/// `BytesMut::split_to`: the first `at` bytes are handed back, the rest
/// stay.
#[verifier::external_body]
fn split_front(buf: &mut BytesMut, at: usize) -> (r: BytesMut)
    requires
        at <= held_bytes(*old(buf)).len(),
    ensures
        held_bytes(r) == held_bytes(*old(buf)).take(at as int),
        held_bytes(*final(buf)) == held_bytes(*old(buf)).skip(at as int),
{
    buf.split_to(at)
}

/// `BytesMut::split`: every byte is handed back and the buffer is left
/// empty.
#[verifier::external_body]
fn split_all(buf: &mut BytesMut) -> (r: BytesMut)
    ensures
        held_bytes(r) == held_bytes(*old(buf)),
        held_bytes(*final(buf)) == Seq::<u8>::empty(),
{
    buf.split()
}

/// How many bytes the buffer reserves at first: 8 KiB.
pub const INITIAL_CAPACITY: usize = 8192;

/// Bytes of an NDJSON body received so far, cut into lines as they complete.
pub struct NdjsonBuffer {
    buf: BytesMut,
}

impl NdjsonBuffer {
    /// The bytes not yet handed out.
    pub closed spec fn pending(&self) -> Seq<u8> {
        held_bytes(self.buf)
    }

    pub fn new() -> (r: Self)
        ensures
            r.pending() == Seq::<u8>::empty(),
    {
        NdjsonBuffer { buf: empty_bytes(INITIAL_CAPACITY) }
    }

    /// Appends bytes received from the body.
    pub fn extend(&mut self, bytes: &[u8])
        ensures
            final(self).pending() == old(self).pending() + bytes@,
    {
        append_bytes(&mut self.buf, bytes);
    }

    /// The next complete non-blank line, trimmed; `None` when no complete
    /// non-blank line is buffered yet (blank lines are dropped either way).
    pub fn next_line(&mut self) -> (r: Option<Vec<u8>>)
        ensures
            ({
                let (line, rest) = next_frame(old(self).pending());
                &&& final(self).pending() == rest
                &&& match r {
                    Some(l) => line == Some(l@),
                    None => line is None,
                }
            }),
    {
        loop
            invariant
                next_frame(old(self).pending()) == next_frame(held_bytes(self.buf)),
            decreases held_bytes(self.buf).len(),
        {
            let ghost before = held_bytes(self.buf);
            let pending = bytes_slice(&self.buf);
            let n = pending.len();
            match find_newline(pending) {
                None => {
                    proof {
                        assert(first_newline(before) is None) by {
                            if exists|i: int| 0 <= i < before.len() && before[i] == 0x0a && forall|j: int| 0 <= j < i ==> before[j] != 0x0a {
                                let k = choose|i: int| 0 <= i < before.len() && before[i] == 0x0a && forall|j: int| 0 <= j < i ==> before[j] != 0x0a;
                                assert(before[k] == 0x0a);
                            }
                        }
                    }
                    return None;
                },
                Some(p) => {
                    proof {
                        lemma_first_newline_is(before, p as int);
                    }
                    assert(p < n);
                    let line_bytes = split_front(&mut self.buf, p + 1);
                    let line = trim_ascii_bytes(bytes_slice(&line_bytes));
                    if line.len() > 0 {
                        return Some(line);
                    }
                },
            }
        }
    }

    /// At the end of the body: the rest, trimmed, unless it is blank; the
    /// buffer is left empty.
    pub fn take_rest(&mut self) -> (r: Option<Vec<u8>>)
        ensures
            final(self).pending() == Seq::<u8>::empty(),
            match r {
                Some(l) => l@ == trim_ascii(old(self).pending()) && l@.len() > 0,
                None => trim_ascii(old(self).pending()).len() == 0,
            },
    {
        let remaining = split_all(&mut self.buf);
        let rest = trim_ascii_bytes(bytes_slice(&remaining));
        if rest.len() > 0 {
            Some(rest)
        } else {
            None
        }
    }
}

/// What a reader of an NDJSON body does next.
pub enum ReadStep {
    /// Hand out this line.
    Line(Vec<u8>),
    /// Read more of the body.
    NeedBytes,
    /// The stream is over.
    Stop,
}

/// Reads a streamed NDJSON body: its buffered bytes, and whether the stream
/// is over (after the final chunk, a failure of the body, or its end).
pub struct NdjsonReader {
    buf: NdjsonBuffer,
    done: bool,
}

impl NdjsonReader {
    /// The bytes not yet handed out.
    pub closed spec fn pending(&self) -> Seq<u8> {
        self.buf.pending()
    }

    /// The stream is over.
    pub closed spec fn is_done(&self) -> bool {
        self.done
    }

    pub fn new() -> (r: Self)
        ensures
            r.pending() == Seq::<u8>::empty(),
            !r.is_done(),
    {
        NdjsonReader { buf: NdjsonBuffer::new(), done: false }
    }

    /// Once the stream is over, stop; otherwise hand out the next complete
    /// non-blank line, or ask for more bytes when none is buffered.
    pub fn next_step(&mut self) -> (r: ReadStep)
        ensures
            old(self).is_done() ==> r is Stop && final(self).is_done() && final(self).pending()
                == old(self).pending(),
            !old(self).is_done() ==> ({
                let (line, rest) = next_frame(old(self).pending());
                &&& !final(self).is_done()
                &&& final(self).pending() == rest
                &&& match line {
                    Some(l) => r matches ReadStep::Line(v) && v@ == l,
                    None => r is NeedBytes,
                }
            }),
    {
        if self.done {
            return ReadStep::Stop;
        }
        match self.buf.next_line() {
            Some(line) => ReadStep::Line(line),
            None => ReadStep::NeedBytes,
        }
    }

    /// Bytes of the body arrived.
    pub fn feed(&mut self, bytes: &[u8])
        ensures
            final(self).pending() == old(self).pending() + bytes@,
            final(self).is_done() == old(self).is_done(),
    {
        self.buf.extend(bytes);
    }

    /// A line was read as `chunk`: the stream is over after the final chunk.
    pub fn on_chunk(&mut self, chunk: &Result<StreamChunk, BackendError>)
        ensures
            final(self).pending() == old(self).pending(),
            final(self).is_done() == (old(self).is_done() || (chunk matches Ok(c) && c.finish_reason is Some)),
    {
        match chunk {
            Ok(c) => {
                if c.is_terminal() {
                    self.done = true;
                }
            },
            Err(_) => {},
        }
    }

    /// The body failed: the stream is over.
    pub fn on_failure(&mut self)
        ensures
            final(self).pending() == old(self).pending(),
            final(self).is_done(),
    {
        self.done = true;
    }

    /// The body ended: what is left, trimmed, as a last line unless it is
    /// blank; the stream is over.
    pub fn end_of_body(&mut self) -> (r: Option<Vec<u8>>)
        ensures
            final(self).is_done(),
            final(self).pending() == Seq::<u8>::empty(),
            match r {
                Some(l) => l@ == trim_ascii(old(self).pending()) && l@.len() > 0,
                None => trim_ascii(old(self).pending()).len() == 0,
            },
    {
        self.done = true;
        self.buf.take_rest()
    }
}

/// The stream chunk an Ollama line stands for: the end marker when it is
/// done, otherwise its content as a delta.
pub fn stream_chunk_of(chunk: &OllamaChatChunk) -> (r: StreamChunk)
    ensures
        chunk.done ==> r.finish_reason == Some(FinishReason::Stop) && r.delta@ == Seq::<char>::empty(),
        !chunk.done ==> r.finish_reason is None && r.delta@ == chunk.message.content@,
{
    if chunk.done {
        StreamChunk::stop()
    } else {
        StreamChunk::delta(chunk.message.content.as_str())
    }
}

} // verus!
