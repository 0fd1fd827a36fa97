//! Cutting a byte stream into lines and turning lines into text.
//!
//! A stream arrives in chunks of any size. A line ends at a line feed; the
//! bytes behind the last line feed wait for more to come. A finished line
//! loses one carriage return before its line feed, and becomes text if its
//! bytes are valid UTF-8.

use crate::error::BridgeError;
use crate::text::views;
use vstd::prelude::*;
use vstd::slice::*;
use vstd::utf8::*;

verus! {

/// The byte that ends a line.
pub const LINE_FEED: u8 = 10;

/// The byte that may precede the line feed and is not part of the line.
pub const CARRIAGE_RETURN: u8 = 13;

/// The lines completed while `chunk` is read with `pending` already waiting,
/// without their line feeds.
pub open spec fn feed_lines(pending: Seq<u8>, chunk: Seq<u8>) -> Seq<Seq<u8>>
    decreases chunk.len(),
{
    if chunk.len() == 0 {
        Seq::empty()
    } else if chunk.last() == LINE_FEED {
        feed_lines(pending, chunk.drop_last()).push(feed_tail(pending, chunk.drop_last()))
    } else {
        feed_lines(pending, chunk.drop_last())
    }
}

/// The bytes still waiting for a line feed after `chunk` has been read with
/// `pending` already waiting.
pub open spec fn feed_tail(pending: Seq<u8>, chunk: Seq<u8>) -> Seq<u8>
    decreases chunk.len(),
{
    if chunk.len() == 0 {
        pending
    } else if chunk.last() == LINE_FEED {
        Seq::empty()
    } else {
        feed_tail(pending, chunk.drop_last()).push(chunk.last())
    }
}

/// Every line followed by a line feed, one after the other.
pub open spec fn terminated(lines: Seq<Seq<u8>>) -> Seq<u8>
    decreases lines.len(),
{
    if lines.len() == 0 {
        Seq::empty()
    } else {
        terminated(lines.drop_last()) + lines.last().push(LINE_FEED)
    }
}

/// Whether `bytes` holds no line feed.
pub open spec fn no_line_feed(bytes: Seq<u8>) -> bool {
    forall|i: int| 0 <= i < bytes.len() ==> bytes[i] != LINE_FEED
}

/// The bytes of a line that count as its content: a finished line loses one
/// trailing carriage return, an unfinished rest is taken as it is.
pub open spec fn line_body(raw: Seq<u8>, finished: bool) -> Seq<u8> {
    if finished && raw.len() > 0 && raw.last() == CARRIAGE_RETURN {
        raw.drop_last()
    } else {
        raw
    }
}

/// The text of a line, if its content is valid UTF-8.
pub open spec fn line_text(raw: Seq<u8>, finished: bool) -> Option<Seq<char>> {
    if valid_utf8(line_body(raw, finished)) {
        Some(decode_utf8(line_body(raw, finished)))
    } else {
        None
    }
}

/// The texts of those finished lines that are valid, in order; lines that
/// are not valid are left out.
pub open spec fn texts_of(lines: Seq<Seq<u8>>) -> Seq<Seq<char>>
    decreases lines.len(),
{
    if lines.len() == 0 {
        Seq::empty()
    } else {
        match line_text(lines.last(), true) {
            Some(text) => texts_of(lines.drop_last()).push(text),
            None => texts_of(lines.drop_last()),
        }
    }
}

/// Number of finished lines that are not valid text.
pub open spec fn faults_of(lines: Seq<Seq<u8>>) -> nat
    decreases lines.len(),
{
    if lines.len() == 0 {
        0
    } else if line_text(lines.last(), true) is None {
        faults_of(lines.drop_last()) + 1
    } else {
        faults_of(lines.drop_last())
    }
}

/// Reading a stream in two chunks completes the same lines, and leaves the
/// same rest, as reading it in one.
pub proof fn lemma_feed_in_two(pending: Seq<u8>, a: Seq<u8>, b: Seq<u8>)
    ensures
        feed_lines(pending, a + b) == feed_lines(pending, a) + feed_lines(
            feed_tail(pending, a),
            b,
        ),
        feed_tail(pending, a + b) == feed_tail(feed_tail(pending, a), b),
    decreases b.len(),
{
    if b.len() > 0 {
        lemma_feed_in_two(pending, a, b.drop_last());
        assert((a + b).drop_last() == a + b.drop_last());
    }
}

/// Cutting loses nothing and invents nothing: the finished lines with their
/// line feeds put back, followed by the rest, are the bytes that were read.
pub proof fn lemma_feed_reassembles(pending: Seq<u8>, chunk: Seq<u8>)
    ensures
        terminated(feed_lines(pending, chunk)) + feed_tail(pending, chunk) == pending + chunk,
    decreases chunk.len(),
{
    if chunk.len() > 0 {
        let head = chunk.drop_last();
        lemma_feed_reassembles(pending, head);
        if chunk.last() == LINE_FEED {
            let lines = feed_lines(pending, head);
            let rest = feed_tail(pending, head);
            assert(lines.push(rest).drop_last() == lines);
            assert(terminated(lines.push(rest)) + Seq::<u8>::empty() == (terminated(lines)
                + rest).push(LINE_FEED));
        } else {
            assert(terminated(feed_lines(pending, head)) + feed_tail(pending, head).push(
                chunk.last(),
            ) == (terminated(feed_lines(pending, head)) + feed_tail(pending, head)).push(
                chunk.last(),
            ));
        }
    }
}

/// A line ends at the first line feed: if the waiting bytes hold none, no
/// finished line and no rest holds one.
pub proof fn lemma_feed_cuts_at_line_feeds(pending: Seq<u8>, chunk: Seq<u8>)
    requires
        no_line_feed(pending),
    ensures
        no_line_feed(feed_tail(pending, chunk)),
        forall|k: int|
            0 <= k < feed_lines(pending, chunk).len() ==> no_line_feed(
                #[trigger] feed_lines(pending, chunk)[k],
            ),
    decreases chunk.len(),
{
    if chunk.len() > 0 {
        let head = chunk.drop_last();
        lemma_feed_cuts_at_line_feeds(pending, head);
        assert forall|k: int| 0 <= k < feed_lines(pending, chunk).len() implies no_line_feed(
            #[trigger] feed_lines(pending, chunk)[k],
        ) by {
            if k < feed_lines(pending, head).len() {
                assert(feed_lines(pending, chunk)[k] == feed_lines(pending, head)[k]);
            } else {
                assert(feed_lines(pending, chunk)[k] == feed_tail(pending, head));
            }
        }
    }
}

/// The texts of two runs of lines, one after the other, are the texts of the
/// first run followed by those of the second.
pub proof fn lemma_texts_of_concat(x: Seq<Seq<u8>>, y: Seq<Seq<u8>>)
    ensures
        texts_of(x + y) == texts_of(x) + texts_of(y),
        faults_of(x + y) == faults_of(x) + faults_of(y),
    decreases y.len(),
{
    if y.len() > 0 {
        lemma_texts_of_concat(x, y.drop_last());
        assert((x + y).drop_last() == x + y.drop_last());
    }
}

/// Where every line is valid, nothing is left out: there are as many texts
/// as lines, and each text is that of the line at the same place.
pub proof fn lemma_texts_of_valid(lines: Seq<Seq<u8>>)
    requires
        forall|i: int| 0 <= i < lines.len() ==> line_text(#[trigger] lines[i], true) is Some,
    ensures
        texts_of(lines).len() == lines.len(),
        faults_of(lines) == 0,
        forall|i: int|
            0 <= i < lines.len() ==> Some(#[trigger] texts_of(lines)[i]) == line_text(
                lines[i],
                true,
            ),
    decreases lines.len(),
{
    if lines.len() > 0 {
        lemma_texts_of_valid(lines.drop_last());
    }
}

/// Every line is either text or a fault.
pub proof fn lemma_texts_and_faults(lines: Seq<Seq<u8>>)
    ensures
        texts_of(lines).len() + faults_of(lines) == lines.len(),
    decreases lines.len(),
{
    if lines.len() > 0 {
        lemma_texts_and_faults(lines.drop_last());
    }
}

/// What is left of a stream when it ends: the waiting bytes as one last,
/// unfinished line, if there are any and they are valid text.
pub open spec fn rest_texts(pending: Seq<u8>) -> Seq<Seq<char>> {
    if pending.len() == 0 {
        Seq::empty()
    } else {
        match line_text(pending, false) {
            Some(text) => seq![text],
            None => Seq::empty(),
        }
    }
}

/// The lines of text in a whole stream, in order.
pub open spec fn stream_texts(bytes: Seq<u8>) -> Seq<Seq<char>> {
    texts_of(feed_lines(Seq::empty(), bytes)) + rest_texts(feed_tail(Seq::empty(), bytes))
}

/// `std::str::from_utf8`: the bytes are a string slice exactly when they are
/// valid UTF-8, and the slice then consists of those bytes.
#[verifier::external_body]
fn utf8_to_str(bytes: &[u8]) -> (res: Option<&str>)
    ensures
        res is Some <==> valid_utf8(bytes@),
        res matches Some(s) ==> encode_utf8(s@) == bytes@,
{
    std::str::from_utf8(bytes).ok()
}

/// Turns the bytes of one line into text. A finished line loses one trailing
/// carriage return first. Bytes that are not valid UTF-8 give
/// `BridgeError::DecodeError`, and nothing else does.
pub fn decode_line(raw: &[u8], finished: bool) -> (res: Result<String, BridgeError>)
    ensures
        match line_text(raw@, finished) {
            Some(text) => res matches Ok(s) && s@ == text,
            None => res == Err::<String, BridgeError>(BridgeError::DecodeError),
        },
{
    let n: usize = raw.len();
    let body: &[u8] = if finished && n > 0 && raw[n - 1] == CARRIAGE_RETURN {
        slice_subrange(raw, 0, n - 1)
    } else {
        raw
    };
    match utf8_to_str(body) {
        Some(s) => {
            proof {
                encode_utf8_decode_utf8(s@);
            }
            Ok(s.to_owned())
        },
        None => Err(BridgeError::DecodeError),
    }
}

/// The bytes of a stream that are still waiting for their line feed.
pub struct LineBuffer {
    pending: Vec<u8>,
}

impl View for LineBuffer {
    type V = Seq<u8>;

    closed spec fn view(&self) -> Seq<u8> {
        self.pending@
    }
}

impl LineBuffer {
    /// A buffer with nothing waiting.
    pub fn new() -> (buffer: LineBuffer)
        ensures
            buffer@ == Seq::<u8>::empty(),
    {
        LineBuffer { pending: Vec::new() }
    }

    /// Number of bytes waiting.
    pub fn pending_len(&self) -> (n: usize)
        ensures
            n == self@.len(),
    {
        self.pending.len()
    }

    /// Reads one more chunk of the stream: hands out the lines it completes,
    /// in order and without their line feeds, and keeps the rest waiting.
    pub fn feed(&mut self, chunk: &[u8]) -> (lines: Vec<Vec<u8>>)
        ensures
            views(lines@) == feed_lines(old(self)@, chunk@),
            final(self)@ == feed_tail(old(self)@, chunk@),
    {
        let mut lines: Vec<Vec<u8>> = Vec::new();
        let mut i: usize = 0;
        while i < chunk.len()
            invariant
                i <= chunk.len(),
                views(lines@) == feed_lines(old(self)@, chunk@.take(i as int)),
                self@ == feed_tail(old(self)@, chunk@.take(i as int)),
            decreases chunk.len() - i,
        {
            let byte: u8 = chunk[i];
            proof {
                assert(chunk@.take(i + 1).drop_last() == chunk@.take(i as int));
            }
            if byte == LINE_FEED {
                let mut line: Vec<u8> = Vec::new();
                std::mem::swap(&mut line, &mut self.pending);
                lines.push(line);
            } else {
                self.pending.push(byte);
            }
            i += 1;
        }
        assert(chunk@.take(i as int) == chunk@);
        lines
    }

    /// Ends the stream: hands out what was still waiting as a last,
    /// unfinished line, if there was anything, and leaves nothing waiting.
    pub fn finish(&mut self) -> (rest: Option<Vec<u8>>)
        ensures
            final(self)@ == Seq::<u8>::empty(),
            old(self)@.len() == 0 ==> rest is None,
            old(self)@.len() > 0 ==> (rest matches Some(bytes) && bytes@ == old(self)@),
    {
        if self.pending.len() == 0 {
            None
        } else {
            let mut rest: Vec<u8> = Vec::new();
            std::mem::swap(&mut rest, &mut self.pending);
            Some(rest)
        }
    }
}

} // verus!
