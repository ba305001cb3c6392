//! Lines of bytes: what stands between line feeds, without the carriage
//! return that may stand in front of one.

use vstd::prelude::*;
use crate::ascii::{CARRIAGE_RETURN, LINE_FEED};

verus! {

/// Whether the first line of `s` ends at `at`: there stands the first line
/// feed of `s`, or `s` ends there without one.
pub open spec fn is_line_end(s: Seq<u8>, at: int) -> bool {
    0 <= at <= s.len() && (at == s.len() || s[at] == LINE_FEED) && forall|i: int|
        0 <= i < at ==> #[trigger] s[i] != LINE_FEED
}

/// Where the first line of `s` ends.
pub open spec fn line_end(s: Seq<u8>) -> int {
    choose|at: int| is_line_end(s, at)
}

/// The first line of `s`, without the line feed that ends it and without a
/// carriage return in front of that line feed. A last line that no line
/// feed ends is taken as it stands.
pub open spec fn first_line(s: Seq<u8>) -> Seq<u8> {
    let end = line_end(s);
    if 0 < end < s.len() && s[end - 1] == CARRIAGE_RETURN {
        s.take(end - 1)
    } else {
        s.take(end)
    }
}

/// What follows the first line of `s` and the line feed that ends it.
pub open spec fn after_first_line(s: Seq<u8>) -> Seq<u8> {
    let end = line_end(s);
    if 0 <= end < s.len() {
        s.skip(end + 1)
    } else {
        Seq::empty()
    }
}

/// The first line of a string ends at one place only.
pub proof fn lemma_line_end(s: Seq<u8>, at: int)
    requires
        is_line_end(s, at),
    ensures
        line_end(s) == at,
{
    let chosen = line_end(s);
    if chosen < at {
        assert(s[chosen] != LINE_FEED);
    } else if chosen > at {
        assert(s[at] != LINE_FEED);
    }
}

/// Finds where the first line of what `bytes` holds from `from` on ends.
pub fn find_line_end(bytes: &[u8], from: usize) -> (r: usize)
    requires
        from <= bytes@.len(),
    ensures
        from <= r <= bytes@.len(),
        r - from == line_end(bytes@.skip(from as int)),
{
    let ghost rest = bytes@.skip(from as int);
    let mut i: usize = from;
    while i < bytes.len() && bytes[i] != LINE_FEED
        invariant
            from <= i <= bytes@.len(),
            rest == bytes@.skip(from as int),
            forall|j: int| 0 <= j < i - from ==> #[trigger] rest[j] != LINE_FEED,
        decreases bytes@.len() - i,
    {
        i = i + 1;
    }
    proof {
        assert(is_line_end(rest, i - from));
        lemma_line_end(rest, i - from);
    }
    i
}

/// The first line of `line`, without the line feed that ends it and without
/// a carriage return in front of that line feed: what is left of a line that
/// was read up to and with its line feed.
pub fn strip_line_end(line: &[u8]) -> (r: &[u8])
    ensures
        r@ == first_line(line@),
{
    assert(line@.skip(0) =~= line@);
    let end = find_line_end(line, 0);
    let mut stop = end;
    if end < line.len() && end > 0 && line[end - 1] == CARRIAGE_RETURN {
        stop = end - 1;
    }
    let stripped = &line[0..stop];
    assert(stripped@ =~= line@.take(stop as int));
    stripped
}

/// The lines of a buffer, one after the other.
#[derive(Debug)]
pub struct ByteLines {
    buf: Vec<u8>,
    position: usize,
}

/// Buffers of bytes that can be read line by line.
pub trait ByteLinesExt: Sized {
    /// The bytes of the buffer.
    spec fn bytes(&self) -> Seq<u8>;

    /// The lines of the buffer.
    fn byte_lines(self) -> (r: ByteLines)
        ensures
            r.remaining() == self.bytes(),
    ;
}

impl ByteLinesExt for Vec<u8> {
    open spec fn bytes(&self) -> Seq<u8> {
        self@
    }

    fn byte_lines(self) -> (r: ByteLines) {
        let lines = ByteLines { buf: self, position: 0 };
        assert(lines.remaining() =~= self@);
        lines
    }
}

impl ByteLines {
    /// The bytes that are still to be read.
    pub closed spec fn remaining(&self) -> Seq<u8> {
        if self.position <= self.buf@.len() {
            self.buf@.skip(self.position as int)
        } else {
            Seq::empty()
        }
    }

    /// The lines of `buf`.
    pub fn new(buf: Vec<u8>) -> (r: ByteLines)
        ensures
            r.remaining() == buf@,
    {
        let lines = ByteLines { buf, position: 0 };
        assert(lines.remaining() =~= buf@);
        lines
    }

    /// The next line, or `None` where every byte has been read.
    pub fn next(&mut self) -> (r: Option<Vec<u8>>)
        ensures
            old(self).remaining().len() == 0 ==> r is None && final(self).remaining().len() == 0,
            old(self).remaining().len() > 0 ==> (r matches Some(line) && line@ == first_line(
                old(self).remaining(),
            )) && final(self).remaining() == after_first_line(old(self).remaining()),
    {
        if self.position >= self.buf.len() {
            return None;
        }
        let start = self.position;
        let end = find_line_end(self.buf.as_slice(), start);
        let ghost rest = self.buf@.skip(start as int);
        let mut stop = end;
        if end < self.buf.len() {
            self.position = end + 1;
            if end > start && self.buf[end - 1] == CARRIAGE_RETURN {
                stop = end - 1;
            }
            assert(self.remaining() =~= rest.skip(end - start + 1));
        } else {
            self.position = end;
            assert(self.remaining() =~= Seq::<u8>::empty());
        }
        let line = vstd::slice::slice_to_vec(&self.buf.as_slice()[start..stop]);
        assert(line@ =~= rest.take(stop - start));
        Some(line)
    }
}

} // verus!
