//! A whole file, read record by record.

use vstd::prelude::*;
use crate::additions::definition::{clone_defs, defs_view, AdditionDef, AdditionDefView};
use crate::error::{outcome, Error, ErrorView};
use crate::lines::{after_first_line, first_line, strip_line_end, ByteLines};
use crate::records::record::{context_after, record_of, Context, Record, RecordView};
use crate::text::{decoded, next_encoding, BufEncoding};

verus! {

/// A reader of records. It holds the bytes of a file and what is carried
/// from line to line: what is known of the encoding, and the additions that
/// the last I and J records declared.
#[derive(Debug)]
pub struct Reader {
    lines: ByteLines,
    encoding: BufEncoding,
    b_additions: Vec<AdditionDef>,
    k_additions: Vec<AdditionDef>,
}

/// What one step of a reader gives: the next record or the error of its
/// line, the bytes that are left, and what the reader carries on.
pub struct Step {
    pub result: Result<RecordView, ErrorView>,
    pub rest: Seq<u8>,
    pub context: Context,
}

/// The next step of a reader that has the bytes `s` before it and carries
/// `ctx`: lines without a byte are passed over, and the first line with one
/// is decoded. There is no step where no such line is left.
pub open spec fn next_step(s: Seq<u8>, ctx: Context) -> Option<Step>
    decreases s.len(),
{
    if s.len() == 0 {
        None
    } else if first_line(s).len() == 0 {
        next_step(after_first_line(s), ctx)
    } else {
        Some(
            Step {
                result: record_of(first_line(s), ctx),
                rest: after_first_line(s),
                context: context_after(first_line(s), ctx),
            },
        )
    }
}

/// What a reader gives in all, step by step, that has the bytes `s` before
/// it and carries `ctx`.
pub open spec fn all_records(s: Seq<u8>, ctx: Context) -> Seq<Result<RecordView, ErrorView>>
    decreases s.len(),
{
    if s.len() == 0 {
        Seq::empty()
    } else if first_line(s).len() == 0 {
        all_records(after_first_line(s), ctx)
    } else {
        seq![record_of(first_line(s), ctx)] + all_records(
            after_first_line(s),
            context_after(first_line(s), ctx),
        )
    }
}

/// What a reader carries at the end that had the bytes `s` before it and
/// carried `ctx`.
pub open spec fn last_context(s: Seq<u8>, ctx: Context) -> Context
    decreases s.len(),
{
    if s.len() == 0 {
        ctx
    } else if first_line(s).len() == 0 {
        last_context(after_first_line(s), ctx)
    } else {
        last_context(after_first_line(s), context_after(first_line(s), ctx))
    }
}

/// The mathematical values of a list of results.
pub open spec fn outcomes(results: Seq<Result<Record, Error>>) -> Seq<Result<RecordView, ErrorView>> {
    Seq::new(results.len(), |i: int| outcome(results[i]))
}

/// All the records are the next one and then all that follow it.
pub proof fn lemma_all_records_step(s: Seq<u8>, ctx: Context)
    ensures
        match next_step(s, ctx) {
            Some(step) => step.rest.len() < s.len() && all_records(s, ctx) == seq![step.result]
                + all_records(step.rest, step.context) && last_context(s, ctx) == last_context(
                step.rest,
                step.context,
            ),
            None => all_records(s, ctx) == Seq::<Result<RecordView, ErrorView>>::empty()
                && last_context(s, ctx) == ctx,
        },
    decreases s.len(),
{
    if s.len() > 0 && first_line(s).len() == 0 {
        lemma_all_records_step(after_first_line(s), ctx);
    }
}

impl Reader {
    /// The bytes that are still to be read.
    pub closed spec fn remaining(&self) -> Seq<u8> {
        self.lines.remaining()
    }

    /// What the reader carries from line to line.
    pub closed spec fn context(&self) -> Context {
        Context {
            encoding: self.encoding,
            b_additions: defs_view(self.b_additions@),
            k_additions: defs_view(self.k_additions@),
        }
    }

    /// A reader of the bytes `rdr`. Nothing is read yet.
    pub fn from_reader(rdr: Vec<u8>) -> (r: Reader)
        ensures
            r.remaining() == rdr@,
            r.context() == Context::initial(),
    {
        let reader = Reader {
            lines: ByteLines::new(rdr),
            encoding: BufEncoding::Auto,
            b_additions: Vec::new(),
            k_additions: Vec::new(),
        };
        assert(defs_view(reader.b_additions@) =~= Seq::<AdditionDefView>::empty());
        assert(defs_view(reader.k_additions@) =~= Seq::<AdditionDefView>::empty());
        reader
    }

    /// What the reader knows of the encoding of its file.
    pub fn encoding(&self) -> (r: BufEncoding)
        ensures
            r == self.context().encoding,
    {
        self.encoding
    }

    /// The additions to B records that are in force.
    pub fn b_additions(&self) -> (r: &Vec<AdditionDef>)
        ensures
            defs_view(r@) == self.context().b_additions,
    {
        &self.b_additions
    }

    /// The additions to K records that are in force.
    pub fn k_additions(&self) -> (r: &Vec<AdditionDef>)
        ensures
            defs_view(r@) == self.context().k_additions,
    {
        &self.k_additions
    }

    /// The records of the file, from where the reader stands.
    pub fn records(&mut self) -> (r: RecordsIter<'_>)
        ensures
            r.reader.remaining() == old(self).remaining(),
            r.reader.context() == old(self).context(),
            *final(self) == *final(r.reader),
    {
        RecordsIter::new(self)
    }

    /// Reads one line, without the line feed and the carriage return that
    /// end it. `None` where every byte has been read.
    pub fn read_line(&mut self) -> (r: Option<Vec<u8>>)
        ensures
            final(self).context() == old(self).context(),
            old(self).remaining().len() == 0 ==> r is None && final(self).remaining().len() == 0,
            old(self).remaining().len() > 0 ==> (r matches Some(line) && line@ == first_line(
                old(self).remaining(),
            )) && final(self).remaining() == after_first_line(old(self).remaining()),
    {
        self.lines.next()
    }

    /// Decodes free text in the encoding of the file, as far as it is
    /// known, and keeps what the text tells of it.
    pub fn decode_bytes(&mut self, bytes: &[u8]) -> (r: Result<String, Error>)
        ensures
            final(self).remaining() == old(self).remaining(),
            final(self).context() == (Context {
                encoding: next_encoding(old(self).context().encoding, bytes@),
                b_additions: old(self).context().b_additions,
                k_additions: old(self).context().k_additions,
            }),
            match decoded(old(self).context().encoding, bytes@) {
                Some(text) => r matches Ok(s) && s@ == text,
                None => r matches Err(e) && e@ == (ErrorView::Encoding { text: bytes@ }),
            },
    {
        self.encoding.decode(bytes)
    }

    /// Decodes one line and keeps what it changes of the encoding and of
    /// the additions in force.
    pub fn parse_line(&mut self, line: &[u8]) -> (r: Result<Record, Error>)
        ensures
            outcome(r) == record_of(line@, old(self).context()),
            final(self).context() == context_after(line@, old(self).context()),
            final(self).remaining() == old(self).remaining(),
    {
        reveal(context_after);
        let mut encoding = self.encoding;
        let result = Record::parse_in_stream(line, &mut encoding, &self.b_additions, &self.k_additions);
        self.encoding = encoding;
        match &result {
            Ok(Record::I(record)) => {
                self.b_additions = clone_defs(&record.addition_defs);
            },
            Ok(Record::J(record)) => {
                self.k_additions = clone_defs(&record.addition_defs);
            },
            _ => {},
        }
        result
    }

    /// Takes a line as a byte source hands it over, with or without the
    /// line feed and the carriage return that end it, and decodes it like a
    /// line of the reader's own bytes. `None` for a line without a byte,
    /// which is passed over.
    pub fn feed_line(&mut self, raw: &[u8]) -> (r: Option<Result<Record, Error>>)
        ensures
            final(self).remaining() == old(self).remaining(),
            first_line(raw@).len() == 0 ==> r is None && final(self).context() == old(
                self,
            ).context(),
            first_line(raw@).len() > 0 ==> (r matches Some(result) && outcome(result) == record_of(
                first_line(raw@),
                old(self).context(),
            )) && final(self).context() == context_after(first_line(raw@), old(self).context()),
    {
        let line = strip_line_end(raw);
        if line.len() == 0 {
            None
        } else {
            Some(self.parse_line(line))
        }
    }

    /// The next record, or the error of its line. Lines without a byte are
    /// passed over. `None` where no line with a byte is left.
    pub fn next_record(&mut self) -> (r: Option<Result<Record, Error>>)
        ensures
            match next_step(old(self).remaining(), old(self).context()) {
                Some(step) => r matches Some(result) && outcome(result) == step.result
                    && final(self).remaining() == step.rest && final(self).context() == step.context,
                None => r is None && final(self).remaining().len() == 0 && final(self).context()
                    == old(self).context(),
            },
    {
        let ghost start = self.remaining();
        let ghost ctx = self.context();
        loop
            invariant
                start == old(self).remaining(),
                ctx == old(self).context(),
                self.context() == ctx,
                next_step(self.remaining(), ctx) == next_step(start, ctx),
            decreases self.remaining().len(),
        {
            let bytes = match self.read_line() {
                None => {
                    return None;
                },
                Some(bytes) => bytes,
            };
            if bytes.len() != 0 {
                return Some(self.parse_line(bytes.as_slice()));
            }
        }
    }
}

/// The records of a file, one after the other.
pub struct RecordsIter<'r> {
    /// The reader that the records come from.
    pub reader: &'r mut Reader,
}

impl<'r> RecordsIter<'r> {
    fn new(rdr: &'r mut Reader) -> (r: RecordsIter<'r>)
        ensures
            *r.reader == *old(rdr),
            *final(rdr) == *final(r.reader),
    {
        RecordsIter { reader: rdr }
    }

    /// The reader that the records come from.
    pub fn reader(&self) -> (r: &Reader)
        ensures
            *r == *old(self.reader),
    {
        &*self.reader
    }

    /// The reader that the records come from, to be changed.
    pub fn reader_mut(&mut self) -> (r: &mut Reader)
        ensures
            *r == *old(self).reader,
            *final(self).reader == *final(r),
            *final(final(self).reader) == *final(old(self).reader),
    {
        &mut *self.reader
    }

    /// The next record, or the error of its line; `None` at the end.
    pub fn next(&mut self) -> (r: Option<Result<Record, Error>>)
        ensures
            match next_step(old(self).reader.remaining(), old(self).reader.context()) {
                Some(step) => r matches Some(result) && outcome(result) == step.result
                    && final(self).reader.remaining() == step.rest && final(self).reader.context()
                    == step.context,
                None => r is None && final(self).reader.remaining().len() == 0
                    && final(self).reader.context() == old(self).reader.context(),
            },
            *final(final(self).reader) == *final(old(self).reader),
    {
        self.reader.next_record()
    }

    /// All the records that are left, each or the error of its line.
    pub fn collect(&mut self) -> (r: Vec<Result<Record, Error>>)
        ensures
            outcomes(r@) == all_records(old(self).reader.remaining(), old(self).reader.context()),
            final(self).reader.remaining().len() == 0,
            final(self).reader.context() == last_context(
                old(self).reader.remaining(),
                old(self).reader.context(),
            ),
            *final(final(self).reader) == *final(old(self).reader),
    {
        let ghost start = self.reader.remaining();
        let ghost ctx = self.reader.context();
        let mut all: Vec<Result<Record, Error>> = Vec::new();
        loop
            invariant
                start == old(self).reader.remaining(),
                ctx == old(self).reader.context(),
                *final(self.reader) == *final(old(self).reader),
                outcomes(all@) + all_records(self.reader.remaining(), self.reader.context())
                    == all_records(start, ctx),
                last_context(self.reader.remaining(), self.reader.context()) == last_context(
                    start,
                    ctx,
                ),
            decreases self.reader.remaining().len(),
        {
            proof {
                lemma_all_records_step(self.reader.remaining(), self.reader.context());
            }
            let ghost before = outcomes(all@);
            match self.reader.next_record() {
                Some(result) => {
                    all.push(result);
                    assert(outcomes(all@) =~= before + seq![outcome(result)]);
                    assert((before + seq![outcome(result)]) + all_records(
                        self.reader.remaining(),
                        self.reader.context(),
                    ) =~= before + (seq![outcome(result)] + all_records(
                        self.reader.remaining(),
                        self.reader.context(),
                    )));
                },
                None => {
                    assert(outcomes(all@) + Seq::<Result<RecordView, ErrorView>>::empty() =~= outcomes(
                        all@,
                    ));
                    return all;
                },
            }
        }
    }
}

} // verus!
