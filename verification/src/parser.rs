//! A small pull-based consumer of the machinery: a buffered byte
//! reader with spans over it, and a fixed-length tag parser.
//!
//! The reader is modeled as the sequence of bytes it will deliver.
//! [`Buf::ensure`] pulls bytes from it into the buffer on demand;
//! running out of input before the demand is met is the one error.
//! A [`Cursor`] tracks a position, [`Span`] names a settled byte
//! range, and a [`Parser`] consumes a known number of bytes from a
//! [`BufCursor`], handing back the advanced cursor with its output.

use vstd::prelude::*;

verus! {

/// Parsing failed: the input ended before the demanded byte count was
/// reached.
#[derive(PartialEq, Eq, Structural, Debug, Clone, Copy)]
pub enum ParseError {
    UnexpectedEof,
}

/// A growable buffer over a byte source: `buffer` holds the bytes
/// pulled so far, `source` the bytes the reader has still to deliver.
pub struct Buf {
    buffer: Vec<u8>,
    source: Vec<u8>,
}

/// A position into a [`Buf`]'s buffered bytes.
#[derive(Clone)]
pub struct Cursor {
    idx: usize,
}

/// A settled range of buffered bytes, as half-open start and end
/// positions.
#[derive(Clone, Copy)]
pub struct Span {
    pub bytes: (usize, usize),
}

impl Buf {
    /// The bytes pulled into the buffer so far.
    pub closed spec fn buffered(&self) -> Seq<u8> {
        self.buffer@
    }

    /// The bytes the source has still to deliver.
    pub closed spec fn pending_source(&self) -> Seq<u8> {
        self.source@
    }

    /// All bytes this reader can ever make available.
    pub open spec fn available(&self) -> nat {
        self.buffered().len() + self.pending_source().len()
    }

    /// A fresh, empty buffer over a source, with a cursor at its
    /// start.
    pub fn new(source: Vec<u8>) -> (r: (Buf, Cursor))
        ensures
            r.0.buffered() == Seq::<u8>::empty(),
            r.0.pending_source() == source@,
            r.1.idx() == 0,
    {
        (Buf { buffer: Vec::new(), source }, Cursor { idx: 0 })
    }

    /// Makes at least `n` bytes available in the buffer, pulling the
    /// missing ones from the source: succeeds exactly when the reader
    /// holds enough; on failure everything the reader had has been
    /// pulled in and the end of input is reported.
    pub fn ensure(&mut self, n: usize) -> (r: Result<(), ParseError>)
        ensures
            match r {
                Ok(()) => {
                    &&& n <= old(self).available()
                    &&& final(self).buffered() == old(self).buffered() + old(
                        self,
                    ).pending_source().take(
                        (if n > old(self).buffered().len() {
                            n - old(self).buffered().len()
                        } else {
                            0int
                        }),
                    )
                    &&& final(self).pending_source() == old(self).pending_source().skip(
                        (if n > old(self).buffered().len() {
                            n - old(self).buffered().len()
                        } else {
                            0int
                        }),
                    )
                    &&& n <= final(self).buffered().len()
                },
                Err(e) => {
                    &&& e == ParseError::UnexpectedEof
                    &&& n > old(self).available()
                    &&& final(self).buffered() == old(self).buffered() + old(
                        self,
                    ).pending_source()
                    &&& final(self).pending_source() == Seq::<u8>::empty()
                },
            },
    {
        if n <= self.buffer.len() {
            proof {
                assert(self.source@.take(0) =~= Seq::<u8>::empty());
                assert(self.buffer@ + self.source@.take(0) =~= self.buffer@);
                assert(self.source@.skip(0) =~= self.source@);
            }
            return Ok(());
        }
        let ghost pre_buf = self.buffer@;
        let ghost pre_src = self.source@;
        let diff = n - self.buffer.len();
        let mut moved: usize = 0;
        while moved < diff && self.source.len() > 0
            invariant
                moved <= diff,
                moved <= pre_src.len(),
                self.buffer@ == pre_buf + pre_src.take(moved as int),
                self.source@ == pre_src.skip(moved as int),
            decreases self.source@.len(),
        {
            proof {
                assert(moved < pre_src.len());
                assert(pre_src.skip(moved as int)[0] == pre_src[moved as int]);
            }
            let b = self.source.remove(0);
            self.buffer.push(b);
            proof {
                assert(pre_src.take(moved + 1) =~= pre_src.take(moved as int).push(
                    pre_src[moved as int],
                ));
                assert(self.buffer@ =~= pre_buf + pre_src.take(moved + 1));
                assert(self.source@ =~= pre_src.skip(moved + 1));
            }
            moved = moved + 1;
        }
        if moved == diff {
            Ok(())
        } else {
            proof {
                assert(self.source@.len() == 0);
                assert(pre_src.take(moved as int) =~= pre_src);
                assert(pre_src.skip(moved as int) =~= Seq::<u8>::empty());
            }
            Err(ParseError::UnexpectedEof)
        }
    }
}

impl Cursor {
    /// The position this cursor stands at.
    pub closed spec fn idx(&self) -> usize {
        self.idx
    }

    /// Claims the next `n` buffered bytes: ensures they are available
    /// and advances past them, handing back their span. On end of
    /// input the cursor stays put.
    pub fn take_from(&mut self, buf: &mut Buf, n: usize) -> (r: Result<Span, ParseError>)
        requires
            old(self).idx() + n <= usize::MAX,
        ensures
            match r {
                Ok(span) => {
                    &&& span.bytes == (old(self).idx(), (old(self).idx() + n) as usize)
                    &&& final(self).idx() == old(self).idx() + n
                    &&& old(self).idx() + n <= old(buf).available()
                    &&& final(buf).available() == old(buf).available()
                    &&& old(self).idx() + n <= final(buf).buffered().len()
                    &&& final(buf).buffered().take(old(buf).buffered().len() as int) == old(
                        buf,
                    ).buffered()
                },
                Err(e) => {
                    &&& e == ParseError::UnexpectedEof
                    &&& final(self).idx() == old(self).idx()
                    &&& old(self).idx() + n > old(buf).available()
                },
            },
    {
        let start = self.idx;
        let end = start + n;
        let ghost pre_len = buf.buffered().len();
        match buf.ensure(end) {
            Ok(()) => {
                self.idx = end;
                proof {
                    assert(buf.buffered().take(pre_len as int) =~= old(buf).buffered());
                }
                Ok(Span { bytes: (start, end) })
            },
            Err(e) => Err(e),
        }
    }
}

impl Span {
    /// The buffered bytes this span names.
    pub fn view_bytes(self, buf: &Buf) -> (r: Vec<u8>)
        requires
            self.bytes.0 <= self.bytes.1,
            self.bytes.1 <= buf.buffered().len(),
        ensures
            r@ == buf.buffered().subrange(self.bytes.0 as int, self.bytes.1 as int),
    {
        let mut r: Vec<u8> = Vec::new();
        let mut i = self.bytes.0;
        while i < self.bytes.1
            invariant
                self.bytes.0 <= i <= self.bytes.1,
                self.bytes.1 <= buf.buffered().len(),
                r@ == buf.buffered().subrange(self.bytes.0 as int, i as int),
            decreases self.bytes.1 - i,
        {
            let b = buf.buffer[i];
            r.push(b);
            proof {
                assert(r@ =~= buf.buffered().subrange(self.bytes.0 as int, i + 1));
            }
            i = i + 1;
        }
        r
    }
}

/// A buffer and a cursor into it, moved through a parse as one value.
pub struct BufCursor {
    pub buf: Buf,
    pub cur: Cursor,
}

impl BufCursor {
    /// Claims the next `n` bytes, handing the advanced pair back with
    /// the span.
    pub fn take_from(self, n: usize) -> (r: Result<(BufCursor, Span), ParseError>)
        requires
            self.cur.idx() + n <= usize::MAX,
        ensures
            match r {
                Ok((bc, span)) => {
                    &&& span.bytes == (self.cur.idx(), (self.cur.idx() + n) as usize)
                    &&& bc.cur.idx() == self.cur.idx() + n
                    &&& self.cur.idx() + n <= self.buf.available()
                    &&& bc.buf.available() == self.buf.available()
                    &&& bc.cur.idx() <= bc.buf.buffered().len()
                },
                Err(e) => {
                    &&& e == ParseError::UnexpectedEof
                    &&& self.cur.idx() + n > self.buf.available()
                },
            },
    {
        let BufCursor { mut buf, mut cur } = self;
        match cur.take_from(&mut buf, n) {
            Ok(span) => Ok((BufCursor { buf, cur }, span)),
            Err(e) => Err(e),
        }
    }
}

/// A parser that consumes a fixed number of bytes from the stream.
pub trait Parser: Sized {
    type Output;

    /// How many bytes one parse consumes.
    spec fn wants(&self) -> nat;

    /// The output of a parse that started at `start`.
    spec fn output_of(&self, start: nat) -> Self::Output;

    /// Runs the parse: succeeds, with the advanced pair and the
    /// output, exactly when the reader holds enough bytes.
    fn parse(&self, cursor: BufCursor) -> (r: Result<(BufCursor, Self::Output), ParseError>)
        requires
            cursor.cur.idx() + self.wants() <= usize::MAX,
        ensures
            match r {
                Ok((bc, out)) => {
                    &&& out == self.output_of(cursor.cur.idx() as nat)
                    &&& bc.cur.idx() == cursor.cur.idx() + self.wants()
                    &&& cursor.cur.idx() + self.wants() <= cursor.buf.available()
                    &&& bc.buf.available() == cursor.buf.available()
                },
                Err(e) => {
                    &&& e == ParseError::UnexpectedEof
                    &&& cursor.cur.idx() + self.wants() > cursor.buf.available()
                },
            },
    ;
}

/// A fixed byte tag: parsing claims exactly the tag's length from the
/// stream and hands back the span where it sits.
pub struct Tag {
    bytes: Vec<u8>,
}

impl Tag {
    pub fn new(bytes: Vec<u8>) -> (t: Tag)
        ensures
            t.tag_bytes() == bytes@,
    {
        Tag { bytes }
    }

    /// The tag's bytes.
    pub closed spec fn tag_bytes(&self) -> Seq<u8> {
        self.bytes@
    }
}

impl Parser for Tag {
    type Output = Span;

    open spec fn wants(&self) -> nat {
        self.tag_bytes().len()
    }

    open spec fn output_of(&self, start: nat) -> Span {
        Span { bytes: (start as usize, (start + self.tag_bytes().len()) as usize) }
    }

    fn parse(&self, cursor: BufCursor) -> (r: Result<(BufCursor, Span), ParseError>) {
        match cursor.take_from(self.bytes.len()) {
            Ok((bc, span)) => Ok((bc, span)),
            Err(e) => Err(e),
        }
    }
}

} // verus!
