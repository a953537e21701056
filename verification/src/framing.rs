//! Splitting a byte stream that arrives in arbitrary chunks into lines.
//!
//! A line ends at a line feed. Bytes after the last line feed are kept until a
//! later chunk completes the line, so the lines that come out do not depend on
//! where the chunk boundaries fall.

use vstd::prelude::*;

verus! {

/// The byte that ends a line.
pub const LINE_FEED: u8 = 10;

/// Whether `data` holds no line feed.
pub open spec fn unbroken(data: Seq<u8>) -> bool {
    forall|i: int| 0 <= i < data.len() ==> data[i] != LINE_FEED
}

/// The lines that are complete once `data` has arrived after `pending`, the
/// bytes of an unfinished line.
pub open spec fn complete_lines(pending: Seq<u8>, data: Seq<u8>) -> Seq<Seq<u8>>
    decreases data.len(),
{
    if data.len() == 0 {
        Seq::empty()
    } else if data.last() == LINE_FEED {
        complete_lines(pending, data.drop_last()).push(remainder(pending, data.drop_last()))
    } else {
        complete_lines(pending, data.drop_last())
    }
}

/// The bytes of the unfinished line once `data` has arrived after `pending`.
pub open spec fn remainder(pending: Seq<u8>, data: Seq<u8>) -> Seq<u8>
    decreases data.len(),
{
    if data.len() == 0 {
        pending
    } else if data.last() == LINE_FEED {
        Seq::empty()
    } else {
        remainder(pending, data.drop_last()).push(data.last())
    }
}

/// The lines, each followed by a line feed, one after the other.
pub open spec fn joined(lines: Seq<Seq<u8>>) -> Seq<u8>
    decreases lines.len(),
{
    if lines.len() == 0 {
        Seq::empty()
    } else {
        joined(lines.drop_last()) + lines.last().push(LINE_FEED)
    }
}

/// The contents of each line.
pub open spec fn line_views(lines: Seq<Vec<u8>>) -> Seq<Seq<u8>> {
    lines.map_values(|line: Vec<u8>| line@)
}

/// Splitting is independent of chunk boundaries: the lines of `first`
/// followed by `second` are the lines of `first`, then the lines of `second`
/// read after what `first` left unfinished.
pub proof fn lemma_split_anywhere(pending: Seq<u8>, first: Seq<u8>, second: Seq<u8>)
    ensures
        complete_lines(pending, first + second) == complete_lines(pending, first)
            + complete_lines(remainder(pending, first), second),
        remainder(pending, first + second) == remainder(remainder(pending, first), second),
    decreases second.len(),
{
    if second.len() > 0 {
        let shorter = second.drop_last();
        lemma_split_anywhere(pending, first, shorter);
        assert((first + second).drop_last() =~= first + shorter);
    }
}

/// Nothing is lost or invented: the complete lines with their line feeds,
/// followed by the unfinished rest, are exactly the bytes that came in.
pub proof fn lemma_lines_rejoin(pending: Seq<u8>, data: Seq<u8>)
    ensures
        joined(complete_lines(pending, data)) + remainder(pending, data) == pending + data,
    decreases data.len(),
{
    if data.len() > 0 {
        let shorter = data.drop_last();
        lemma_lines_rejoin(pending, shorter);
        let lines = complete_lines(pending, shorter);
        let rest = remainder(pending, shorter);
        if data.last() == LINE_FEED {
            assert(lines.push(rest).drop_last() =~= lines);
            assert(joined(lines.push(rest)) + Seq::<u8>::empty() =~= (joined(lines) + rest).push(
                LINE_FEED,
            ));
        } else {
            assert(joined(lines) + rest.push(data.last()) =~= (joined(lines) + rest).push(
                data.last(),
            ));
        }
    }
}

/// No line that comes out holds a line feed, and neither does the rest.
pub proof fn lemma_lines_unbroken(pending: Seq<u8>, data: Seq<u8>)
    requires
        unbroken(pending),
    ensures
        unbroken(remainder(pending, data)),
        forall|i: int|
            0 <= i < complete_lines(pending, data).len() ==> unbroken(
                #[trigger] complete_lines(pending, data)[i],
            ),
    decreases data.len(),
{
    if data.len() > 0 {
        let shorter = data.drop_last();
        lemma_lines_unbroken(pending, shorter);
        let lines = complete_lines(pending, data);
        assert forall|i: int| 0 <= i < lines.len() implies unbroken(#[trigger] lines[i]) by {
            assert(i < complete_lines(pending, shorter).len() || lines[i] == remainder(
                pending,
                shorter,
            ));
        }
    }
}

/// The unfinished line of a byte stream.
pub struct LineBuffer {
    pending: Vec<u8>,
}

impl View for LineBuffer {
    type V = Seq<u8>;

    closed spec fn view(&self) -> Seq<u8> {
        self.pending@
    }
}

impl LineBuffer {
    /// A buffer with nothing pending.
    pub fn new() -> (buffer: LineBuffer)
        ensures
            buffer@ == Seq::<u8>::empty(),
    {
        LineBuffer { pending: Vec::new() }
    }

    /// Whether an unfinished line is pending.
    pub fn is_empty(&self) -> (empty: bool)
        ensures
            empty == (self@.len() == 0),
    {
        self.pending.len() == 0
    }

    /// Takes in the next chunk and hands out the lines that it completes, in
    /// order and without their line feeds.
    pub fn push(&mut self, chunk: &[u8]) -> (lines: Vec<Vec<u8>>)
        ensures
            line_views(lines@) == complete_lines(old(self)@, chunk@),
            final(self)@ == remainder(old(self)@, chunk@),
    {
        let mut lines: Vec<Vec<u8>> = Vec::new();
        let mut i: usize = 0;
        while i < chunk.len()
            invariant
                i <= chunk@.len(),
                line_views(lines@) == complete_lines(old(self)@, chunk@.take(i as int)),
                self.pending@ == remainder(old(self)@, chunk@.take(i as int)),
            decreases chunk@.len() - i,
        {
            let byte = chunk[i];
            assert(chunk@.take(i + 1).drop_last() =~= chunk@.take(i as int));
            if byte == LINE_FEED {
                let line = self.take();
                lines.push(line);
            } else {
                self.pending.push(byte);
            }
            i += 1;
        }
        assert(chunk@.take(i as int) =~= chunk@);
        lines
    }

    /// Hands out what is pending and leaves the buffer empty.
    pub fn take(&mut self) -> (line: Vec<u8>)
        ensures
            line@ == old(self)@,
            final(self)@ == Seq::<u8>::empty(),
    {
        let mut line: Vec<u8> = Vec::new();
        std::mem::swap(&mut line, &mut self.pending);
        line
    }
}

} // verus!
