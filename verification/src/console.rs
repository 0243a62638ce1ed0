//! The console device: bytes that the guest writes are gathered into lines,
//! and each line is handed to the host when its newline arrives.

use vstd::prelude::*;

verus! {

/// The byte that ends a line.
pub const NEWLINE: u8 = 0x0A;

/// Whether any byte of `bytes` ends a line.
pub open spec fn has_newline(bytes: Seq<u8>) -> bool {
    exists|i: int| 0 <= i < bytes.len() && bytes[i] == NEWLINE
}

/// The bytes of `bytes` that follow its last newline: the line that is still
/// being written.
pub open spec fn unfinished(bytes: Seq<u8>) -> Seq<u8>
    decreases bytes.len(),
{
    if bytes.len() == 0 || bytes.last() == NEWLINE {
        Seq::empty()
    } else {
        unfinished(bytes.drop_last()).push(bytes.last())
    }
}

/// The lines that `bytes` completes, in order, each with its newline.
pub open spec fn finished_lines(bytes: Seq<u8>) -> Seq<Seq<u8>>
    decreases bytes.len(),
{
    if bytes.len() == 0 {
        Seq::empty()
    } else if bytes.last() == NEWLINE {
        finished_lines(bytes.drop_last()).push(unfinished(bytes.drop_last()).push(NEWLINE))
    } else {
        finished_lines(bytes.drop_last())
    }
}

/// The lines one after another, as one run of bytes.
pub open spec fn joined(lines: Seq<Seq<u8>>) -> Seq<u8>
    decreases lines.len(),
{
    if lines.len() == 0 {
        Seq::empty()
    } else {
        joined(lines.drop_last()) + lines.last()
    }
}

/// The contents of each line of a list of lines.
pub open spec fn line_views(lines: Seq<Vec<u8>>) -> Seq<Seq<u8>> {
    Seq::new(lines.len(), |i: int| lines[i]@)
}

/// Bytes without a newline complete no line and are all still being written.
pub proof fn lemma_no_newline_no_line(bytes: Seq<u8>)
    requires
        !has_newline(bytes),
    ensures
        finished_lines(bytes) == Seq::<Seq<u8>>::empty(),
        unfinished(bytes) == bytes,
    decreases bytes.len(),
{
    if bytes.len() > 0 {
        let shorter = bytes.drop_last();
        assert(!has_newline(shorter)) by {
            assert(forall|i: int| 0 <= i < shorter.len() ==> shorter[i] == bytes[i]);
        }
        lemma_no_newline_no_line(shorter);
    }
}

/// The line that is still being written holds no newline.
pub proof fn lemma_unfinished_has_no_newline(bytes: Seq<u8>)
    ensures
        !has_newline(unfinished(bytes)),
    decreases bytes.len(),
{
    if bytes.len() > 0 && bytes.last() != NEWLINE {
        lemma_unfinished_has_no_newline(bytes.drop_last());
        let rest = unfinished(bytes.drop_last());
        assert(forall|i: int| 0 <= i < rest.len() ==> rest.push(bytes.last())[i] == rest[i]);
    }
}

/// Nothing is lost, added or reordered: the completed lines, followed by the
/// line that is still being written, are the bytes themselves.
pub proof fn lemma_lines_rebuild(bytes: Seq<u8>)
    ensures
        joined(finished_lines(bytes)) + unfinished(bytes) == bytes,
    decreases bytes.len(),
{
    if bytes.len() > 0 {
        let shorter = bytes.drop_last();
        lemma_lines_rebuild(shorter);
        if bytes.last() == NEWLINE {
            let lines = finished_lines(shorter);
            let line = unfinished(shorter).push(NEWLINE);
            assert(lines.push(line).drop_last() == lines);
            assert(joined(lines) + line == (joined(lines) + unfinished(shorter)).push(NEWLINE));
        } else {
            assert(joined(finished_lines(shorter)) + unfinished(shorter).push(bytes.last())
                == (joined(finished_lines(shorter)) + unfinished(shorter)).push(bytes.last()));
        }
    }
}

/// Every completed line ends with a newline and holds no other: each line is
/// handed over once, whole.
pub proof fn lemma_lines_are_whole(bytes: Seq<u8>, k: int)
    requires
        0 <= k < finished_lines(bytes).len(),
    ensures
        finished_lines(bytes)[k].len() > 0,
        finished_lines(bytes)[k].last() == NEWLINE,
        !has_newline(finished_lines(bytes)[k].drop_last()),
    decreases bytes.len(),
{
    if bytes.len() > 0 {
        let shorter = bytes.drop_last();
        if bytes.last() == NEWLINE {
            if k < finished_lines(shorter).len() {
                lemma_lines_are_whole(shorter, k);
            } else {
                lemma_unfinished_has_no_newline(shorter);
            }
        } else {
            lemma_lines_are_whole(shorter, k);
        }
    }
}

/// Writing `first` and then `second` completes the lines that writing both at
/// once completes, and leaves the same line unfinished.
pub proof fn lemma_lines_of_two_writes(first: Seq<u8>, second: Seq<u8>)
    ensures
        finished_lines(first + second) == finished_lines(first) + finished_lines(
            unfinished(first) + second,
        ),
        unfinished(first + second) == unfinished(unfinished(first) + second),
    decreases second.len(),
{
    if second.len() == 0 {
        lemma_unfinished_has_no_newline(first);
        lemma_no_newline_no_line(unfinished(first));
    } else {
        let shorter = second.drop_last();
        lemma_lines_of_two_writes(first, shorter);
        assert((first + second).drop_last() == first + shorter);
        assert((unfinished(first) + second).drop_last() == unfinished(first) + shorter);
    }
}

/// Joining two lists of lines is joining each and putting the results one
/// after the other.
pub proof fn lemma_joined_append(first: Seq<Seq<u8>>, second: Seq<Seq<u8>>)
    ensures
        joined(first + second) == joined(first) + joined(second),
    decreases second.len(),
{
    if second.len() > 0 {
        lemma_joined_append(first, second.drop_last());
        assert((first + second).drop_last() == first + second.drop_last());
    }
}

/// The console after a run of writes, one after another, that began with
/// `pending` in the buffer: the lines handed to the host so far, and the
/// bytes still in the buffer.
pub open spec fn console_after(pending: Seq<u8>, writes: Seq<Seq<u8>>) -> (Seq<Seq<u8>>, Seq<u8>)
    decreases writes.len(),
{
    if writes.len() == 0 {
        (Seq::empty(), pending)
    } else {
        let (lines, held) = console_after(pending, writes.drop_last());
        (lines + finished_lines(held + writes.last()), unfinished(held + writes.last()))
    }
}

/// However the guest cuts its output into writes, the host is handed the
/// lines of the whole output, each once and in the order written, and the
/// buffer holds what follows the last newline. Put together they are the
/// bytes that were written.
pub proof fn lemma_console_echoes_writes(writes: Seq<Seq<u8>>)
    ensures
        console_after(Seq::empty(), writes).0 == finished_lines(joined(writes)),
        console_after(Seq::empty(), writes).1 == unfinished(joined(writes)),
        joined(console_after(Seq::empty(), writes).0) + console_after(Seq::empty(), writes).1
            == joined(writes),
    decreases writes.len(),
{
    if writes.len() > 0 {
        lemma_console_echoes_writes(writes.drop_last());
        lemma_lines_of_two_writes(joined(writes.drop_last()), writes.last());
    }
    lemma_lines_rebuild(joined(writes));
}

/// The bytes of the line that the guest is still writing.
pub struct ConsoleBuffer {
    pending: Vec<u8>,
}

impl View for ConsoleBuffer {
    type V = Seq<u8>;

    closed spec fn view(&self) -> Seq<u8> {
        self.pending@
    }
}

impl ConsoleBuffer {
    #[verifier::type_invariant]
    spec fn holds_no_newline(self) -> bool {
        !has_newline(self.pending@)
    }

    /// A console to which nothing has been written.
    pub fn new() -> (console: Self)
        ensures
            console@ == Seq::<u8>::empty(),
    {
        ConsoleBuffer { pending: Vec::new() }
    }

    /// How many bytes of the unfinished line are held.
    pub fn len(&self) -> (n: usize)
        ensures
            n == self@.len(),
    {
        self.pending.len()
    }

    /// Takes the bytes that the guest wrote to the console port and returns
    /// the lines that they complete, in order, for the host to put out one by
    /// one. What follows the last newline stays in the buffer.
    pub fn write(&mut self, data: &[u8]) -> (lines: Vec<Vec<u8>>)
        ensures
            line_views(lines@) == finished_lines(old(self)@ + data@),
            final(self)@ == unfinished(old(self)@ + data@),
            !has_newline(final(self)@),
    {
        proof {
            use_type_invariant(&*self);
            lemma_no_newline_no_line(self.pending@);
        }
        let mut pending: Vec<u8> = Vec::new();
        std::mem::swap(&mut pending, &mut self.pending);
        let mut lines: Vec<Vec<u8>> = Vec::new();
        let mut i: usize = 0;
        while i < data.len()
            invariant
                i <= data@.len(),
                line_views(lines@) == finished_lines(old(self)@ + data@.take(i as int)),
                pending@ == unfinished(old(self)@ + data@.take(i as int)),
            decreases data@.len() - i,
        {
            let byte = data[i];
            let ghost seen = old(self)@ + data@.take(i as int);
            assert(old(self)@ + data@.take(i + 1) == seen.push(byte));
            assert(seen.push(byte).drop_last() == seen);
            pending.push(byte);
            if byte == NEWLINE {
                let mut line: Vec<u8> = Vec::new();
                std::mem::swap(&mut line, &mut pending);
                lines.push(line);
            }
            i += 1;
        }
        assert(data@.take(i as int) == data@);
        proof {
            lemma_unfinished_has_no_newline(old(self)@ + data@);
        }
        self.pending = pending;
        lines
    }
}

} // verus!
