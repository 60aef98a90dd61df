//! The engine's line-oriented log form, taken apart into the two streams.

use vstd::prelude::*;

verus! {

/// The line feed.
pub const LF: u8 = 10;

/// The carriage return.
pub const CR: u8 = 13;

/// The length of the first line of `s`: the position of its first line feed,
/// or its length when it has none.
pub open spec fn line_end(s: Seq<u8>) -> int
    decreases s.len(),
{
    if s.len() == 0 || s[0] == LF {
        0
    } else {
        1 + line_end(s.drop_first())
    }
}

/// The first line of `s` without its ending: a line feed, or a carriage
/// return and a line feed. A carriage return that no line feed follows stays.
pub open spec fn first_line(s: Seq<u8>) -> Seq<u8> {
    let end = line_end(s);
    if end < s.len() && end > 0 && s[end - 1] == CR {
        s.take(end - 1)
    } else {
        s.take(end)
    }
}

/// What follows the first line of `s` and its ending.
pub open spec fn after_first_line(s: Seq<u8>) -> Seq<u8> {
    let end = line_end(s);
    if end < s.len() {
        s.skip(end + 1)
    } else {
        Seq::empty()
    }
}

/// The lines of `s`. The last line need not have an ending, and an ending at
/// the very end starts no further line.
pub open spec fn lines_of(s: Seq<u8>) -> Seq<Seq<u8>>
    decreases s.len(),
    via lines_of_decreases
{
    if s.len() == 0 {
        Seq::empty()
    } else {
        seq![first_line(s)] + lines_of(after_first_line(s))
    }
}

#[via_fn]
proof fn lines_of_decreases(s: Seq<u8>) {
    lemma_line_end_bounds(s);
}

/// The first line ends within the log, at a line feed if before the log's
/// end, and holds no line feed.
pub proof fn lemma_line_end_bounds(s: Seq<u8>)
    ensures
        0 <= line_end(s) <= s.len(),
        line_end(s) < s.len() ==> s[line_end(s)] == LF,
        forall|j: int| 0 <= j < line_end(s) ==> s[j] != LF,
    decreases s.len(),
{
    if s.len() == 0 || s[0] == LF {
    } else {
        lemma_line_end_bounds(s.drop_first());
        assert forall|j: int| 0 <= j < line_end(s) implies s[j] != LF by {
            if j > 0 {
                assert(s[j] == s.drop_first()[j - 1]);
            }
        }
    }
}

/// The first position that ends the first line is `line_end`.
pub proof fn lemma_line_end_is(s: Seq<u8>, end: int)
    requires
        0 <= end <= s.len(),
        forall|j: int| 0 <= j < end ==> s[j] != LF,
        end < s.len() ==> s[end] == LF,
    ensures
        line_end(s) == end,
{
    lemma_line_end_bounds(s);
    if line_end(s) < end {
        assert(s[line_end(s)] == LF);
    } else if line_end(s) > end {
        assert(s[end] != LF);
    }
}

/// The digit `1`, which marks a line of standard output.
pub const STDOUT_MARK: u8 = 49;

/// The digit `2`, which marks a line of standard error.
pub const STDERR_MARK: u8 = 50;

/// The space between a line's mark and its text.
pub const SPACE: u8 = 32;

/// Whether `line` is marked as standard output: it begins with `1` and a space.
pub open spec fn is_stdout_line(line: Seq<u8>) -> bool {
    line.len() >= 2 && line[0] == STDOUT_MARK && line[1] == SPACE
}

/// Whether `line` is marked as standard error: it begins with `2` and a space.
pub open spec fn is_stderr_line(line: Seq<u8>) -> bool {
    line.len() >= 2 && line[0] == STDERR_MARK && line[1] == SPACE
}

/// What `line` adds to standard output: its text after the marker and a line
/// feed; an unmarked line counts as standard output, whole.
pub open spec fn stdout_part(line: Seq<u8>) -> Seq<u8> {
    if is_stdout_line(line) {
        line.skip(2).push(LF)
    } else if is_stderr_line(line) {
        Seq::empty()
    } else {
        line.push(LF)
    }
}

/// What `line` adds to standard error: its text after the marker and a line feed.
pub open spec fn stderr_part(line: Seq<u8>) -> Seq<u8> {
    if is_stderr_line(line) {
        line.skip(2).push(LF)
    } else {
        Seq::empty()
    }
}

/// The standard output assembled from `lines`.
pub open spec fn assembled_stdout(lines: Seq<Seq<u8>>) -> Seq<u8>
    decreases lines.len(),
{
    if lines.len() == 0 {
        Seq::empty()
    } else {
        assembled_stdout(lines.drop_last()) + stdout_part(lines.last())
    }
}

/// The standard error assembled from `lines`.
pub open spec fn assembled_stderr(lines: Seq<Seq<u8>>) -> Seq<u8>
    decreases lines.len(),
{
    if lines.len() == 0 {
        Seq::empty()
    } else {
        assembled_stderr(lines.drop_last()) + stderr_part(lines.last())
    }
}

/// `s` without the line feeds at its end.
pub open spec fn without_trailing_newlines(s: Seq<u8>) -> Seq<u8>
    decreases s.len(),
{
    if s.len() > 0 && s.last() == LF {
        without_trailing_newlines(s.drop_last())
    } else {
        s
    }
}

/// The standard output that the log `logs` carries.
pub open spec fn stdout_of(logs: Seq<u8>) -> Seq<u8> {
    without_trailing_newlines(assembled_stdout(lines_of(logs)))
}

/// The standard error that the log `logs` carries.
pub open spec fn stderr_of(logs: Seq<u8>) -> Seq<u8> {
    without_trailing_newlines(assembled_stderr(lines_of(logs)))
}

/// Drops the line feeds at the end of `stream`.
pub fn strip_trailing_newlines(stream: &mut Vec<u8>)
    ensures
        final(stream)@ == without_trailing_newlines(old(stream)@),
{
    while stream.len() > 0 && stream[stream.len() - 1] == LF
        invariant
            without_trailing_newlines(stream@) == without_trailing_newlines(old(stream)@),
        decreases stream@.len(),
    {
        let ghost before = stream@;
        stream.pop();
        assert(stream@ =~= before.drop_last());
    }
}

/// Splits the engine's log into standard output and standard error.
pub fn split_streams(logs: &[u8]) -> (streams: (Vec<u8>, Vec<u8>))
    ensures
        streams.0@ == stdout_of(logs@),
        streams.1@ == stderr_of(logs@),
{
    let n = logs.len();
    let mut stdout: Vec<u8> = Vec::new();
    let mut stderr: Vec<u8> = Vec::new();
    let ghost mut done: Seq<Seq<u8>> = Seq::empty();
    let mut i: usize = 0;
    assert(logs@.skip(0) =~= logs@);
    while i < n
        invariant
            i <= n,
            n == logs@.len(),
            lines_of(logs@) == done + lines_of(logs@.skip(i as int)),
            stdout@ == assembled_stdout(done),
            stderr@ == assembled_stderr(done),
        decreases n - i,
    {
        let ghost rest = logs@.skip(i as int);
        let start = i;
        while i < n && logs[i] != LF
            invariant
                start <= i <= n,
                n == logs@.len(),
                rest == logs@.skip(start as int),
                forall|j: int| 0 <= j < i - start ==> rest[j] != LF,
            decreases n - i,
        {
            i += 1;
        }
        proof {
            lemma_line_end_is(rest, i - start);
        }
        let ended = i < n;
        let mut end = i;
        if ended && end > start && logs[end - 1] == CR {
            end -= 1;
        }
        let ghost line = first_line(rest);
        assert(line =~= logs@.subrange(start as int, end as int));
        let marked = end - start >= 2 && logs[start + 1] == SPACE;
        if marked && logs[start] == STDOUT_MARK {
            let mut k = start + 2;
            while k < end
                invariant
                    start + 2 <= k <= end <= n,
                    n == logs@.len(),
                    stdout@ == assembled_stdout(done) + logs@.subrange(start + 2, k as int),
                decreases end - k,
            {
                stdout.push(logs[k]);
                k += 1;
                assert(stdout@ =~= assembled_stdout(done) + logs@.subrange(start + 2, k as int));
            }
            stdout.push(LF);
            assert(line.skip(2) =~= logs@.subrange(start + 2, end as int));
        } else if marked && logs[start] == STDERR_MARK {
            let mut k = start + 2;
            while k < end
                invariant
                    start + 2 <= k <= end <= n,
                    n == logs@.len(),
                    stderr@ == assembled_stderr(done) + logs@.subrange(start + 2, k as int),
                decreases end - k,
            {
                stderr.push(logs[k]);
                k += 1;
                assert(stderr@ =~= assembled_stderr(done) + logs@.subrange(start + 2, k as int));
            }
            stderr.push(LF);
            assert(line.skip(2) =~= logs@.subrange(start + 2, end as int));
        } else {
            let mut k = start;
            while k < end
                invariant
                    start <= k <= end <= n,
                    n == logs@.len(),
                    stdout@ == assembled_stdout(done) + logs@.subrange(start as int, k as int),
                decreases end - k,
            {
                stdout.push(logs[k]);
                k += 1;
                assert(stdout@ =~= assembled_stdout(done) + logs@.subrange(start as int, k as int));
            }
            stdout.push(LF);
        }
        if ended {
            i += 1;
        }
        proof {
            let pushed = done.push(line);
            assert(pushed.drop_last() =~= done);
            assert(stdout@ =~= assembled_stdout(pushed));
            assert(stderr@ =~= assembled_stderr(pushed));
            assert(after_first_line(rest) =~= logs@.skip(i as int));
            assert(lines_of(logs@) =~= pushed + lines_of(logs@.skip(i as int)));
            done = pushed;
        }
    }
    proof {
        assert(lines_of(logs@.skip(n as int)) =~= Seq::<Seq<u8>>::empty());
        assert(lines_of(logs@) =~= done);
    }
    strip_trailing_newlines(&mut stdout);
    strip_trailing_newlines(&mut stderr);
    (stdout, stderr)
}

/// A piece of a container's output, as the engine hands it over.
#[derive(Debug, Clone, PartialEq, Eq)]
pub enum LogChunk {
    Stdout(Vec<u8>),
    Stderr(Vec<u8>),
}

/// A chunk as contracts see it.
pub enum LogChunkView {
    Stdout(Seq<u8>),
    Stderr(Seq<u8>),
}

impl DeepView for LogChunk {
    type V = LogChunkView;

    open spec fn deep_view(&self) -> LogChunkView {
        match self {
            LogChunk::Stdout(bytes) => LogChunkView::Stdout(bytes@),
            LogChunk::Stderr(bytes) => LogChunkView::Stderr(bytes@),
        }
    }
}

impl LogChunkView {
    /// The digit that marks the lines of this chunk.
    pub open spec fn mark(self) -> u8 {
        match self {
            LogChunkView::Stdout(_) => STDOUT_MARK,
            LogChunkView::Stderr(_) => STDERR_MARK,
        }
    }

    /// The bytes of this chunk.
    pub open spec fn bytes(self) -> Seq<u8> {
        match self {
            LogChunkView::Stdout(bytes) => bytes,
            LogChunkView::Stderr(bytes) => bytes,
        }
    }
}

/// The lines of `chunk` in the line-oriented form: each behind `mark` and a
/// space, each ended by a line feed.
pub open spec fn marked_lines(mark: u8, chunk: Seq<u8>) -> Seq<u8>
    decreases chunk.len(),
    via marked_lines_decreases
{
    if chunk.len() == 0 {
        Seq::empty()
    } else {
        seq![mark, SPACE] + chunk.take(line_end(chunk)) + seq![LF] + marked_lines(
            mark,
            after_first_line(chunk),
        )
    }
}

#[via_fn]
proof fn marked_lines_decreases(mark: u8, chunk: Seq<u8>) {
    lemma_line_end_bounds(chunk);
}

/// The chunks in the line-oriented form, in order.
pub open spec fn framed(chunks: Seq<LogChunkView>) -> Seq<u8>
    decreases chunks.len(),
{
    if chunks.len() == 0 {
        Seq::empty()
    } else {
        framed(chunks.drop_last()) + marked_lines(chunks.last().mark(), chunks.last().bytes())
    }
}

/// A chunk with its last line ended.
pub open spec fn completed(chunk: Seq<u8>) -> Seq<u8> {
    if chunk.len() == 0 || chunk.last() == LF {
        chunk
    } else {
        chunk.push(LF)
    }
}

/// The bytes of the chunks of standard output, each chunk with its last line ended.
pub open spec fn stdout_chunks(chunks: Seq<LogChunkView>) -> Seq<u8>
    decreases chunks.len(),
{
    if chunks.len() == 0 {
        Seq::empty()
    } else {
        stdout_chunks(chunks.drop_last()) + match chunks.last() {
            LogChunkView::Stdout(bytes) => completed(bytes),
            LogChunkView::Stderr(_) => Seq::empty(),
        }
    }
}

/// The bytes of the chunks of standard error, each chunk with its last line ended.
pub open spec fn stderr_chunks(chunks: Seq<LogChunkView>) -> Seq<u8>
    decreases chunks.len(),
{
    if chunks.len() == 0 {
        Seq::empty()
    } else {
        stderr_chunks(chunks.drop_last()) + match chunks.last() {
            LogChunkView::Stdout(_) => Seq::empty(),
            LogChunkView::Stderr(bytes) => completed(bytes),
        }
    }
}

/// No chunk holds a carriage return.
pub open spec fn without_carriage_returns(chunks: Seq<LogChunkView>) -> bool {
    forall|i: int, j: int|
        0 <= i < chunks.len() && 0 <= j < chunks[i].bytes().len() ==> chunks[i].bytes()[j] != CR
}

/// A log that ends with a line feed and is followed by more log has its own
/// lines, followed by those of what follows.
pub proof fn lemma_lines_of_concat(a: Seq<u8>, b: Seq<u8>)
    requires
        a.len() == 0 || a.last() == LF,
    ensures
        lines_of(a + b) == lines_of(a) + lines_of(b),
    decreases a.len(),
{
    if a.len() == 0 {
        assert(a + b =~= b);
        assert(lines_of(a) + lines_of(b) =~= lines_of(b));
    } else {
        let e = line_end(a);
        lemma_line_end_bounds(a);
        assert(e < a.len()) by {
            if e == a.len() {
                assert(a[a.len() - 1] != LF);
            }
        }
        assert forall|j: int| 0 <= j < e implies (a + b)[j] != LF by {
            assert((a + b)[j] == a[j]);
        }
        assert((a + b)[e] == a[e]);
        lemma_line_end_is(a + b, e);
        let rest = after_first_line(a);
        assert(rest =~= a.skip(e + 1));
        assert(rest.len() == 0 || rest.last() == LF) by {
            if rest.len() > 0 {
                assert(rest.last() == a.last());
            }
        }
        assert(first_line(a + b) =~= first_line(a)) by {
            if e > 0 {
                assert((a + b)[e - 1] == a[e - 1]);
            }
            assert((a + b).take(e) =~= a.take(e));
            if e > 0 {
                assert((a + b).take(e - 1) =~= a.take(e - 1));
            }
        }
        assert(after_first_line(a + b) =~= rest + b);
        lemma_lines_of_concat(rest, b);
        assert(lines_of(a + b) =~= lines_of(a) + lines_of(b));
    }
}

/// The streams assembled from two runs of lines are those of the first run
/// followed by those of the second.
pub proof fn lemma_assembled_concat(x: Seq<Seq<u8>>, y: Seq<Seq<u8>>)
    ensures
        assembled_stdout(x + y) == assembled_stdout(x) + assembled_stdout(y),
        assembled_stderr(x + y) == assembled_stderr(x) + assembled_stderr(y),
    decreases y.len(),
{
    if y.len() == 0 {
        assert(x + y =~= x);
        assert(assembled_stdout(x) + assembled_stdout(y) =~= assembled_stdout(x));
        assert(assembled_stderr(x) + assembled_stderr(y) =~= assembled_stderr(x));
    } else {
        assert((x + y).drop_last() =~= x + y.drop_last());
        assert((x + y).last() == y.last());
        lemma_assembled_concat(x, y.drop_last());
        assert(assembled_stdout(x + y) =~= assembled_stdout(x) + assembled_stdout(y));
        assert(assembled_stderr(x + y) =~= assembled_stderr(x) + assembled_stderr(y));
    }
}

/// Marked lines are empty or end with a line feed.
pub proof fn lemma_marked_lines_end(mark: u8, chunk: Seq<u8>)
    ensures
        marked_lines(mark, chunk).len() == 0 || marked_lines(mark, chunk).last() == LF,
    decreases chunk.len(),
{
    if chunk.len() > 0 {
        lemma_line_end_bounds(chunk);
        lemma_marked_lines_end(mark, after_first_line(chunk));
    }
}

/// The line-oriented form of chunks is empty or ends with a line feed.
pub proof fn lemma_framed_end(chunks: Seq<LogChunkView>)
    ensures
        framed(chunks).len() == 0 || framed(chunks).last() == LF,
    decreases chunks.len(),
{
    if chunks.len() > 0 {
        lemma_framed_end(chunks.drop_last());
        lemma_marked_lines_end(chunks.last().mark(), chunks.last().bytes());
    }
}

/// The marked lines of a chunk without carriage returns carry the chunk,
/// with its last line ended, to the stream of their mark and nothing to the
/// other stream.
pub proof fn lemma_marked_lines_carry_chunk(mark: u8, chunk: Seq<u8>)
    requires
        mark == STDOUT_MARK || mark == STDERR_MARK,
        forall|j: int| 0 <= j < chunk.len() ==> chunk[j] != CR,
    ensures
        assembled_stdout(lines_of(marked_lines(mark, chunk))) == if mark == STDOUT_MARK {
            completed(chunk)
        } else {
            Seq::empty()
        },
        assembled_stderr(lines_of(marked_lines(mark, chunk))) == if mark == STDERR_MARK {
            completed(chunk)
        } else {
            Seq::empty()
        },
    decreases chunk.len(),
{
    if chunk.len() == 0 {
        assert(lines_of(marked_lines(mark, chunk)) =~= Seq::<Seq<u8>>::empty());
    } else {
        let e = line_end(chunk);
        lemma_line_end_bounds(chunk);
        let text = chunk.take(e);
        let line = seq![mark, SPACE] + text;
        let head = line + seq![LF];
        let rest = after_first_line(chunk);
        assert(marked_lines(mark, chunk) =~= head + marked_lines(mark, rest));

        // The head is one line.
        assert forall|j: int| 0 <= j < 2 + e implies head[j] != LF by {
            if j >= 2 {
                assert(head[j] == chunk[j - 2]);
            }
        }
        assert(head[2 + e] == LF);
        lemma_line_end_is(head, 2 + e);
        assert(head[2 + e - 1] != CR) by {
            if e > 0 {
                assert(head[2 + e - 1] == chunk[e - 1]);
            }
        }
        assert(first_line(head) =~= line);
        assert(after_first_line(head) =~= Seq::<u8>::empty());
        assert(lines_of(after_first_line(head)) =~= Seq::<Seq<u8>>::empty());
        assert(lines_of(head) =~= seq![line]);

        // The lines of the whole are that line and the lines of the rest.
        lemma_lines_of_concat(head, marked_lines(mark, rest));
        let later = lines_of(marked_lines(mark, rest));
        assert(lines_of(marked_lines(mark, chunk)) == seq![line] + later);
        lemma_assembled_concat(seq![line], later);
        assert(seq![line].drop_last() =~= Seq::<Seq<u8>>::empty());
        assert(seq![line].last() == line);
        assert(assembled_stdout(seq![line].drop_last()) =~= Seq::<u8>::empty());
        assert(assembled_stderr(seq![line].drop_last()) =~= Seq::<u8>::empty());
        assert(assembled_stdout(seq![line]) =~= stdout_part(line));
        assert(assembled_stderr(seq![line]) =~= stderr_part(line));
        assert(line.skip(2) =~= text);

        assert forall|j: int| 0 <= j < rest.len() implies rest[j] != CR by {
            if e < chunk.len() {
                assert(rest[j] == chunk[e + 1 + j]);
            }
        }
        lemma_marked_lines_carry_chunk(mark, rest);

        // The text of the first line, ended, and the rest, completed, are
        // the chunk, completed.
        assert(text.push(LF) + completed(rest) =~= completed(chunk)) by {
            if e < chunk.len() {
                assert(rest =~= chunk.skip(e + 1));
                assert(chunk =~= text.push(LF) + rest);
                if rest.len() > 0 {
                    assert(rest.last() == chunk.last());
                }
            } else {
                assert(text =~= chunk);
                assert(chunk.last() != LF);
            }
        }
        if mark == STDOUT_MARK {
            assert(assembled_stdout(lines_of(marked_lines(mark, chunk))) =~= completed(chunk));
            assert(assembled_stderr(lines_of(marked_lines(mark, chunk))) =~= Seq::<u8>::empty());
        } else {
            assert(assembled_stderr(lines_of(marked_lines(mark, chunk))) =~= completed(chunk));
            assert(assembled_stdout(lines_of(marked_lines(mark, chunk))) =~= Seq::<u8>::empty());
        }
    }
}

/// Taking apart the line-oriented form of chunks without carriage returns
/// gives back the chunks of each stream, joined, without the line feeds at
/// the end.
pub proof fn lemma_framed_streams(chunks: Seq<LogChunkView>)
    requires
        without_carriage_returns(chunks),
    ensures
        assembled_stdout(lines_of(framed(chunks))) == stdout_chunks(chunks),
        assembled_stderr(lines_of(framed(chunks))) == stderr_chunks(chunks),
        stdout_of(framed(chunks)) == without_trailing_newlines(stdout_chunks(chunks)),
        stderr_of(framed(chunks)) == without_trailing_newlines(stderr_chunks(chunks)),
    decreases chunks.len(),
{
    if chunks.len() == 0 {
        assert(lines_of(framed(chunks)) =~= Seq::<Seq<u8>>::empty());
    } else {
        let earlier = chunks.drop_last();
        let last = chunks.last();
        assert(without_carriage_returns(earlier)) by {
            assert forall|i: int, j: int|
                0 <= i < earlier.len() && 0 <= j < earlier[i].bytes().len() implies earlier[i].bytes()[j]
                != CR by {
                assert(earlier[i] == chunks[i]);
            }
        }
        lemma_framed_streams(earlier);
        lemma_framed_end(earlier);
        let tail = marked_lines(last.mark(), last.bytes());
        lemma_lines_of_concat(framed(earlier), tail);
        lemma_assembled_concat(lines_of(framed(earlier)), lines_of(tail));
        assert forall|j: int| 0 <= j < last.bytes().len() implies last.bytes()[j] != CR by {
            assert(chunks[chunks.len() - 1] == last);
        }
        lemma_marked_lines_carry_chunk(last.mark(), last.bytes());
    }
}

/// Appends the lines of `chunk` to `log` in the line-oriented form.
pub fn append_marked_lines(log: &mut Vec<u8>, mark: u8, chunk: &[u8])
    ensures
        final(log)@ == old(log)@ + marked_lines(mark, chunk@),
{
    let n = chunk.len();
    let mut i: usize = 0;
    assert(chunk@.skip(0) =~= chunk@);
    assert(log@ + marked_lines(mark, chunk@) =~= old(log)@ + marked_lines(mark, chunk@));
    while i < n
        invariant
            i <= n,
            n == chunk@.len(),
            log@ + marked_lines(mark, chunk@.skip(i as int)) == old(log)@ + marked_lines(
                mark,
                chunk@,
            ),
        decreases n - i,
    {
        let ghost rest = chunk@.skip(i as int);
        let ghost before = log@;
        let start = i;
        log.push(mark);
        log.push(SPACE);
        while i < n && chunk[i] != LF
            invariant
                start <= i <= n,
                n == chunk@.len(),
                rest == chunk@.skip(start as int),
                forall|j: int| 0 <= j < i - start ==> rest[j] != LF,
                log@ == before + seq![mark, SPACE] + rest.take(i - start),
            decreases n - i,
        {
            log.push(chunk[i]);
            i += 1;
            assert(log@ =~= before + seq![mark, SPACE] + rest.take(i - start));
        }
        proof {
            lemma_line_end_is(rest, i - start);
        }
        log.push(LF);
        if i < n {
            i += 1;
        }
        proof {
            assert(after_first_line(rest) =~= chunk@.skip(i as int));
            assert(log@ + marked_lines(mark, chunk@.skip(i as int)) =~= before + marked_lines(
                mark,
                rest,
            ));
        }
    }
    assert(marked_lines(mark, chunk@.skip(n as int)) =~= Seq::<u8>::empty());
    assert(log@ =~= log@ + marked_lines(mark, chunk@.skip(n as int)));
}

/// Writes the chunks in the line-oriented form, in order.
pub fn frame_chunks(chunks: &Vec<LogChunk>) -> (log: Vec<u8>)
    ensures
        log@ == framed(chunks.deep_view()),
{
    let mut log: Vec<u8> = Vec::new();
    let mut i: usize = 0;
    assert(chunks.deep_view().take(0) =~= Seq::<LogChunkView>::empty());
    while i < chunks.len()
        invariant
            i <= chunks@.len(),
            log@ == framed(chunks.deep_view().take(i as int)),
        decreases chunks@.len() - i,
    {
        let ghost seen = chunks.deep_view().take(i + 1);
        assert(seen.drop_last() =~= chunks.deep_view().take(i as int));
        assert(seen.last() == chunks@[i as int].deep_view());
        match &chunks[i] {
            LogChunk::Stdout(bytes) => append_marked_lines(&mut log, STDOUT_MARK, bytes.as_slice()),
            LogChunk::Stderr(bytes) => append_marked_lines(&mut log, STDERR_MARK, bytes.as_slice()),
        }
        i += 1;
    }
    assert(chunks.deep_view().take(i as int) =~= chunks.deep_view());
    log
}

} // verus!
