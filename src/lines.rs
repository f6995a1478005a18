use vstd::prelude::*;
use crate::log::{
    AV_LOG_QUIET, Level, LevelFilter, allows, filter_of_native, level_of_filter, native_of_filter,
    pass_level, passes,
};

verus! {

broadcast use vstd::string::group_string_axioms;

/// The pieces of `s` between line terminators, in order: one more than the
/// number of terminators in `s`. The last piece is what follows the last
/// terminator, empty when `s` ends with one.
pub open spec fn fragments(s: Seq<char>) -> Seq<Seq<char>>
    decreases s.len(),
{
    if s.len() == 0 {
        seq![Seq::empty()]
    } else {
        let f = fragments(s.drop_last());
        if s.last() == '\n' {
            f.push(Seq::empty())
        } else {
            f.update(f.len() - 1, f.last().push(s.last()))
        }
    }
}

/// The pieces of `f` put back together with a line terminator between each
/// two.
pub open spec fn join_lines(f: Seq<Seq<char>>) -> Seq<char>
    decreases f.len(),
{
    if f.len() == 0 {
        Seq::empty()
    } else if f.len() == 1 {
        f[0]
    } else {
        join_lines(f.drop_last()) + seq!['\n'] + f.last()
    }
}

pub open spec fn has_newline(s: Seq<char>) -> bool {
    exists|k: int| 0 <= k < s.len() && s[k] == '\n'
}

/// The complete lines that feeding `text` to a buffer holding `pending`
/// emits, in order.
pub open spec fn emitted(pending: Seq<char>, text: Seq<char>) -> Seq<Seq<char>> {
    fragments(pending + text).drop_last()
}

/// What a buffer holding `pending` holds after `text` is fed to it.
pub open spec fn kept(pending: Seq<char>, text: Seq<char>) -> Seq<char> {
    fragments(pending + text).last()
}

/// One log record: a complete line at a level.
#[derive(Clone, Debug, PartialEq, Eq)]
pub struct Record {
    pub level: Level,
    pub text: String,
}

/// Whether `records` are the lines `lines`, each at `level`.
pub open spec fn records_are(records: Seq<Record>, level: Level, lines: Seq<Seq<char>>) -> bool {
    &&& records.len() == lines.len()
    &&& forall|i: int|
        0 <= i < records.len() ==> (#[trigger] records[i]).level == level && records[i].text@
            == lines[i]
}

/// The partial line that one thread's log messages have left so far.
pub struct LineBuffer {
    pending: String,
}

impl View for LineBuffer {
    type V = Seq<char>;

    closed spec fn view(&self) -> Seq<char> {
        self.pending@
    }
}

impl LineBuffer {
    /// A partial line never holds a line terminator.
    pub open spec fn wf(&self) -> bool {
        !has_newline(self@)
    }

    /// An empty buffer.
    pub fn new() -> (r: LineBuffer)
        ensures
            r@ == Seq::<char>::empty(),
            r.wf(),
    {
        LineBuffer { pending: String::new() }
    }

    /// The partial line held so far.
    pub fn pending(&self) -> (r: &str)
        ensures
            r@ == self@,
    {
        self.pending.as_str()
    }

    /// Feeds one rendered message to the buffer. Each line that the message
    /// completes is returned as a record at `level`, the first of them
    /// prefixed with what the buffer held; what follows the message's last
    /// terminator stays in the buffer.
    pub fn feed(&mut self, level: Level, text: &str) -> (r: Vec<Record>)
        requires
            old(self).wf(),
        ensures
            final(self).wf(),
            final(self)@ == kept(old(self)@, text@),
            records_are(r@, level, emitted(old(self)@, text@)),
    {
        let ghost p = self@;
        let n = text.unicode_len();
        let mut records: Vec<Record> = Vec::new();
        let mut current = self.pending.clone();
        let mut start: usize = 0;
        let mut i: usize = 0;
        proof {
            lemma_no_newline_single(p);
            assert(p + text@.take(0) =~= p);
        }
        for c in it: text.chars()
            invariant
                it.seq() == text@,
                i == it.index(),
                n == text@.len(),
                start <= i <= n,
                fragments(p + text@.take(i as int)) == records@.map_values(|r: Record| r.text@)
                    + seq![current@ + text@.subrange(start as int, i as int)],
                forall|j: int| 0 <= j < records@.len() ==> (#[trigger] records@[j]).level == level,
        {
            proof {
                let s = p + text@.take(i as int);
                let s2 = p + text@.take(i + 1);
                assert(s2.drop_last() =~= s);
                assert(s2.last() == c);
                assert(text@.subrange(start as int, i + 1) =~= text@.subrange(
                    start as int,
                    i as int,
                ).push(c));
            }
            if c == '\n' {
                let piece = text.substring_char(start, i);
                current.append(piece);
                let ghost before = records@;
                let ghost line = current@;
                records.push(Record { level, text: current });
                current = String::new();
                start = i + 1;
                proof {
                    assert(records@.map_values(|r: Record| r.text@) =~= before.map_values(
                        |r: Record| r.text@,
                    ).push(line));
                    assert(text@.subrange(start as int, i + 1) =~= Seq::<char>::empty());
                }
            }
            i = i + 1;
            proof {
                let f = fragments(p + text@.take(i as int));
                assert(f.drop_last() =~= records@.map_values(|r: Record| r.text@));
            }
        }
        let rest = text.substring_char(start, n);
        current.append(rest);
        self.pending = current;
        proof {
            assert(text@.take(n as int) =~= text@);
            let f = fragments(p + text@);
            lemma_fragments_no_newline(p + text@);
            assert(f.last() == f[f.len() - 1]);
            assert(f.drop_last() =~= records@.map_values(|r: Record| r.text@));
        }
        records
    }
}

/// Hands one native log message to the calling thread's buffer. A message
/// whose severity code has no level, or whose level is more verbose than
/// `threshold`, is dropped and leaves the buffer as it was; any other is fed
/// to the buffer at its level.
pub fn handle_message(buf: &mut LineBuffer, threshold: LevelFilter, native: i32, text: &str) -> (r:
    Vec<Record>)
    requires
        old(buf).wf(),
    ensures
        final(buf).wf(),
        match passes(threshold, native) {
            Some(level) => final(buf)@ == kept(old(buf)@, text@) && records_are(
                r@,
                level,
                emitted(old(buf)@, text@),
            ),
            None => final(buf)@ == old(buf)@ && r@.len() == 0,
        },
{
    match pass_level(threshold, native) {
        Some(level) => buf.feed(level, text),
        None => Vec::new(),
    }
}

/// A sequence without terminators is a single piece.
pub proof fn lemma_no_newline_single(s: Seq<char>)
    requires
        !has_newline(s),
    ensures
        fragments(s) == seq![s],
    decreases s.len(),
{
    if s.len() == 0 {
        assert(s =~= Seq::<char>::empty());
    } else {
        let t = s.drop_last();
        assert(!has_newline(t)) by {
            if has_newline(t) {
                let k = choose|k: int| 0 <= k < t.len() && t[k] == '\n';
                assert(s[k] == '\n');
            }
        }
        lemma_no_newline_single(t);
        assert(s.last() != '\n') by {
            assert(s[s.len() - 1] == s.last());
        }
        assert(t.push(s.last()) =~= s);
        let f = fragments(t);
        assert(f.len() == 1 && f.last() == t);
        assert(f.update(0, t.push(s.last())) =~= seq![s]);
    }
}

/// No piece holds a line terminator, and there is always at least one.
pub proof fn lemma_fragments_no_newline(s: Seq<char>)
    ensures
        fragments(s).len() >= 1,
        forall|j: int| 0 <= j < fragments(s).len() ==> !has_newline(#[trigger] fragments(s)[j]),
    decreases s.len(),
{
    if s.len() > 0 {
        let t = s.drop_last();
        lemma_fragments_no_newline(t);
        let f = fragments(t);
        if s.last() != '\n' {
            let g = fragments(s);
            assert forall|j: int| 0 <= j < g.len() implies !has_newline(#[trigger] g[j]) by {
                if j == f.len() - 1 {
                    let x = f.last().push(s.last());
                    assert(g[j] == x);
                    if has_newline(x) {
                        let k = choose|k: int| 0 <= k < x.len() && x[k] == '\n';
                        assert(f[f.len() - 1][k] == '\n');
                    }
                } else {
                    assert(g[j] == f[j]);
                }
            }
        } else {
            let g = fragments(s);
            assert forall|j: int| 0 <= j < g.len() implies !has_newline(#[trigger] g[j]) by {
                if j < f.len() {
                    assert(g[j] == f[j]);
                }
            }
        }
    }
}

/// Putting the pieces back together with terminators gives the text back.
pub proof fn lemma_join_fragments(s: Seq<char>)
    ensures
        join_lines(fragments(s)) == s,
    decreases s.len(),
{
    if s.len() == 0 {
        assert(s =~= Seq::<char>::empty());
    } else {
        let t = s.drop_last();
        let c = s.last();
        lemma_join_fragments(t);
        lemma_fragments_no_newline(t);
        let f = fragments(t);
        let g = fragments(s);
        assert(t.push(c) =~= s);
        if c == '\n' {
            assert(g.drop_last() =~= f);
            assert(join_lines(f) + seq!['\n'] + Seq::<char>::empty() =~= s);
        } else if f.len() == 1 {
            assert(join_lines(f) == f[0]);
            assert(g.len() == 1);
            assert(g[0] =~= s);
        } else {
            assert(g.drop_last() =~= f.drop_last());
            assert(join_lines(g) == join_lines(f.drop_last()) + seq!['\n'] + f.last().push(c));
            assert(join_lines(f.drop_last()) + seq!['\n'] + f.last().push(c) =~= (join_lines(
                f.drop_last(),
            ) + seq!['\n'] + f.last()).push(c));
        }
    }
}

/// A buffer's records and what it keeps are made of its own partial line and
/// the message fed to it, and nothing else: joined with terminators they give
/// exactly that input back, and no record holds a terminator. A buffer
/// serves one thread, so lines of two threads never meet in one record.
pub proof fn lemma_records_from_own_input(pending: Seq<char>, text: Seq<char>)
    ensures
        join_lines(emitted(pending, text).push(kept(pending, text))) == pending + text,
        forall|j: int|
            0 <= j < emitted(pending, text).len() ==> !has_newline(
                #[trigger] emitted(pending, text)[j],
            ),
{
    let f = fragments(pending + text);
    lemma_fragments_no_newline(pending + text);
    lemma_join_fragments(pending + text);
    assert(f.drop_last().push(f.last()) =~= f);
    assert forall|j: int| 0 <= j < emitted(pending, text).len() implies !has_newline(
        #[trigger] emitted(pending, text)[j],
    ) by {
        assert(emitted(pending, text)[j] == f[j]);
    }
}

/// An empty message emits nothing and leaves the buffer as it was.
pub proof fn lemma_empty_message(pending: Seq<char>)
    requires
        !has_newline(pending),
    ensures
        emitted(pending, Seq::empty()).len() == 0,
        kept(pending, Seq::empty()) == pending,
{
    assert(pending + Seq::<char>::empty() =~= pending);
    lemma_no_newline_single(pending);
}

/// A message whose level is more verbose than the threshold is dropped, so
/// `handle_message` emits no record for it and leaves the buffer untouched.
pub proof fn lemma_below_threshold_dropped(threshold: LevelFilter, native: i32, level: Level)
    requires
        level_of_filter(filter_of_native(native)) == Some(level),
        !allows(threshold, level),
    ensures
        passes(threshold, native).is_none(),
{
}

/// With the host threshold `Off`, registration installs the native library's
/// quietest setting and every message is dropped, whatever its severity.
pub proof fn lemma_off_silences(native: i32)
    ensures
        native_of_filter(LevelFilter::Off) == AV_LOG_QUIET,
        passes(LevelFilter::Off, native).is_none(),
{
}

} // verus!
