//! The log presenter: merges interleaved lines from many containers into
//! grouped blocks. Consecutive lines of one container continue its block;
//! a change of speaker closes the block (when it ran longer than one line)
//! and opens a new one under the next container's name; blank lines are
//! suppressed. What to print is returned as data so the caller can style
//! and write it.
use vstd::prelude::*;

use crate::text::is_blank;
use crate::text::is_blank_str;
use crate::text::pad_right;
use crate::text::spaces;
use crate::text::trim_newlines;
use crate::text::trim_nl;

verus! {

/// One line of grouped output.
#[derive(Debug)]
pub enum LogLine {
    /// Opens a block: the speaking container's name, then its first line.
    Start { name: String, msg: String },
    /// Continues the current block with one more line.
    Mid { msg: String },
    /// Closes a block that ran longer than one line.
    End,
}

/// The mathematical reading of one output line.
pub enum LogLineView {
    Start { name: Seq<char>, msg: Seq<char> },
    Mid { msg: Seq<char> },
    End,
}

impl View for LogLine {
    type V = LogLineView;

    open spec fn view(&self) -> LogLineView {
        match self {
            LogLine::Start { name, msg } => LogLineView::Start { name: name@, msg: msg@ },
            LogLine::Mid { msg } => LogLineView::Mid { msg: msg@ },
            LogLine::End => LogLineView::End,
        }
    }
}

pub open spec fn log_line_views(lines: Seq<LogLine>) -> Seq<LogLineView> {
    Seq::new(lines.len(), |i: int| lines[i]@)
}

/// The plain-text rendering of one line: the opener puts the name in a
/// 20-column gutter before the message, a continuation puts the
/// block-drawing bar there, and the closer is the bar's foot.
pub open spec fn spec_render_line(line: LogLineView) -> Seq<char> {
    match line {
        LogLineView::Start { name, msg } => if name.len() >= 20 {
            name + msg
        } else {
            name + spaces(20 - name.len()) + msg
        },
        LogLineView::Mid { msg } => " \u{2503}"@ + spaces(18) + msg,
        LogLineView::End => " \u{2517}\u{2501}\u{2501}"@,
    }
}

impl LogLine {
    /// The plain text of this line, for the caller to style and print.
    pub fn render(&self) -> (r: String)
        ensures
            r@ == spec_render_line(self@),
    {
        match self {
            LogLine::Start { name, msg } => {
                let gutter = pad_right(name.as_str(), 20);
                gutter.concat(msg.as_str())
            },
            LogLine::Mid { msg } => {
                let gutter = pad_right(" \u{2503}", 20);
                proof {
                    reveal_strlit(" \u{2503}");
                    assert(gutter@ =~= " \u{2503}"@ + spaces(18));
                }
                gutter.concat(msg.as_str())
            },
            LogLine::End => " \u{2517}\u{2501}\u{2501}".to_owned(),
        }
    }
}

/// The presenter's state: which container spoke last, and whether its
/// block already ran longer than one line.
pub struct DialogView {
    pub current_id: Option<int>,
    pub continued: bool,
}

/// What one raw line makes the presenter emit, before its state moves on:
/// nothing while the speaker holds the floor but a continuation line;
/// otherwise the close of the previous block (if it ran longer than one
/// line) and the opening of the new speaker's block.
pub open spec fn spec_emit(d: DialogView, id: int, name: Seq<char>, msg: Seq<char>) -> Seq<
    LogLineView,
> {
    if d.current_id == Some(id) {
        seq![LogLineView::Mid { msg }]
    } else {
        (if d.current_id is Some && d.continued {
            seq![LogLineView::End]
        } else {
            Seq::empty()
        }) + seq![LogLineView::Start { name, msg }]
    }
}

/// The presenter's state after one line: the speaker is the line's
/// container, and the block is a continuation exactly when the speaker
/// held the floor already.
pub open spec fn spec_advance(d: DialogView, id: int) -> DialogView {
    DialogView { current_id: Some(id), continued: d.current_id == Some(id) }
}

/// The grouping console presenter.
#[derive(Debug)]
pub struct Dialogger {
    pub dia_len: usize,
    pub current_id: Option<usize>,
}

impl View for Dialogger {
    type V = DialogView;

    open spec fn view(&self) -> DialogView {
        DialogView {
            current_id: match self.current_id {
                Some(i) => Some(i as int),
                None => None,
            },
            continued: self.dia_len > 0,
        }
    }
}

impl Dialogger {
    pub fn new() -> (r: Self)
        ensures
            r@ == (DialogView { current_id: None, continued: false }),
    {
        Dialogger { dia_len: 0, current_id: None }
    }

    /// Moves the floor to the given container: the block length grows while
    /// one container keeps speaking and resets when the speaker changes.
    pub fn with_id(self, id: usize) -> (r: Self)
        ensures
            r@ == spec_advance(self@, id as int),
    {
        let same = match self.current_id {
            Some(c) => c == id,
            None => false,
        };
        let dia_len: usize = if same {
            if self.dia_len < usize::MAX {
                self.dia_len + 1
            } else {
                self.dia_len
            }
        } else {
            0
        };
        Dialogger { dia_len, current_id: Some(id) }
    }

    /// Takes one line as the given container's speech and returns what to
    /// print for it.
    pub fn log(self, id: usize, name: &str, msg: String) -> (r: (Self, Vec<LogLine>))
        ensures
            r.0@ == spec_advance(self@, id as int),
            log_line_views(r.1@) == spec_emit(self@, id as int, name@, msg@),
    {
        let mut out: Vec<LogLine> = Vec::new();
        let same = match self.current_id {
            Some(c) => c == id,
            None => false,
        };
        if same {
            out.push(LogLine::Mid { msg });
            proof {
                assert(log_line_views(out@) =~= spec_emit(self@, id as int, name@, msg@));
            }
        } else {
            if self.current_id.is_some() && self.dia_len > 0 {
                out.push(LogLine::End);
            }
            let ghost pre = log_line_views(out@);
            let opener = LogLine::Start { name: name.to_owned(), msg };
            out.push(opener);
            proof {
                assert(log_line_views(out@) =~= pre.push(opener@));
                assert(log_line_views(out@) =~= spec_emit(self@, id as int, name@, msg@));
            }
        }
        (self.with_id(id), out)
    }

    /// What closing the stream emits: the foot of the last block, when that
    /// block ran longer than one line.
    pub open spec fn spec_print_end(d: DialogView) -> Seq<LogLineView> {
        if d.continued {
            seq![LogLineView::End]
        } else {
            Seq::empty()
        }
    }

    /// Closes the current block at end of stream.
    pub fn print_end(&self) -> (r: Option<LogLine>)
        ensures
            match r {
                Some(line) => Self::spec_print_end(self@) == seq![line@],
                None => Self::spec_print_end(self@) == Seq::<LogLineView>::empty(),
            },
    {
        if self.dia_len > 0 {
            proof {
                assert(Self::spec_print_end(self@) =~= seq![LogLineView::End]);
            }
            Some(LogLine::End)
        } else {
            proof {
                assert(Self::spec_print_end(self@) =~= Seq::<LogLineView>::empty());
            }
            None
        }
    }
}

/// One raw line arriving from a container's log stream.
#[derive(Debug)]
pub struct LogEntry {
    pub id: usize,
    pub name: String,
    pub msg: String,
}

pub struct LogEntryView {
    pub id: int,
    pub name: Seq<char>,
    pub msg: Seq<char>,
}

impl View for LogEntry {
    type V = LogEntryView;

    open spec fn view(&self) -> LogEntryView {
        LogEntryView { id: self.id as int, name: self.name@, msg: self.msg@ }
    }
}

pub open spec fn log_entry_views(entries: Seq<LogEntry>) -> Seq<LogEntryView> {
    Seq::new(entries.len(), |i: int| entries[i]@)
}

/// The whole presentation of a line sequence from a given state: blank
/// lines (empty or whitespace-only) are dropped without touching the
/// state; any other line is shown trimmed of leading and trailing
/// newlines.
pub open spec fn spec_feed_all(d: DialogView, entries: Seq<LogEntryView>) -> (DialogView, Seq<
    LogLineView,
>)
    decreases entries.len(),
{
    if entries.len() == 0 {
        (d, Seq::empty())
    } else {
        let e = entries.first();
        if is_blank(e.msg) {
            spec_feed_all(d, entries.drop_first())
        } else {
            let emitted = spec_emit(d, e.id, e.name, trim_nl(e.msg));
            let rest = spec_feed_all(spec_advance(d, e.id), entries.drop_first());
            (rest.0, emitted + rest.1)
        }
    }
}

/// Everything a finite line sequence makes the presenter print, last block
/// closed: one block per maximal run of consecutive lines from one
/// container, opened under its name, continued line by line, and closed
/// before the next speaker (and at end of stream) whenever it ran longer
/// than one line.
pub open spec fn spec_present(entries: Seq<LogEntryView>) -> Seq<LogLineView> {
    let fed = spec_feed_all(DialogView { current_id: None, continued: false }, entries);
    fed.1 + Dialogger::spec_print_end(fed.0)
}

/// Presents a finite sequence of raw lines as grouped blocks.
pub fn multiplex_all(entries: Vec<LogEntry>) -> (r: Vec<LogLine>)
    ensures
        log_line_views(r@) == spec_present(log_entry_views(entries@)),
{
    let ghost orig = log_entry_views(entries@);
    let ghost total = orig.len();
    let ghost start = (DialogView { current_id: None, continued: false });
    let mut rem = entries;
    let mut out: Vec<LogLine> = Vec::new();
    let mut logger = Dialogger::new();
    while rem.len() > 0
        invariant
            total == orig.len(),
            log_entry_views(rem@) =~= orig.skip(total as int - rem@.len() as int),
            rem@.len() <= total,
            start == (DialogView { current_id: None, continued: false }),
            spec_feed_all(logger@, log_entry_views(rem@)).0 == spec_feed_all(start, orig).0,
            log_line_views(out@) + spec_feed_all(logger@, log_entry_views(rem@)).1
                =~= spec_feed_all(start, orig).1,
        decreases rem.len(),
    {
        let ghost done = total as int - rem@.len() as int;
        let ghost prev = rem@;
        let ghost suffix = log_entry_views(rem@);
        let entry = rem.remove(0);
        proof {
            assert(suffix[0] == orig.skip(done)[0]);
            assert(orig.skip(done)[0] == orig[done]);
            assert(entry@ == suffix[0]);
            assert forall|k: int| 0 <= k < rem@.len() implies log_entry_views(rem@)[k]
                == orig.skip(done + 1)[k] by {
                assert(rem@[k] == prev[k + 1]);
                assert(log_entry_views(prev)[k + 1] == orig.skip(done)[k + 1]);
            }
            assert(log_entry_views(rem@) =~= orig.skip(done + 1));
            assert(suffix.first() == entry@);
            assert(suffix.drop_first() =~= log_entry_views(rem@));
        }
        let LogEntry { id, name, msg } = entry;
        let blank = is_blank_str(msg.as_str());
        let trimmed = trim_newlines(msg.as_str());
        if !blank {
            let ghost pre_logger = logger@;
            let ghost pre_out = log_line_views(out@);
            let (next, mut lines) = logger.log(id, name.as_str(), trimmed);
            logger = next;
            let ghost emitted = log_line_views(lines@);
            out.append(&mut lines);
            proof {
                assert(log_line_views(out@) =~= pre_out + emitted);
                assert(emitted == spec_emit(pre_logger, entry@.id, entry@.name, trim_nl(
                    entry@.msg,
                )));
                assert(logger@ == spec_advance(pre_logger, entry@.id));
                assert(spec_feed_all(pre_logger, suffix).0 == spec_feed_all(
                    logger@,
                    log_entry_views(rem@),
                ).0);
                assert(spec_feed_all(pre_logger, suffix).1 == emitted + spec_feed_all(
                    logger@,
                    log_entry_views(rem@),
                ).1);
            }
        } else {
            proof {
                assert(spec_feed_all(logger@, suffix) == spec_feed_all(
                    logger@,
                    log_entry_views(rem@),
                ));
            }
        }
    }
    proof {
        assert(log_entry_views(rem@).len() == 0);
    }
    match logger.print_end() {
        Some(line) => {
            let ghost pre = log_line_views(out@);
            out.push(line);
            proof {
                assert(log_line_views(out@) =~= pre.push(line@));
                assert(log_line_views(out@) =~= spec_present(orig));
            }
        },
        None => {
            proof {
                assert(log_line_views(out@) + Seq::<LogLineView>::empty() =~= log_line_views(
                    out@,
                ));
                assert(log_line_views(out@) =~= spec_present(orig));
            }
        },
    }
    out
}

} // verus!
