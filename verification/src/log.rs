//! A tiny log buffer and download progress. Every line is kept so that the in-app console can
//! show it, and is handed back with the severity under which the terminal mirrors it. Download progress is tracked
//! separately for the UI bar and a CLI bar.

use vstd::prelude::*;
use vstd::string::*;

use crate::text::{decimal, decimal_text, join, joined, opt_text, pad_left, padded, texts};

verus! {

broadcast use vstd::seq::group_seq_axioms;

/// Where a line comes from and how grave it is.
#[derive(Clone, Copy, PartialEq, Eq, Structural, Debug)]
pub enum Level {
    Info,
    Warn,
    Error,
    Game,
}

/// A line of the log.
pub struct Line {
    pub level: Level,
    pub text: String,
}

impl Clone for Line {
    fn clone(&self) -> (r: Line)
        ensures
            r == *self,
    {
        Line { level: self.level, text: self.text.clone() }
    }
}

/// How many lines are kept.
pub const MAX_LINES: usize = 5000;

/// The severity under which the terminal shows a line.
#[derive(Clone, Copy, PartialEq, Eq, Structural, Debug)]
pub enum Severity {
    Info,
    Warn,
    Error,
}

/// The severity under which the terminal shows a line of the given level. The game's own output
/// counts as information.
pub open spec fn severity_of(level: Level) -> Severity {
    match level {
        Level::Info => Severity::Info,
        Level::Game => Severity::Info,
        Level::Warn => Severity::Warn,
        Level::Error => Severity::Error,
    }
}

/// The severity under which the terminal shows a line of the given level.
pub fn severity(level: Level) -> (r: Severity)
    ensures
        r == severity_of(level),
{
    match level {
        Level::Info | Level::Game => Severity::Info,
        Level::Warn => Severity::Warn,
        Level::Error => Severity::Error,
    }
}

/// What the terminal shows of a line: one message, with nothing beside its text.
pub struct Mirrored {
    pub severity: Severity,
    pub text: String,
}

impl Mirrored {
    /// Whether this is what the terminal shows of `line`.
    pub open spec fn is_of(self, line: Line) -> bool {
        self.severity == severity_of(line.level) && self.text@ == line.text@
    }
}

/// The log: at most `MAX_LINES` lines, oldest first.
pub struct Bus {
    lines: Vec<Line>,
}

impl View for Bus {
    type V = Seq<Line>;

    closed spec fn view(&self) -> Seq<Line> {
        self.lines@
    }
}

impl Bus {
    #[verifier::type_invariant]
    spec fn well_formed(self) -> bool {
        self.lines@.len() <= MAX_LINES
    }

    /// An empty log.
    pub fn new() -> (r: Bus)
        ensures
            r@ == Seq::<Line>::empty(),
    {
        Bus { lines: Vec::new() }
    }
}

/// The last `max` lines, or all where there are fewer.
pub open spec fn last_lines(lines: Seq<Line>, max: int) -> Seq<Line> {
    if lines.len() <= max {
        lines
    } else {
        lines.skip(lines.len() - max)
    }
}

/// The log after a line was added: beyond `MAX_LINES` the oldest are dropped.
pub open spec fn pushed(lines: Seq<Line>, line: Line) -> Seq<Line> {
    last_lines(lines.push(line), MAX_LINES as int)
}

/// Adds a line. Returns what the terminal shows of it.
pub fn push(bus: &mut Bus, level: Level, text: String) -> (r: Mirrored)
    ensures
        r.is_of((Line { level, text })),
        final(bus)@ == pushed(old(bus)@, (Line { level, text })),
        final(bus)@.len() <= MAX_LINES,
{
    proof {
        use_type_invariant(&*bus);
    }
    let mirrored = Mirrored { severity: severity(level), text: text.clone() };
    let mut lines: Vec<Line> = Vec::new();
    std::mem::swap(&mut lines, &mut bus.lines);
    lines.push(Line { level, text });
    if lines.len() > MAX_LINES {
        let _ = lines.remove(0);
    }
    assert(lines@ =~= pushed(old(bus)@, (Line { level, text })));
    bus.lines = lines;
    mirrored
}

/// Adds a line of information. Returns what the terminal shows of it.
pub fn info(bus: &mut Bus, text: String) -> (r: Mirrored)
    ensures
        r.is_of((Line { level: Level::Info, text })),
        final(bus)@ == pushed(old(bus)@, (Line { level: Level::Info, text })),
{
    push(bus, Level::Info, text)
}

/// Adds a warning. Returns what the terminal shows of it.
pub fn warn(bus: &mut Bus, text: String) -> (r: Mirrored)
    ensures
        r.is_of((Line { level: Level::Warn, text })),
        final(bus)@ == pushed(old(bus)@, (Line { level: Level::Warn, text })),
{
    push(bus, Level::Warn, text)
}

/// Adds an error. Returns what the terminal shows of it.
pub fn error(bus: &mut Bus, text: String) -> (r: Mirrored)
    ensures
        r.is_of((Line { level: Level::Error, text })),
        final(bus)@ == pushed(old(bus)@, (Line { level: Level::Error, text })),
{
    push(bus, Level::Error, text)
}

/// Adds a line of the game's output. Returns what the terminal shows of it.
pub fn game(bus: &mut Bus, text: String) -> (r: Mirrored)
    ensures
        r.is_of((Line { level: Level::Game, text })),
        final(bus)@ == pushed(old(bus)@, (Line { level: Level::Game, text })),
{
    push(bus, Level::Game, text)
}

/// Copies at most `max` of the most recent lines (cheap enough for the UI).
pub fn tail(bus: &Bus, max: usize) -> (r: Vec<Line>)
    ensures
        r@ == last_lines(bus@, max as int),
{
    let n = bus.lines.len();
    let start: usize = if n > max {
        n - max
    } else {
        0
    };
    let mut out: Vec<Line> = Vec::new();
    let mut i: usize = start;
    while i < n
        invariant
            start <= i <= n,
            n == bus.lines@.len(),
            out@ == bus.lines@.subrange(start as int, i as int),
        decreases n - i,
    {
        out.push(bus.lines[i].clone());
        i += 1;
        assert(out@ =~= bus.lines@.subrange(start as int, i as int));
    }
    assert(out@ =~= last_lines(bus@, max as int));
    out
}

/// How many lines there are.
pub fn len(bus: &Bus) -> (r: usize)
    ensures
        r == bus@.len(),
        r <= MAX_LINES,
{
    proof {
        use_type_invariant(bus);
    }
    bus.lines.len()
}

/// The texts of a list of lines.
pub open spec fn line_texts(lines: Seq<Line>) -> Seq<Seq<char>> {
    Seq::new(lines.len(), |i: int| lines[i].text@)
}

/// All lines as one text.
pub fn all_text(bus: &Bus) -> (r: String)
    ensures
        r@ == joined(line_texts(bus@), "\n"@),
{
    let mut parts: Vec<String> = Vec::new();
    let mut i: usize = 0;
    while i < bus.lines.len()
        invariant
            i <= bus.lines@.len(),
            texts(parts@) == line_texts(bus.lines@).take(i as int),
        decreases bus.lines@.len() - i,
    {
        let ghost before = texts(parts@);
        parts.push(bus.lines[i].text.clone());
        assert(texts(parts@) =~= before.push(bus.lines@[i as int].text@));
        i += 1;
        assert(texts(parts@) =~= line_texts(bus.lines@).take(i as int));
    }
    assert(texts(parts@) =~= line_texts(bus@));
    join(&parts, "\n")
}

/// Drops every line.
pub fn clear(bus: &mut Bus)
    ensures
        final(bus)@ == Seq::<Line>::empty(),
{
    bus.lines = Vec::new();
}

/// The log after several lines were added, one after the other.
pub open spec fn pushed_all(lines: Seq<Line>, more: Seq<Line>) -> Seq<Line>
    decreases more.len(),
{
    if more.len() == 0 {
        lines
    } else {
        pushed(pushed_all(lines, more.drop_last()), more.last())
    }
}

/// Nothing but the oldest lines is ever lost: after any number of additions the log holds the most
/// recent `MAX_LINES` lines of all that were added, in the order in which they came.
pub proof fn law_log_keeps_the_most_recent(lines: Seq<Line>, more: Seq<Line>)
    requires
        lines.len() <= MAX_LINES,
    ensures
        pushed_all(lines, more) == last_lines(lines + more, MAX_LINES as int),
        pushed_all(lines, more).len() <= MAX_LINES,
    decreases more.len(),
{
    let max = MAX_LINES as int;
    if more.len() == 0 {
        assert(lines + more =~= lines);
    } else {
        let front = more.drop_last();
        law_log_keeps_the_most_recent(lines, front);
        assert((lines + more) =~= (lines + front).push(more.last()));
        assert(pushed(last_lines(lines + front, max), more.last()) =~= last_lines(
            (lines + front).push(more.last()),
            max,
        ));
    }
}

// ---- download progress --------------------------------------------------

/// The state of the progress bar. A total of zero stands for no download.
pub struct Progress {
    pub done: usize,
    pub total: usize,
    /// The percentage drawn last; above 100 where nothing was drawn yet.
    pub last_pct: usize,
    pub label: String,
}

impl Progress {
    /// No download.
    pub fn new() -> (r: Progress)
        ensures
            r.done == 0,
            r.total == 0,
            r.last_pct == usize::MAX,
            r.label@ == Seq::<char>::empty(),
    {
        Progress { done: 0, total: 0, last_pct: usize::MAX, label: String::new() }
    }

    /// How much is shown as done: never more than the total.
    pub open spec fn shown(self) -> int {
        if self.done <= self.total {
            self.done as int
        } else {
            self.total as int
        }
    }

    /// The whole percentage that is done.
    pub open spec fn percent(self) -> int {
        self.shown() * 100 / self.total as int
    }

    /// Whether the bar changes its percentage when it is drawn.
    pub open spec fn is_redrawn(self) -> bool {
        self.total != 0 && self.percent() != self.last_pct
    }

    /// What is drawn of the bar: its line where the percentage changes, else nothing.
    pub open spec fn drawn_text(self) -> Option<Seq<char>> {
        if self.is_redrawn() {
            Some(self.line_text())
        } else {
            None
        }
    }

    /// The progress once the bar was drawn.
    pub open spec fn drawn(self) -> Progress {
        if self.total == 0 {
            self
        } else {
            Progress { last_pct: self.percent() as usize, ..self }
        }
    }

    /// (done, total, label) when a download is active.
    pub open spec fn shown_text(self) -> Option<(int, int, Seq<char>)> {
        if self.total == 0 {
            None
        } else {
            Some((self.shown(), self.total as int, self.label@))
        }
    }

    /// The line that draws the bar over the line before.
    pub open spec fn line_text(self) -> Seq<char> {
        bar_line(self.label@, self.percent(), self.shown(), self.total as int)
    }
}

/// A bar of 20 characters, one filled for every full five percent.
pub open spec fn bar_text(pct: int) -> Seq<char> {
    Seq::new(
        20,
        |i: int|
            if i < pct / 5 {
                '#'
            } else {
                '-'
            },
    )
}

/// The line of a bar.
pub open spec fn bar_line(label: Seq<char>, pct: int, done: int, total: int) -> Seq<char> {
    "\r  "@ + label + " ["@ + bar_text(pct) + "] "@ + padded(decimal_text(pct as nat), 3) + "% ("@
        + decimal_text(done as nat) + "/"@ + decimal_text(total as nat) + ")"@
}

/// Draws the bar, but only on whole-percent changes to avoid spamming the terminal. Returns the
/// text to print.
pub fn print_bar(p: &mut Progress) -> (r: Option<String>)
    requires
        old(p).shown() * 100 <= usize::MAX,
    ensures
        *final(p) == old(p).drawn(),
        opt_text(r) == old(p).drawn_text(),
{
    if p.total == 0 {
        return None;
    }
    proof {
        law_percent_is_bounded(*p);
    }
    let done = if p.done <= p.total {
        p.done
    } else {
        p.total
    };
    let pct = done * 100 / p.total;
    assert(pct == p.percent());
    let same = p.last_pct == pct;
    p.last_pct = pct;
    if same {
        return None;
    }
    let filled = pct / 5;
    let mut bar = String::new();
    let mut i: usize = 0;
    while i < 20
        invariant
            i <= 20,
            filled == pct / 5,
            bar@ == bar_text(pct as int).take(i as int),
        decreases 20 - i,
    {
        if i < filled {
            bar.push('#');
        } else {
            bar.push('-');
        }
        i += 1;
        assert(bar@ =~= bar_text(pct as int).take(i as int));
    }
    assert(bar@ =~= bar_text(pct as int));
    let mut line = "\r  ".to_string();
    line.append(p.label.as_str());
    line.append(" [");
    line.append(bar.as_str());
    line.append("] ");
    line.append(pad_left(decimal(pct as u64).as_str(), 3).as_str());
    line.append("% (");
    line.append(decimal(done as u64).as_str());
    line.append("/");
    line.append(decimal(p.total as u64).as_str());
    line.append(")");
    Some(line)
}

/// The progress of a download that has just been started.
pub open spec fn started(label: String, total: usize) -> Progress {
    Progress {
        done: 0,
        total,
        last_pct: if total == 0 {
            usize::MAX
        } else {
            0
        },
        label,
    }
}

/// What is drawn at the start of a download.
pub open spec fn start_text(label: Seq<char>, total: int) -> Option<Seq<char>> {
    if total == 0 {
        None
    } else {
        Some(bar_line(label, 0, 0, total))
    }
}

/// Starts a download of `total` files. Returns the text to print on the terminal.
pub fn progress_start(p: &mut Progress, label: String, total: usize) -> (r: Option<String>)
    ensures
        *final(p) == started(label, total),
        opt_text(r) == start_text(label@, total as int),
{
    p.label = label;
    p.total = total;
    p.done = 0;
    p.last_pct = usize::MAX;
    assert(total != 0 ==> p.percent() == 0);
    print_bar(p)
}

/// One more file is there. Returns the text to print on the terminal.
pub fn progress_inc(p: &mut Progress) -> (r: Option<String>)
    requires
        one_more(*old(p)).shown() * 100 <= usize::MAX,
    ensures
        *final(p) == one_more(*old(p)).drawn(),
        opt_text(r) == one_more(*old(p)).drawn_text(),
{
    p.done = p.done.wrapping_add(1);
    assert(*p == one_more(*old(p)));
    print_bar(p)
}

/// The progress with one more file done; the count starts over once it is full.
pub open spec fn one_more(p: Progress) -> Progress {
    Progress {
        done: if p.done == usize::MAX {
            0
        } else {
            (p.done + 1) as usize
        },
        ..p
    }
}

/// The progress once the download has ended.
pub open spec fn ended(p: Progress) -> Progress {
    Progress { total: 0, ..p }
}

/// Ends the download. Returns whether a line of the terminal is to be ended.
pub fn progress_finish(p: &mut Progress) -> (r: bool)
    ensures
        r == (old(p).total > 0),
        final(p).total == 0,
        final(p).done == old(p).done,
        final(p).last_pct == old(p).last_pct,
        final(p).label == old(p).label,
        *final(p) == ended(*old(p)),
{
    let drawn = p.total > 0;
    p.total = 0;
    drawn
}

/// (done, total, label) when a download is active.
pub fn progress(p: &Progress) -> (r: Option<(usize, usize, String)>)
    ensures
        match r {
            Some((done, total, label)) => p.shown_text() == Some(
                (done as int, total as int, label@),
            ),
            None => p.shown_text() is None,
        },
{
    if p.total == 0 {
        return None;
    }
    let done = if p.done <= p.total {
        p.done
    } else {
        p.total
    };
    Some((done, p.total, p.label.clone()))
}

/// The percentage never leaves 0 to 100.
pub proof fn law_percent_is_bounded(p: Progress)
    requires
        p.total != 0,
    ensures
        0 <= p.percent() <= 100,
{
    let s = p.shown();
    let t = p.total as int;
    assert(0 <= s * 100 / t <= 100) by (nonlinear_arith)
        requires
            0 <= s <= t,
            t > 0,
    ;
}

/// A download that is complete shows a full bar at 100 percent.
pub proof fn law_complete_download_is_full(p: Progress)
    requires
        p.total != 0,
        p.done >= p.total,
    ensures
        p.percent() == 100,
        bar_text(p.percent()) == Seq::new(20, |i: int| '#'),
{
    let t = p.total as int;
    assert(t * 100 / t == 100) by (nonlinear_arith)
        requires
            t > 0,
    ;
    assert(bar_text(100) =~= Seq::new(20, |i: int| '#'));
}

/// The progress after `n` more files.
pub open spec fn after_files(p: Progress, n: nat) -> Progress
    decreases n,
{
    if n == 0 {
        p
    } else {
        one_more(after_files(p, (n - 1) as nat)).drawn()
    }
}

/// How often the bar is drawn while `n` more files come in.
pub open spec fn redraws(p: Progress, n: nat) -> nat
    decreases n,
{
    if n == 0 {
        0
    } else {
        redraws(p, (n - 1) as nat) + if one_more(after_files(p, (n - 1) as nat)).is_redrawn() {
            1nat
        } else {
            0nat
        }
    }
}

proof fn lemma_percent_monotone(a: int, b: int, t: int)
    requires
        0 <= a <= b,
        t > 0,
    ensures
        a * 100 / t <= b * 100 / t,
{
    assert(a * 100 <= b * 100);
    vstd::arithmetic::div_mod::lemma_div_is_ordered(a * 100, b * 100, t);
}

proof fn lemma_redraws(p: Progress, n: nat)
    requires
        p.total != 0,
        p.last_pct == p.percent(),
        p.done + n <= p.total,
    ensures
        after_files(p, n).total == p.total,
        after_files(p, n).done == p.done + n,
        after_files(p, n).last_pct == after_files(p, n).percent(),
        redraws(p, n) <= after_files(p, n).percent() - p.percent(),
    decreases n,
{
    if n > 0 {
        let m = (n - 1) as nat;
        lemma_redraws(p, m);
        let before = after_files(p, m);
        let q = one_more(before);
        assert(q.done == before.done + 1);
        lemma_percent_monotone(before.shown(), q.shown(), p.total as int);
        law_percent_is_bounded(q);
    }
}

/// The terminal is not spammed: however many files a download has, while they come in one by one
/// the bar is drawn at most a hundred times after its start.
pub proof fn law_bar_is_drawn_at_most_a_hundred_times(p: Progress, n: nat)
    requires
        p.total != 0,
        p.done == 0,
        p.last_pct == 0,
        n <= p.total,
    ensures
        redraws(p, n) <= 100,
{
    assert(p.percent() == 0) by {
        assert(0int * 100 / (p.total as int) == 0);
    }
    lemma_redraws(p, n);
    law_percent_is_bounded(after_files(p, n));
}

proof fn lemma_after_files(label: String, total: usize, n: nat)
    requires
        n <= usize::MAX,
    ensures
        ({
            let p = after_files(started(label, total), n);
            &&& p.done == n
            &&& p.total == total
            &&& p.label == label
            &&& total != 0 ==> p.last_pct == p.percent()
        }),
    decreases n,
{
    if n == 0 {
        assert(total != 0 ==> 0int * 100 / (total as int) == 0);
    } else {
        lemma_after_files(label, total, (n - 1) as nat);
        if total != 0 {
            law_percent_is_bounded(one_more(after_files(started(label, total), (n - 1) as nat)));
        }
    }
}

/// The count that is shown is the number of files that came in, and never more than the total:
/// after a start and `n` files, files beyond the total included. A download of no files shows
/// nothing.
pub proof fn law_progress_counts_the_files(label: String, total: usize, n: nat)
    requires
        n <= usize::MAX,
    ensures
        after_files(started(label, total), n).shown_text() == (if total == 0 {
            None
        } else if n <= total {
            Some((n as int, total as int, label@))
        } else {
            Some((total as int, total as int, label@))
        }),
{
    lemma_after_files(label, total, n);
}

/// What is drawn when the `n`th file of a download comes in; at zero, when it is started.
pub open spec fn drawn_at(label: String, total: usize, n: nat) -> Option<Seq<char>> {
    if n == 0 {
        start_text(label@, total as int)
    } else {
        one_more(after_files(started(label, total), (n - 1) as nat)).drawn_text()
    }
}

/// The percentage that was drawn last once `n` files of a download have come in.
pub open spec fn drawn_last(label: String, total: usize, n: nat) -> Option<int>
    decreases n,
{
    if drawn_at(label, total, n) is Some {
        Some(after_files(started(label, total), n).percent())
    } else if n == 0 {
        None
    } else {
        drawn_last(label, total, (n - 1) as nat)
    }
}

/// A file that comes in draws the bar with the percentage that is then done, unless the bar
/// already shows that percentage: then nothing is drawn.
pub proof fn law_bar_is_drawn_when_its_percentage_changes(label: String, total: usize, n: nat)
    requires
        total != 0,
        n <= usize::MAX,
    ensures
        ({
            let done = if n <= total {
                n as int
            } else {
                total as int
            };
            let pct = done * 100 / total as int;
            &&& drawn_at(label, total, 0) == Some(bar_line(label@, 0, 0, total as int))
            &&& n > 0 ==> drawn_at(label, total, n) == (if drawn_last(
                label,
                total,
                (n - 1) as nat,
            ) == Some(pct) {
                None
            } else {
                Some(bar_line(label@, pct, done, total as int))
            })
            &&& drawn_last(label, total, n) == Some(pct)
        }),
    decreases n,
{
    lemma_after_files(label, total, n);
    if n > 0 {
        lemma_after_files(label, total, (n - 1) as nat);
        law_bar_is_drawn_when_its_percentage_changes(label, total, (n - 1) as nat);
    }
}

/// A new line stands last, and before it stand the lines that were there; the oldest of them goes
/// exactly where the log was full.
pub proof fn law_new_line_stands_last(lines: Seq<Line>, line: Line)
    requires
        lines.len() <= MAX_LINES,
    ensures
        pushed(lines, line).len() > 0,
        pushed(lines, line).last() == line,
        lines.len() < 5000 ==> pushed(lines, line).drop_last() == lines,
        lines.len() == 5000 ==> pushed(lines, line).drop_last() == lines.drop_first(),
{
    if lines.len() < 5000 {
        assert(pushed(lines, line).drop_last() =~= lines);
    } else {
        assert(pushed(lines, line).drop_last() =~= lines.drop_first());
    }
}

/// The last lines are a tail of the log, of the given length or the whole log.
pub proof fn law_last_lines_are_a_tail(lines: Seq<Line>, max: int)
    requires
        0 <= max,
    ensures
        last_lines(lines, max).is_suffix_of(lines),
        lines.len() >= max ==> last_lines(lines, max).len() == max,
        lines.len() <= max ==> last_lines(lines, max) == lines,
{
    let t = last_lines(lines, max);
    assert(lines.subrange(lines.len() - t.len(), lines.len() as int) =~= t);
}

/// The terminal shows a line once, with its own text: as a warning or an error where it is one,
/// and else, the game's output included, as information.
pub proof fn law_terminal_shows_the_line(m: Mirrored, line: Line)
    requires
        m.is_of(line),
    ensures
        m.text@ == line.text@,
        m.severity == Severity::Warn <==> line.level == Level::Warn,
        m.severity == Severity::Error <==> line.level == Level::Error,
        m.severity == Severity::Info <==> line.level == Level::Info || line.level == Level::Game,
{
}

/// The texts of a log are its lines' own, in order.
pub proof fn law_log_text_is_that_of_its_lines(lines: Seq<Line>, i: int)
    requires
        0 <= i < lines.len(),
    ensures
        line_texts(lines).len() == lines.len(),
        line_texts(lines)[i] == lines[i].text@,
{
}

/// The bar has twenty places, and a place is filled once its five percent are done; so a larger
/// percentage never fills fewer.
pub proof fn law_bar_fills_from_the_left(pct: int, i: int)
    requires
        0 <= i < 20,
    ensures
        bar_text(pct).len() == 20,
        bar_text(pct)[i] == '#' <==> 5 * (i + 1) <= pct,
        bar_text(pct)[i] == '#' || bar_text(pct)[i] == '-',
{
}

/// The line of a bar begins with the label and ends with the counts.
pub proof fn law_bar_line_names_label_and_counts(
    label: Seq<char>,
    pct: int,
    done: int,
    total: int,
)
    ensures
        ("\r  "@ + label + " ["@ + bar_text(pct) + "] "@).is_prefix_of(
            bar_line(label, pct, done, total),
        ),
        (padded(decimal_text(pct as nat), 3) + "% ("@ + decimal_text(done as nat) + "/"@
            + decimal_text(total as nat) + ")"@).is_suffix_of(bar_line(label, pct, done, total)),
{
    let l = bar_line(label, pct, done, total);
    let a = "\r  "@ + label + " ["@ + bar_text(pct) + "] "@;
    let b = padded(decimal_text(pct as nat), 3) + "% ("@ + decimal_text(done as nat) + "/"@
        + decimal_text(total as nat) + ")"@;
    assert(l =~= a + b);
    assert(l.subrange(0, a.len() as int) =~= a);
    assert(l.subrange(l.len() - b.len(), l.len() as int) =~= b);
}

/// The percentage is the whole part of the share that is done.
pub proof fn law_percent_is_the_share_done(p: Progress)
    requires
        p.total != 0,
    ensures
        p.percent() * p.total <= 100 * p.shown() < (p.percent() + 1) * p.total,
        p.shown() <= p.done,
        p.shown() <= p.total,
        p.done <= p.total ==> p.shown() == p.done,
{
    let s = p.shown();
    let t = p.total as int;
    assert(s * 100 / t * t <= 100 * s < (s * 100 / t + 1) * t) by (nonlinear_arith)
        requires
            t > 0,
            s >= 0,
    ;
}

/// Once a download has ended nothing is shown of it, and no further file is drawn.
pub proof fn law_ended_download_shows_nothing(p: Progress)
    ensures
        ended(p).shown_text() is None,
        ended(p).drawn_text() is None,
        one_more(ended(p)).drawn_text() is None,
{
}

} // verus!
