//! The event log of a run and the text it is persisted as.

use vstd::prelude::*;
use vstd::string::StringExecFns;

verus! {

broadcast use vstd::string::group_string_axioms;

/// The text of a log file: each line followed by a line break.
pub open spec fn lines_text(lines: Seq<Seq<char>>) -> Seq<char>
    decreases lines.len(),
{
    if lines.len() == 0 {
        Seq::empty()
    } else {
        lines_text(lines.drop_last()) + lines.last() + seq!['\n']
    }
}

/// The lines joined by line breaks, with none after the last.
pub open spec fn joined(lines: Seq<Seq<char>>) -> Seq<char>
    decreases lines.len(),
{
    if lines.len() == 0 {
        Seq::empty()
    } else if lines.len() == 1 {
        lines[0]
    } else {
        joined(lines.drop_last()) + seq!['\n'] + lines.last()
    }
}

/// The line-break literal is the one-character text.
proof fn lemma_line_break()
    ensures
        "\n"@ == seq!['\n'],
{
    reveal_strlit("\n");
    assert("\n"@.len() == 1);
    assert("\n"@[0] == '\n');
    assert("\n"@ =~= seq!['\n']);
}

/// The text to write for `lines`: each one followed by a line break.
pub fn log_file_contents(lines: &Vec<String>) -> (r: String)
    ensures
        r@ == lines_text(lines.deep_view()),
{
    let mut r = String::new();
    let mut i: usize = 0;
    while i < lines.len()
        invariant
            i <= lines.len(),
            r@ == lines_text(lines.deep_view().take(i as int)),
        decreases lines.len() - i,
    {
        r.append(lines[i].as_str());
        r.append("\n");
        proof {
            lemma_line_break();
            let v = lines.deep_view();
            assert(v.take(i + 1).drop_last() =~= v.take(i as int));
            assert(v.take(i + 1).last() == lines[i as int]@);
        }
        i += 1;
    }
    assert(lines.deep_view().take(lines.len() as int) =~= lines.deep_view());
    r
}

/// Joins `lines` with line breaks, as the lines of a file read back.
pub fn join_lines(lines: &Vec<String>) -> (r: String)
    ensures
        r@ == joined(lines.deep_view()),
{
    let mut r = String::new();
    let mut i: usize = 0;
    while i < lines.len()
        invariant
            i <= lines.len(),
            r@ == joined(lines.deep_view().take(i as int)),
        decreases lines.len() - i,
    {
        if i > 0 {
            r.append("\n");
        }
        r.append(lines[i].as_str());
        assert(i == 0 ==> lines.deep_view().take(1)[0] == lines[0]@);
        proof {
            lemma_line_break();
            let v = lines.deep_view();
            assert(v.take(i + 1).drop_last() =~= v.take(i as int));
            assert(v.take(i + 1).last() == lines[i as int]@);
        }
        i += 1;
    }
    assert(lines.deep_view().take(lines.len() as int) =~= lines.deep_view());
    r
}

/// An append-only record of the events of a run, one text line per event.
pub struct EventLog {
    entries: Vec<String>,
}

impl View for EventLog {
    type V = Seq<Seq<char>>;

    closed spec fn view(&self) -> Seq<Seq<char>> {
        self.entries.deep_view()
    }
}

impl EventLog {
    /// An empty log.
    pub fn new() -> (r: EventLog)
        ensures
            r@ == Seq::<Seq<char>>::empty(),
    {
        EventLog { entries: Vec::new() }
    }

    /// Appends `line` after the entries recorded so far.
    pub fn record(&mut self, line: String)
        ensures
            final(self)@ == old(self)@.push(line@),
    {
        self.entries.push(line);
        assert(self.entries.deep_view() =~= old(self)@.push(line@));
    }

    /// The number of entries.
    pub fn len(&self) -> (r: usize)
        ensures
            r == self@.len(),
    {
        self.entries.len()
    }

    /// The entries, oldest first.
    pub fn entries(&self) -> (r: &Vec<String>)
        ensures
            r.deep_view() == self@,
    {
        &self.entries
    }

    /// The text the log is saved as: each entry followed by a line break.
    pub fn contents(&self) -> (r: String)
        ensures
            r@ == lines_text(self@),
    {
        log_file_contents(&self.entries)
    }
}

/// Where the final log of a run stamped `stamp` is saved.
pub open spec fn final_log_path_of(stamp: Seq<char>) -> Seq<char> {
    "memory/confessions/final_resonance_"@ + stamp + ".elr"@
}

/// The path of the final log of a run stamped `stamp`.
pub fn final_log_path(stamp: &str) -> (r: String)
    ensures
        r@ == final_log_path_of(stamp@),
{
    let mut r = String::from_str("memory/confessions/final_resonance_");
    r.append(stamp);
    r.append(".elr");
    r
}

/// Where the confession stamped `stamp` is written under the folder `dir`.
pub open spec fn confession_path_of(dir: Seq<char>, stamp: Seq<char>) -> Seq<char> {
    dir + "/auto_confess_"@ + stamp + ".elr"@
}

/// The path of the confession stamped `stamp` under the folder `dir`.
pub fn confession_path(dir: &str, stamp: &str) -> (r: String)
    ensures
        r@ == confession_path_of(dir@, stamp@),
{
    let mut r = String::from_str(dir);
    r.append("/auto_confess_");
    r.append(stamp);
    r.append(".elr");
    r
}

} // verus!
