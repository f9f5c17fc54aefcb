//! The round's running log: short lines collected as the phases run, shown in
//! the round-information pane and emptied when a new round begins.
use vstd::prelude::*;

verus! {

/// Short, human-readable log of what happened this round.
#[derive(Debug, Clone)]
pub struct RoundSummary {
    entries: Vec<String>,
}

/// The text of each line, in the order the lines were added.
pub open spec fn lines_of(entries: Seq<String>) -> Seq<Seq<char>> {
    entries.map_values(|s: String| s@)
}

impl View for RoundSummary {
    type V = Seq<Seq<char>>;

    closed spec fn view(&self) -> Seq<Seq<char>> {
        lines_of(self.entries@)
    }
}

impl Default for RoundSummary {
    fn default() -> (s: Self)
        ensures
            s@ == Seq::<Seq<char>>::empty(),
    {
        let s = RoundSummary { entries: Vec::new() };
        assert(s@ =~= Seq::<Seq<char>>::empty());
        s
    }
}

impl RoundSummary {
    /// Appends one line at the end of the log.
    pub fn push(&mut self, line: &str)
        ensures
            final(self)@ == old(self)@.push(line@),
    {
        let ghost before = self.entries@;
        self.entries.push(line.to_owned());
        assert(lines_of(self.entries@) =~= lines_of(before).push(line@));
    }

    /// The lines of the log, oldest first.
    pub fn entries(&self) -> (r: &[String])
        ensures
            lines_of(r@) == self@,
    {
        self.entries.as_slice()
    }

    /// Empties the log.
    pub fn clear(&mut self)
        ensures
            final(self)@ == Seq::<Seq<char>>::empty(),
    {
        self.entries.clear();
        assert(lines_of(self.entries@) =~= Seq::<Seq<char>>::empty());
    }
}

} // verus!
