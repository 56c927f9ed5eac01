use vstd::prelude::*;

verus! {

/// A scenario failure: a chain of diagnostic notes, the broadest first,
/// each rendered later as one commented line of the report.
pub struct Failure {
    pub notes: Vec<String>,
}

impl Failure {
    /// A failure with a single diagnostic note.
    pub fn msg(text: String) -> (f: Failure)
        ensures
            f.notes@ == seq![text],
    {
        let notes: Vec<String> = vec![text];
        Failure { notes }
    }

    /// Prepends a broader explanatory note to the chain, keeping the
    /// narrower notes after it.
    pub fn context(self, note: String) -> (f: Failure)
        ensures
            f.notes@ == seq![note] + self.notes@,
    {
        let mut notes: Vec<String> = vec![note];
        let mut rest = self.notes;
        notes.append(&mut rest);
        proof {
            assert(notes@ =~= seq![note] + self.notes@);
        }
        Failure { notes }
    }
}

} // verus!
