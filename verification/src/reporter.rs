use vstd::prelude::*;
use vstd::string::StringExecFns;
use crate::text::{dec_digits, dec_of};
use crate::{Outcome, TestResult};

verus! {

/// The character sequences of a sequence of lines.
pub open spec fn views_of(lines: Seq<String>) -> Seq<Seq<char>> {
    lines.map_values(|l: String| l@)
}

/// The passing line of the unit at 0-based index `i`: its 1-based ordinal
/// and its name.
pub open spec fn tap_ok_line(i: nat, name: Seq<char>) -> Seq<char> {
    "ok "@ + dec_digits(i + 1) + " - "@ + name
}

/// The passing line of a skipped unit, with the reason.
pub open spec fn tap_skip_line(i: nat, name: Seq<char>, reason: Seq<char>) -> Seq<char> {
    tap_ok_line(i, name) + " # SKIP "@ + reason
}

/// The failing line of the unit at 0-based index `i`.
pub open spec fn tap_not_ok_line(i: nat, name: Seq<char>) -> Seq<char> {
    "not ok "@ + dec_digits(i + 1) + " - "@ + name
}

/// A diagnostic note rendered as a commented line.
pub open spec fn diag_line(note: Seq<char>) -> Seq<char> {
    "# "@ + note
}

/// Each diagnostic note of a chain as a commented line, in order.
pub open spec fn diag_lines_of(notes: Seq<String>) -> Seq<Seq<char>> {
    notes.map_values(|n: String| diag_line(n@))
}

/// The lines one unit contributes, in order: each diagnostic note as a
/// commented line when it failed, then its own result line.
pub open spec fn unit_lines(i: nat, name: Seq<char>, res: TestResult) -> Seq<Seq<char>> {
    match res {
        Ok(Outcome::Passed) => seq![tap_ok_line(i, name)],
        Ok(Outcome::Skipped { reason }) => seq![tap_skip_line(i, name, reason@)],
        Err(f) => diag_lines_of(f.notes@).push(tap_not_ok_line(i, name)),
    }
}

/// The version preamble and the plan line for `n` units.
pub open spec fn preamble(n: nat) -> Seq<Seq<char>> {
    seq!["TAP version 14"@, "1.."@ + dec_digits(n)]
}

/// All output owed once the first `k` units are out: the preamble, then
/// each of those units' lines, strictly in submission order.
pub open spec fn rendered(
    names: Seq<String>,
    slots: Seq<Option<TestResult>>,
    k: int,
) -> Seq<Seq<char>>
    decreases k,
{
    if k <= 0 {
        preamble(names.len())
    } else {
        rendered(names, slots, k - 1) + (match slots[k - 1] {
            Some(res) => unit_lines((k - 1) as nat, names[k - 1]@, res),
            None => Seq::empty(),
        })
    }
}

/// True when every unit before `k` completed without failing.
pub open spec fn all_ok_upto(slots: Seq<Option<TestResult>>, k: int) -> bool {
    forall|i: int| #![trigger slots[i]] 0 <= i < k ==> (slots[i] matches Some(res) && res is Ok)
}

/// Law: the lines owed for the first `k` units depend on those units'
/// results alone, so completions that arrive later — in whatever order —
/// never change lines already emitted.
pub proof fn lemma_rendered_prefix(
    names: Seq<String>,
    s1: Seq<Option<TestResult>>,
    s2: Seq<Option<TestResult>>,
    k: int,
)
    requires
        forall|i: int| 0 <= i < k ==> s1[i] == s2[i],
    ensures
        rendered(names, s1, k) == rendered(names, s2, k),
    decreases k,
{
    if k > 0 {
        lemma_rendered_prefix(names, s1, s2, k - 1);
    }
}

/// The ordering buffer of the concurrent executor: units complete in any
/// order and are buffered by index, while lines leave strictly in
/// submission order, so a slow early unit is never reported after a fast
/// late one.
pub struct Reporter {
    pub names: Vec<String>,
    pub slots: Vec<Option<TestResult>>,
    pub emitted: usize,
    pub lines: Vec<String>,
    pub ok_so_far: bool,
}

impl Reporter {
    /// The reporter's invariant: the lines hold exactly the preamble and
    /// the emitted units' renderings, in submission order.
    pub open spec fn wf(self) -> bool {
        &&& self.slots@.len() == self.names@.len()
        &&& self.emitted <= self.names@.len()
        &&& forall|i: int| 0 <= i < self.emitted ==> self.slots@[i] is Some
        &&& views_of(self.lines@) == rendered(self.names@, self.slots@, self.emitted as int)
        &&& self.ok_so_far == all_ok_upto(self.slots@, self.emitted as int)
    }

    /// A reporter for the named units, with the preamble already owed.
    pub fn new(names: Vec<String>) -> (rep: Reporter)
        ensures
            rep.wf(),
            rep.names == names,
            rep.emitted == 0,
            forall|i: int| 0 <= i < names@.len() ==> rep.slots@[i] is None,
    {
        let n = names.len();
        let mut slots: Vec<Option<TestResult>> = Vec::new();
        let mut i: usize = 0;
        while i < n
            invariant
                i <= n,
                slots@.len() == i,
                forall|j: int| 0 <= j < i ==> slots@[j] is None,
            decreases n - i,
        {
            slots.push(None);
            i = i + 1;
        }
        let mut lines: Vec<String> = Vec::new();
        lines.push(String::from_str("TAP version 14"));
        let mut plan = String::from_str("1..");
        let d = dec_of(n as u128);
        plan.append(d.as_str());
        lines.push(plan);
        proof {
            assert(views_of(lines@) =~= preamble(names@.len()));
        }
        Reporter { names, slots, emitted: 0, lines, ok_so_far: true }
    }

    /// Buffers the result of the unit at `index`, which completed now;
    /// nothing already emitted changes, whatever order completions take.
    pub fn record(&mut self, index: usize, result: TestResult)
        requires
            old(self).wf(),
            index < old(self).names@.len(),
            old(self).slots@[index as int] is None,
        ensures
            final(self).wf(),
            final(self).names == old(self).names,
            final(self).emitted == old(self).emitted,
            final(self).lines == old(self).lines,
            final(self).ok_so_far == old(self).ok_so_far,
            final(self).slots@ == old(self).slots@.update(index as int, Some(result)),
    {
        proof {
            assert(self.emitted <= index) by {
                if index < self.emitted {
                    assert(self.slots@[index as int] is Some);
                }
            }
            let ghost s2 = self.slots@.update(index as int, Some(result));
            let ghost e = self.emitted as int;
            lemma_rendered_prefix(self.names@, self.slots@, s2, e);
            assert(forall|p: int| 0 <= p < e ==> #[trigger] s2[p] == self.slots@[p]);
            assert(all_ok_upto(self.slots@, e) ==> all_ok_upto(s2, e)) by {
                if all_ok_upto(self.slots@, e) {
                    assert forall|p: int| #![trigger s2[p]] 0 <= p < e implies (s2[p] matches Some(
                        res,
                    ) && res is Ok) by {
                        assert(s2[p] == self.slots@[p]);
                    }
                }
            }
            assert(all_ok_upto(s2, e) ==> all_ok_upto(self.slots@, e)) by {
                if all_ok_upto(s2, e) {
                    assert forall|p: int| #![trigger self.slots@[p]] 0 <= p < e implies (self
                        .slots@[p] matches Some(res) && res is Ok) by {
                        assert(s2[p] == self.slots@[p]);
                    }
                }
            }
        }
        self.slots[index] = Some(result);
    }

    /// Emits the lines of the next unit in submission order, if its
    /// result is already buffered; says whether it made progress.
    pub fn emit_next(&mut self) -> (progressed: bool)
        requires
            old(self).wf(),
        ensures
            final(self).wf(),
            final(self).names == old(self).names,
            final(self).slots == old(self).slots,
            progressed == (old(self).emitted < old(self).names@.len() && old(self).slots@[old(
                self,
            ).emitted as int] is Some),
            final(self).emitted == (if progressed {
                old(self).emitted + 1
            } else {
                old(self).emitted as int
            }),
    {
        let n = self.names.len();
        if self.emitted >= n {
            return false;
        }
        let i = self.emitted;
        let name = self.names[i].clone();
        let ghost slotval = self.slots@[i as int];
        let (mut new_lines, unit_ok): (Vec<String>, bool) = match &self.slots[i] {
            None => {
                return false;
            },
            Some(res) => match res {
                Ok(Outcome::Passed) => {
                    let mut l = String::from_str("ok ");
                    let d = dec_of((i + 1) as u128);
                    l.append(d.as_str());
                    l.append(" - ");
                    l.append(name.as_str());
                    let mut nl: Vec<String> = Vec::new();
                    nl.push(l);
                    proof {
                        assert(slotval matches Some(r) && r is Ok && views_of(nl@)
                            =~= unit_lines(i as nat, self.names@[i as int]@, r));
                    }
                    (nl, true)
                },
                Ok(Outcome::Skipped { reason }) => {
                    let mut l = String::from_str("ok ");
                    let d = dec_of((i + 1) as u128);
                    l.append(d.as_str());
                    l.append(" - ");
                    l.append(name.as_str());
                    l.append(" # SKIP ");
                    l.append(reason.as_str());
                    let mut nl: Vec<String> = Vec::new();
                    nl.push(l);
                    proof {
                        assert(slotval matches Some(r) && r is Ok && views_of(nl@)
                            =~= unit_lines(i as nat, self.names@[i as int]@, r));
                    }
                    (nl, true)
                },
                Err(f) => {
                    let mut nl: Vec<String> = Vec::new();
                    let mut j: usize = 0;
                    while j < f.notes.len()
                        invariant
                            j <= f.notes@.len(),
                            nl@.len() == j,
                            views_of(nl@) == diag_lines_of(f.notes@.take(j as int)),
                        decreases f.notes@.len() - j,
                    {
                        let mut l = String::from_str("# ");
                        l.append(f.notes[j].as_str());
                        let ghost nl_before = nl@;
                        nl.push(l);
                        j = j + 1;
                        proof {
                            let ghost target = diag_lines_of(f.notes@.take(j as int));
                            assert(target.len() == j);
                            assert forall|q: int| 0 <= q < j implies views_of(nl@)[q]
                                == target[q] by {
                                assert(views_of(nl@)[q] == nl@[q]@);
                                assert(target[q] == diag_line(f.notes@.take(j as int)[q]@));
                                if q < j - 1 {
                                    assert(nl@[q] == nl_before[q]);
                                    assert(views_of(nl_before)[q] == diag_lines_of(
                                        f.notes@.take(j - 1),
                                    )[q]);
                                    assert(views_of(nl_before)[q] == nl_before[q]@);
                                    assert(diag_lines_of(f.notes@.take(j - 1))[q] == diag_line(
                                        f.notes@.take(j - 1)[q]@,
                                    ));
                                }
                            }
                            assert(views_of(nl@) =~= target);
                        }
                    }
                    let ghost diag_part = nl@;
                    let mut l = String::from_str("not ok ");
                    let d = dec_of((i + 1) as u128);
                    l.append(d.as_str());
                    l.append(" - ");
                    l.append(name.as_str());
                    nl.push(l);
                    proof {
                        assert(f.notes@.take(f.notes@.len() as int) =~= f.notes@);
                        let ghost target = unit_lines(i as nat, self.names@[i as int]@, Err(*f));
                        assert(target == diag_lines_of(f.notes@).push(
                            tap_not_ok_line(i as nat, self.names@[i as int]@),
                        ));
                        assert forall|q: int| 0 <= q < nl@.len() implies views_of(nl@)[q]
                            == target[q] by {
                            assert(views_of(nl@)[q] == nl@[q]@);
                            if q < nl@.len() - 1 {
                                assert(nl@[q] == diag_part[q]);
                                assert(views_of(diag_part)[q] == diag_lines_of(f.notes@)[q]);
                                assert(views_of(diag_part)[q] == diag_part[q]@);
                            } else {
                                assert(nl@[q] == l);
                            }
                        }
                        assert(views_of(nl@) =~= target);
                        assert(slotval matches Some(r) && r is Err && views_of(nl@)
                            =~= unit_lines(i as nat, self.names@[i as int]@, r));
                    }
                    (nl, false)
                },
            },
        };
        let ghost old_lines = self.lines@;
        self.lines.append(&mut new_lines);
        self.emitted = i + 1;
        self.ok_so_far = self.ok_so_far && unit_ok;
        proof {
            assert(slotval matches Some(r) && views_of(self.lines@) =~= rendered(
                self.names@,
                self.slots@,
                i as int,
            ) + unit_lines(i as nat, self.names@[i as int]@, r));
            assert(views_of(self.lines@) =~= rendered(
                self.names@,
                self.slots@,
                (i + 1) as int,
            ));
            assert(all_ok_upto(self.slots@, (i + 1) as int) == (all_ok_upto(
                self.slots@,
                i as int,
            ) && unit_ok)) by {
                if all_ok_upto(self.slots@, i as int) && unit_ok {
                    assert forall|p: int| #![trigger self.slots@[p]] 0 <= p < i + 1 implies (self
                        .slots@[p] matches Some(res) && res is Ok) by {}
                }
            }
        }
        true
    }

    /// True once every unit's lines are out.
    pub fn finished(&self) -> (r: bool)
        ensures
            r == (self.emitted == self.names@.len()),
    {
        self.emitted == self.names.len()
    }

    /// True while every emitted unit passed or was skipped: the aggregate
    /// the calling process turns into its exit status.
    pub fn success(&self) -> (r: bool)
        ensures
            r == self.ok_so_far,
    {
        self.ok_so_far
    }
}

} // verus!
