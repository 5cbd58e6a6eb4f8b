use vstd::prelude::*;

verus! {

broadcast use vstd::string::group_string_axioms;

/// A rectangle in source image pixels.
#[derive(Clone, Copy, Debug, PartialEq, Eq, Structural)]
pub struct Rect {
    pub x: u16,
    pub y: u16,
    pub w: u16,
    pub h: u16,
}

/// One named frame of a sprite sheet.
#[derive(Clone, Copy, Debug, PartialEq, Eq, Structural)]
pub struct Cell {
    pub frame: Rect,
}

/// A requested frame name that the sheet does not hold.
#[derive(Debug)]
pub struct LookupError {
    pub name: String,
}

/// Frames of a sprite sheet, keyed by their unique names.
pub struct Sheet {
    frames: Vec<(String, Cell)>,
}

/// Whether some entry of `entries` is named `name`.
pub open spec fn has_name(entries: Seq<(String, Cell)>, name: Seq<char>) -> bool {
    exists|i: int| 0 <= i < entries.len() && (#[trigger] entries[i]).0@ == name
}

/// No two entries share a name.
pub open spec fn names_unique(entries: Seq<(String, Cell)>) -> bool {
    forall|i: int, j: int|
        0 <= i < entries.len() && 0 <= j < entries.len() && i != j ==> (#[trigger] entries[i]).0@
            != (#[trigger] entries[j]).0@
}

/// The name-to-cell map that a list of entries with unique names describes.
pub open spec fn entries_map(entries: Seq<(String, Cell)>) -> Map<Seq<char>, Cell> {
    Map::new(
        |name: Seq<char>| has_name(entries, name),
        |name: Seq<char>|
            entries[choose|i: int| 0 <= i < entries.len() && (#[trigger] entries[i]).0@ == name].1,
    )
}

proof fn lemma_entry_in_map(entries: Seq<(String, Cell)>, i: int)
    requires
        names_unique(entries),
        0 <= i < entries.len(),
    ensures
        entries_map(entries).contains_key(entries[i].0@),
        entries_map(entries)[entries[i].0@] == entries[i].1,
{
    let name = entries[i].0@;
    assert(has_name(entries, name));
    let j = choose|j: int| 0 <= j < entries.len() && (#[trigger] entries[j]).0@ == name;
    assert(i == j);
}

impl View for Sheet {
    type V = Map<Seq<char>, Cell>;

    closed spec fn view(&self) -> Map<Seq<char>, Cell> {
        entries_map(self.frames@)
    }
}

impl Sheet {
    pub closed spec fn wf(&self) -> bool {
        names_unique(self.frames@)
    }

    /// A sheet with no frames.
    pub fn new() -> (s: Sheet)
        ensures
            s.wf(),
            s@ == Map::<Seq<char>, Cell>::empty(),
    {
        let s = Sheet { frames: Vec::new() };
        assert(s@ =~= Map::<Seq<char>, Cell>::empty());
        s
    }

    /// The number of frames.
    pub fn len(&self) -> (n: usize)
        requires
            self.wf(),
        ensures
            n == self@.len(),
    {
        proof {
            self.lemma_len();
        }
        self.frames.len()
    }

    proof fn lemma_len(&self)
        requires
            self.wf(),
        ensures
            self@.len() == self.frames@.len(),
    {
        let entries = self.frames@;
        let names = Seq::new(entries.len(), |i: int| entries[i].0@);
        assert(names.no_duplicates());
        names.unique_seq_to_set();
        assert(self@.dom() =~= names.to_set()) by {
            assert forall|k: Seq<char>| self@.dom().contains(k) implies names.to_set().contains(k) by {
                let i = choose|i: int| 0 <= i < entries.len() && (#[trigger] entries[i]).0@ == k;
                assert(names[i] == k);
            }
            assert forall|k: Seq<char>| names.to_set().contains(k) implies self@.dom().contains(k) by {
                let i = choose|i: int| 0 <= i < names.len() && names[i] == k;
                assert(entries[i].0@ == k);
            }
        }
    }

    /// Index of the entry named `name`, if any.
    fn position(&self, name: &String) -> (r: Option<usize>)
        requires
            self.wf(),
        ensures
            r matches Some(i) ==> i < self.frames@.len() && self.frames@[i as int].0@ == name@,
            r is None ==> !has_name(self.frames@, name@),
    {
        let mut i: usize = 0;
        while i < self.frames.len()
            invariant
                i <= self.frames@.len(),
                forall|k: int| 0 <= k < i ==> (#[trigger] self.frames@[k]).0@ != name@,
            decreases self.frames@.len() - i,
        {
            if self.frames[i].0 == *name {
                return Some(i);
            }
            i = i + 1;
        }
        None
    }

    /// Adds a frame, replacing any frame of the same name.
    pub fn insert(&mut self, name: String, cell: Cell)
        requires
            old(self).wf(),
        ensures
            final(self).wf(),
            final(self)@ == old(self)@.insert(name@, cell),
    {
        let ghost before = self.frames@;
        match self.position(&name) {
            Some(i) => {
                let ghost key = name@;
                self.frames.set(i, (name, cell));
                proof {
                    let after = self.frames@;
                    assert(names_unique(after));
                    assert forall|k: Seq<char>| #[trigger] has_name(after, k) == (has_name(before, k) || k == key) by {
                        if has_name(before, k) {
                            let j = choose|j: int| 0 <= j < before.len() && (#[trigger] before[j]).0@ == k;
                            if j == i {
                                assert(after[i as int].0@ == k);
                            } else {
                                assert(after[j].0@ == k);
                            }
                        }
                        if has_name(after, k) {
                            let j = choose|j: int| 0 <= j < after.len() && (#[trigger] after[j]).0@ == k;
                            if j != i {
                                assert(before[j].0@ == k);
                            }
                        }
                        if k == key {
                            assert(after[i as int].0@ == k);
                        }
                    }
                    assert forall|k: Seq<char>| has_name(after, k) implies entries_map(after)[k]
                        == old(self)@.insert(key, cell)[k] by {
                        let j = choose|j: int| 0 <= j < after.len() && (#[trigger] after[j]).0@ == k;
                        lemma_entry_in_map(after, j);
                        if j != i {
                            lemma_entry_in_map(before, j);
                        }
                    }
                    assert(self@ =~= old(self)@.insert(key, cell));
                }
            },
            None => {
                let ghost key = name@;
                self.frames.push((name, cell));
                proof {
                    let after = self.frames@;
                    let n = before.len() as int;
                    assert(after[n].0@ == key);
                    assert(names_unique(after)) by {
                        assert forall|a: int, b: int|
                            0 <= a < after.len() && 0 <= b < after.len() && a != b implies (#[trigger] after[a]).0@
                            != (#[trigger] after[b]).0@ by {
                            if a == n {
                                assert(before[b] == after[b]);
                            } else if b == n {
                                assert(before[a] == after[a]);
                            } else {
                                assert(before[a] == after[a] && before[b] == after[b]);
                            }
                        }
                    }
                    assert forall|k: Seq<char>| #[trigger] has_name(after, k) == (has_name(before, k) || k == key) by {
                        if has_name(before, k) {
                            let j = choose|j: int| 0 <= j < before.len() && (#[trigger] before[j]).0@ == k;
                            assert(after[j].0@ == k);
                        }
                        if has_name(after, k) {
                            let j = choose|j: int| 0 <= j < after.len() && (#[trigger] after[j]).0@ == k;
                            if j != n {
                                assert(before[j].0@ == k);
                            }
                        }
                    }
                    assert forall|k: Seq<char>| has_name(after, k) implies entries_map(after)[k]
                        == old(self)@.insert(key, cell)[k] by {
                        let j = choose|j: int| 0 <= j < after.len() && (#[trigger] after[j]).0@ == k;
                        lemma_entry_in_map(after, j);
                        if j != n {
                            assert(before[j] == after[j]);
                            lemma_entry_in_map(before, j);
                        }
                    }
                    assert(self@ =~= old(self)@.insert(key, cell));
                }
            },
        }
    }

    /// The cell stored under `name`, or an error naming it when absent.
    pub fn get(&self, name: &str) -> (r: Result<Cell, LookupError>)
        requires
            self.wf(),
        ensures
            r is Ok <==> self@.contains_key(name@),
            r matches Ok(c) ==> c == self@[name@],
            r matches Err(e) ==> e.name@ == name@,
    {
        let key = name.to_string();
        match self.position(&key) {
            Some(i) => {
                proof {
                    lemma_entry_in_map(self.frames@, i as int);
                }
                Ok(self.frames[i].1)
            },
            None => Err(LookupError { name: key }),
        }
    }

    /// The rectangle of the frame named `name`.
    pub fn frame(&self, name: &str) -> (r: Result<Rect, LookupError>)
        requires
            self.wf(),
        ensures
            r is Ok <==> self@.contains_key(name@),
            r matches Ok(rect) ==> rect == self@[name@].frame,
            r matches Err(e) ==> e.name@ == name@,
    {
        match self.get(name) {
            Ok(cell) => Ok(cell.frame),
            Err(e) => Err(e),
        }
    }
}

} // verus!
