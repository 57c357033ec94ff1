//! The theme: colour names and the colour texts they stand for.

use vstd::prelude::*;

verus! {

/// One line of a theme: a colour name and the text of its colour.
#[derive(Clone, Debug, PartialEq, Eq)]
struct ThemeEntry {
    name: String,
    color: String,
}

/// A theme: a finite map from colour names to colour texts.
///
/// A later `insert` under a name replaces the text that stood there. Names
/// that the editor does not know are kept and ignored.
#[derive(Clone, Debug)]
pub struct ThemeMap {
    entries: Vec<ThemeEntry>,
}

impl View for ThemeMap {
    type V = Map<Seq<char>, Seq<char>>;

    closed spec fn view(&self) -> Map<Seq<char>, Seq<char>> {
        Map::new(
            |name: Seq<char>| self.position(name) is Some,
            |name: Seq<char>| self.entries@[self.position(name).unwrap()].color@,
        )
    }
}

impl ThemeMap {
    /// Whether the entry at `i` is the first one named `name`.
    closed spec fn is_first(&self, name: Seq<char>, i: int) -> bool {
        &&& 0 <= i < self.entries@.len()
        &&& self.entries@[i].name@ == name
        &&& forall|j: int| 0 <= j < i ==> self.entries@[j].name@ != name
    }

    /// Where `name` stands among the entries, if it does.
    closed spec fn position(&self, name: Seq<char>) -> Option<int> {
        if exists|i: int| self.is_first(name, i) {
            Some(choose|i: int| self.is_first(name, i))
        } else {
            None
        }
    }

    /// An entry named `name` at `i`, with none before it, is where `name` stands.
    proof fn lemma_position_found(&self, name: Seq<char>, i: int)
        requires
            self.is_first(name, i),
        ensures
            self.position(name) == Some(i),
    {
        let p = choose|p: int| self.is_first(name, p);
        assert(self.is_first(name, p));
        if p < i {
            assert(self.entries@[p].name@ != name);
        }
        if i < p {
            assert(self.entries@[i].name@ != name);
        }
    }

    /// Where no entry is named `name`, `name` stands nowhere.
    proof fn lemma_position_absent(&self, name: Seq<char>)
        requires
            forall|j: int| 0 <= j < self.entries@.len() ==> self.entries@[j].name@ != name,
        ensures
            self.position(name) is None,
    {
        if exists|i: int| self.is_first(name, i) {
            let i = choose|i: int| self.is_first(name, i);
            assert(self.entries@[i].name@ != name);
        }
    }

    /// Two lists of entries with the same names in the same places agree on
    /// where each name stands.
    proof fn lemma_position_by_names(&self, other: &ThemeMap, name: Seq<char>)
        requires
            self.entries@.len() <= other.entries@.len(),
            forall|j: int|
                0 <= j < self.entries@.len() ==> self.entries@[j].name@ == other.entries@[j].name@,
            forall|j: int|
                self.entries@.len() <= j < other.entries@.len() ==> other.entries@[j].name@ != name,
        ensures
            self.position(name) == other.position(name),
    {
        if exists|i: int| self.is_first(name, i) {
            let i = choose|i: int| self.is_first(name, i);
            assert(other.is_first(name, i)) by {
                assert forall|j: int| 0 <= j < i implies other.entries@[j].name@ != name by {
                    assert(self.entries@[j].name@ != name);
                }
            }
            other.lemma_position_found(name, i);
        } else if exists|i: int| other.is_first(name, i) {
            let i = choose|i: int| other.is_first(name, i);
            assert(i < self.entries@.len());
            assert(self.is_first(name, i)) by {
                assert forall|j: int| 0 <= j < i implies self.entries@[j].name@ != name by {
                    assert(other.entries@[j].name@ != name);
                }
            }
        }
    }

    /// The empty theme.
    pub fn new() -> (theme: ThemeMap)
        ensures
            theme@ == Map::<Seq<char>, Seq<char>>::empty(),
    {
        let theme = ThemeMap { entries: Vec::new() };
        assert(theme@ =~= Map::<Seq<char>, Seq<char>>::empty());
        theme
    }

    /// The index of the entry named `name`, if there is one.
    fn find(&self, name: &str) -> (found: Option<usize>)
        ensures
            match found {
                Some(i) => self.is_first(name@, i as int) && self.position(name@) == Some(i as int),
                None => self.position(name@) is None && forall|j: int|
                    0 <= j < self.entries@.len() ==> self.entries@[j].name@ != name@,
            },
    {
        let wanted: String = name.to_owned();
        let mut i: usize = 0;
        while i < self.entries.len()
            invariant
                i <= self.entries@.len(),
                wanted@ == name@,
                forall|j: int| 0 <= j < i ==> self.entries@[j].name@ != name@,
            decreases self.entries@.len() - i,
        {
            if self.entries[i].name == wanted {
                proof {
                    self.lemma_position_found(name@, i as int);
                }
                return Some(i);
            }
            i += 1;
        }
        proof {
            self.lemma_position_absent(name@);
        }
        None
    }

    /// Puts `color` under `name` and returns the text that stood there before.
    pub fn insert(&mut self, name: &str, color: &str) -> (previous: Option<String>)
        ensures
            final(self)@ == old(self)@.insert(name@, color@),
            match previous {
                Some(p) => old(self)@.contains_key(name@) && p@ == old(self)@[name@],
                None => !old(self)@.contains_key(name@),
            },
    {
        let ghost before = *self;
        let found = self.find(name);
        match found {
            Some(i) => {
                let mut entry = ThemeEntry { name: name.to_owned(), color: color.to_owned() };
                let slot = &mut self.entries[i];
                std::mem::swap(slot, &mut entry);
                proof {
                    let after = *self;
                    assert forall|k: Seq<char>| before.position(k) == after.position(k) by {
                        before.lemma_position_by_names(&after, k);
                    }
                    assert(after@ =~= before@.insert(name@, color@));
                }
                Some(entry.color)
            },
            None => {
                self.entries.push(ThemeEntry { name: name.to_owned(), color: color.to_owned() });
                proof {
                    let after = *self;
                    let last = before.entries@.len() as int;
                    assert(after.entries@[last].name@ == name@);
                    assert forall|k: Seq<char>| k != name@ implies before.position(k)
                        == after.position(k) by {
                        before.lemma_position_by_names(&after, k);
                    }
                    assert(after.is_first(name@, last)) by {
                        assert forall|j: int| 0 <= j < last implies after.entries@[j].name@
                            != name@ by {
                            assert(before.entries@[j].name@ != name@);
                        }
                    }
                    after.lemma_position_found(name@, last);
                    assert(after@ =~= before@.insert(name@, color@));
                }
                None
            },
        }
    }

    /// The colour text that stands under `name`.
    pub fn get(&self, name: &str) -> (text: Option<&String>)
        ensures
            match text {
                Some(t) => self@.contains_key(name@) && t@ == self@[name@],
                None => !self@.contains_key(name@),
            },
    {
        match self.find(name) {
            Some(i) => Some(&self.entries[i].color),
            None => None,
        }
    }
}

} // verus!
