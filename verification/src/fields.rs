//! The field mapping of a decoded message: field names to field values, both
//! text, each name held once.

use crate::text::same_text;
use vstd::prelude::*;
use vstd::string::*;

verus! {

/// One named value of a message.
#[derive(Debug)]
pub struct Field {
    pub name: String,
    pub value: String,
}

/// No two entries share a name.
pub open spec fn names_distinct(es: Seq<Field>) -> bool {
    forall|i: int, j: int| 0 <= i < j < es.len() ==> es[i].name@ != es[j].name@
}

/// The mapping that a list of entries stands for: each entry binds its name
/// to its value, a later entry replacing an earlier one of the same name.
pub open spec fn map_of(es: Seq<Field>) -> Map<Seq<char>, Seq<char>>
    decreases es.len(),
{
    if es.len() == 0 {
        Map::empty()
    } else {
        map_of(es.drop_last()).insert(es.last().name@, es.last().value@)
    }
}

/// The names bound by `map_of` are the names of the entries.
pub proof fn lemma_map_of_dom(es: Seq<Field>, k: Seq<char>)
    ensures
        map_of(es).contains_key(k) <==> exists|i: int| 0 <= i < es.len() && es[i].name@ == k,
    decreases es.len(),
{
    if es.len() > 0 {
        let init = es.drop_last();
        lemma_map_of_dom(init, k);
        if map_of(es).contains_key(k) {
            if es.last().name@ == k {
                assert(es[es.len() - 1].name@ == k);
            } else {
                let i = choose|i: int| 0 <= i < init.len() && init[i].name@ == k;
                assert(es[i].name@ == k);
            }
        }
        if exists|i: int| 0 <= i < es.len() && es[i].name@ == k {
            let i = choose|i: int| 0 <= i < es.len() && es[i].name@ == k;
            if i < es.len() - 1 {
                assert(init[i].name@ == k);
            }
        }
    }
}

/// Where names are distinct, each entry's name is bound to that entry's
/// value.
pub proof fn lemma_map_of_value(es: Seq<Field>, i: int)
    requires
        names_distinct(es),
        0 <= i < es.len(),
    ensures
        map_of(es).contains_key(es[i].name@),
        map_of(es)[es[i].name@] == es[i].value@,
    decreases es.len(),
{
    if i < es.len() - 1 {
        let init = es.drop_last();
        assert(names_distinct(init)) by {
            assert forall|a: int, b: int| 0 <= a < b < init.len() implies init[a].name@
                != init[b].name@ by {
                assert(init[a] == es[a] && init[b] == es[b]);
            }
        }
        lemma_map_of_value(init, i);
        assert(init[i] == es[i]);
    }
}

/// Replacing the value of one entry rebinds its name and nothing else.
pub proof fn lemma_map_of_update(es: Seq<Field>, i: int, f: Field)
    requires
        names_distinct(es),
        0 <= i < es.len(),
        f.name@ == es[i].name@,
    ensures
        names_distinct(es.update(i, f)),
        map_of(es.update(i, f)) == map_of(es).insert(f.name@, f.value@),
{
    let es2 = es.update(i, f);
    assert(names_distinct(es2)) by {
        assert forall|a: int, b: int| 0 <= a < b < es2.len() implies es2[a].name@
            != es2[b].name@ by {
            assert(es2[a].name@ == es[a].name@ && es2[b].name@ == es[b].name@);
        }
    }
    let m2 = map_of(es2);
    let m = map_of(es).insert(f.name@, f.value@);
    assert forall|k: Seq<char>| m2.contains_key(k) <==> m.contains_key(k) by {
        lemma_map_of_dom(es, k);
        lemma_map_of_dom(es2, k);
        if exists|j: int| 0 <= j < es.len() && es[j].name@ == k {
            let j = choose|j: int| 0 <= j < es.len() && es[j].name@ == k;
            assert(es2[j].name@ == k);
        }
        if exists|j: int| 0 <= j < es2.len() && es2[j].name@ == k {
            let j = choose|j: int| 0 <= j < es2.len() && es2[j].name@ == k;
            assert(es[j].name@ == k);
        }
        if k == f.name@ {
            assert(es2[i].name@ == k);
        }
    }
    assert forall|k: Seq<char>| m2.contains_key(k) implies m2[k] == m[k] by {
        lemma_map_of_dom(es2, k);
        let j = choose|j: int| 0 <= j < es2.len() && es2[j].name@ == k;
        lemma_map_of_value(es2, j);
        if j != i {
            lemma_map_of_value(es, j);
        }
    }
    assert(m2 =~= m);
}

/// A mapping from field names to field values.
#[derive(Debug)]
pub struct FieldMap {
    entries: Vec<Field>,
}

impl View for FieldMap {
    type V = Map<Seq<char>, Seq<char>>;

    closed spec fn view(&self) -> Map<Seq<char>, Seq<char>> {
        map_of(self.entries@)
    }
}

impl FieldMap {
    #[verifier::type_invariant]
    spec fn well_formed(&self) -> bool {
        names_distinct(self.entries@)
    }

    /// The empty mapping.
    pub fn new() -> (m: FieldMap)
        ensures
            m@ == Map::<Seq<char>, Seq<char>>::empty(),
    {
        FieldMap { entries: Vec::new() }
    }

    /// Where `name` stands among the entries, if it does.
    fn position(&self, name: &str) -> (at: Option<usize>)
        ensures
            match at {
                Some(i) => i < self.entries.len() && self.entries[i as int].name@ == name@,
                None => forall|j: int|
                    0 <= j < self.entries.len() ==> self.entries[j].name@ != name@,
            },
    {
        let n: usize = self.entries.len();
        let mut i: usize = 0;
        while i < n
            invariant
                n == self.entries.len(),
                i <= n,
                forall|j: int| 0 <= j < i ==> self.entries[j].name@ != name@,
            decreases n - i,
        {
            if same_text(self.entries[i].name.as_str(), name) {
                return Some(i);
            }
            i += 1;
        }
        None
    }

    /// Binds `name` to `value`, in place of any value that `name` had.
    pub fn insert(&mut self, name: String, value: String)
        ensures
            final(self)@ == old(self)@.insert(name@, value@),
    {
        proof {
            use_type_invariant(&*self);
        }
        let found = self.position(name.as_str());
        let entry = Field { name, value };
        let mut es: Vec<Field> = Vec::new();
        core::mem::swap(&mut self.entries, &mut es);
        match found {
            Some(i) => {
                proof {
                    lemma_map_of_update(es@, i as int, entry);
                }
                es.set(i, entry);
            },
            None => {
                proof {
                    assert(es@.push(entry).drop_last() =~= es@);
                    assert(names_distinct(es@.push(entry)));
                }
                es.push(entry);
            },
        }
        self.entries = es;
    }

    /// The value bound to `name`, if there is one.
    pub fn get(&self, name: &str) -> (value: Option<&String>)
        ensures
            match value {
                Some(v) => self@.contains_key(name@) && v@ == self@[name@],
                None => !self@.contains_key(name@),
            },
    {
        proof {
            use_type_invariant(self);
            lemma_map_of_dom(self.entries@, name@);
        }
        match self.position(name) {
            Some(i) => {
                proof {
                    lemma_map_of_value(self.entries@, i as int);
                }
                Some(&self.entries[i].value)
            },
            None => None,
        }
    }

    /// Whether `name` is bound.
    pub fn contains_key(&self, name: &str) -> (b: bool)
        ensures
            b == self@.contains_key(name@),
    {
        self.get(name).is_some()
    }

    /// Whether no name is bound.
    pub fn is_empty(&self) -> (b: bool)
        ensures
            b == (self@ == Map::<Seq<char>, Seq<char>>::empty()),
    {
        proof {
            if self.entries@.len() > 0 {
                assert(map_of(self.entries@).contains_key(self.entries@.last().name@));
            }
        }
        self.entries.len() == 0
    }

    /// The entries, one for each bound name.
    pub fn entries(&self) -> (es: &Vec<Field>)
        ensures
            names_distinct(es@),
            map_of(es@) == self@,
    {
        proof {
            use_type_invariant(self);
        }
        &self.entries
    }
}

} // verus!
