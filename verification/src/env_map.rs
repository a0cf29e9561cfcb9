//! An environment: variable names mapped to values, each name held once.

use vstd::prelude::*;

verus! {

/// What contracts see of a list of variables: the name and the value of each.
pub open spec fn bindings(entries: Seq<(String, String)>) -> Seq<(Seq<char>, Seq<char>)> {
    entries.map_values(|e: (String, String)| (e.0@, e.1@))
}

/// No name occurs at two positions of the list.
pub open spec fn distinct_names(list: Seq<(Seq<char>, Seq<char>)>) -> bool {
    forall|i: int, j: int| 0 <= i < j < list.len() ==> (#[trigger] list[i]).0 != (#[trigger] list[j]).0
}

/// The mapping that a list of variables denotes. Where a name occurs more than
/// once, the occurrence nearest the end of the list decides its value.
pub open spec fn as_map(list: Seq<(Seq<char>, Seq<char>)>) -> Map<Seq<char>, Seq<char>>
    decreases list.len(),
{
    if list.len() == 0 {
        Map::empty()
    } else {
        as_map(list.drop_last()).insert(list.last().0, list.last().1)
    }
}

/// A name is bound by `as_map(list)` exactly when it occurs in `list`.
pub proof fn lemma_as_map_domain(list: Seq<(Seq<char>, Seq<char>)>, name: Seq<char>)
    ensures
        as_map(list).contains_key(name) <==> exists|i: int|
            0 <= i < list.len() && (#[trigger] list[i]).0 == name,
    decreases list.len(),
{
    if list.len() > 0 {
        let front = list.drop_last();
        lemma_as_map_domain(front, name);
        if as_map(list).contains_key(name) {
            if list.last().0 == name {
                assert(list[list.len() - 1].0 == name);
            } else {
                let i: int = choose|i: int| 0 <= i < front.len() && (#[trigger] front[i]).0 == name;
                assert(list[i].0 == name);
            }
        }
        if exists|i: int| 0 <= i < list.len() && (#[trigger] list[i]).0 == name {
            let i: int = choose|i: int| 0 <= i < list.len() && (#[trigger] list[i]).0 == name;
            if i < list.len() - 1 {
                assert(front[i].0 == name);
            }
        }
    }
}

/// The value of a name in `as_map(list)` is that of its last occurrence.
pub proof fn lemma_as_map_value(list: Seq<(Seq<char>, Seq<char>)>, at: int)
    requires
        0 <= at < list.len(),
        forall|j: int| at < j < list.len() ==> (#[trigger] list[j]).0 != list[at].0,
    ensures
        as_map(list).contains_key(list[at].0),
        as_map(list)[list[at].0] == list[at].1,
    decreases list.len(),
{
    if at < list.len() - 1 {
        let front = list.drop_last();
        assert(list[list.len() - 1].0 != list[at].0);
        assert(front[at] == list[at]);
        assert forall|j: int| at < j < front.len() implies (#[trigger] front[j]).0 != front[at].0 by {
            assert(front[j] == list[j]);
        }
        lemma_as_map_value(front, at);
    }
}

/// Appending a variable to the list binds its name to its value.
pub proof fn lemma_as_map_push(list: Seq<(Seq<char>, Seq<char>)>, name: Seq<char>, value: Seq<char>)
    ensures
        as_map(list.push((name, value))) == as_map(list).insert(name, value),
{
    assert(list.push((name, value)).drop_last() =~= list);
}

/// Replacing the value at the one position that holds a name rebinds that name
/// and nothing else.
pub proof fn lemma_as_map_update(list: Seq<(Seq<char>, Seq<char>)>, at: int, value: Seq<char>)
    requires
        0 <= at < list.len(),
        distinct_names(list),
    ensures
        distinct_names(list.update(at, (list[at].0, value))),
        as_map(list.update(at, (list[at].0, value))) == as_map(list).insert(list[at].0, value),
    decreases list.len(),
{
    let name = list[at].0;
    let changed = list.update(at, (name, value));
    assert forall|i: int, j: int| 0 <= i < j < changed.len() implies (#[trigger] changed[i]).0 != (
    #[trigger] changed[j]).0 by {
        assert(changed[i].0 == list[i].0);
        assert(changed[j].0 == list[j].0);
    }
    let front = list.drop_last();
    if at == list.len() - 1 {
        assert(changed.drop_last() =~= front);
        assert(as_map(front).insert(name, list[at].1).insert(name, value) =~= as_map(front).insert(
            name,
            value,
        ));
    } else {
        assert forall|i: int, j: int| 0 <= i < j < front.len() implies (#[trigger] front[i]).0 != (
        #[trigger] front[j]).0 by {
            assert(front[i] == list[i]);
            assert(front[j] == list[j]);
        }
        assert(front[at] == list[at]);
        lemma_as_map_update(front, at, value);
        assert(changed.drop_last() =~= front.update(at, (name, value)));
        let last = list.last();
        assert(changed.last() == last);
        assert(list[list.len() - 1].0 != list[at].0);
        assert(as_map(front).insert(name, value).insert(last.0, last.1) =~= as_map(front).insert(
            last.0,
            last.1,
        ).insert(name, value));
    }
}

/// A list without repeated names denotes a mapping with one entry for each of
/// its positions.
pub proof fn lemma_as_map_len(list: Seq<(Seq<char>, Seq<char>)>)
    requires
        distinct_names(list),
    ensures
        as_map(list).dom().finite(),
        as_map(list).len() == list.len(),
    decreases list.len(),
{
    if list.len() > 0 {
        let front = list.drop_last();
        assert forall|i: int, j: int| 0 <= i < j < front.len() implies (#[trigger] front[i]).0 != (
        #[trigger] front[j]).0 by {
            assert(front[i] == list[i]);
            assert(front[j] == list[j]);
        }
        lemma_as_map_len(front);
        lemma_as_map_domain(front, list.last().0);
        if as_map(front).contains_key(list.last().0) {
            let i: int = choose|i: int| 0 <= i < front.len() && (#[trigger] front[i]).0 == list.last().0;
            assert(list[i].0 == list[list.len() - 1].0);
        }
    }
}

/// The variables handed to a new process: a finite mapping from names to values.
///
/// Names are compared exactly, character by character. The order in which the
/// variables are kept carries no meaning.
pub struct EnvironmentMap {
    entries: Vec<(String, String)>,
}

impl View for EnvironmentMap {
    type V = Map<Seq<char>, Seq<char>>;

    closed spec fn view(&self) -> Map<Seq<char>, Seq<char>> {
        as_map(bindings(self.entries@))
    }
}

impl EnvironmentMap {
    #[verifier::type_invariant]
    spec fn well_formed(self) -> bool {
        distinct_names(bindings(self.entries@))
    }

    /// An environment that defines nothing.
    pub fn new() -> (env: Self)
        ensures
            env@ == Map::<Seq<char>, Seq<char>>::empty(),
    {
        EnvironmentMap { entries: Vec::new() }
    }

    /// The environment that a list of variables denotes. Where the list gives a
    /// name more than once, the value given last is kept.
    pub fn from_pairs(pairs: Vec<(String, String)>) -> (env: Self)
        ensures
            env@ == as_map(bindings(pairs@)),
    {
        let mut env = EnvironmentMap::new();
        for pair in it: pairs.into_iter()
            invariant
                it.seq() == pairs@,
                env@ == as_map(bindings(pairs@.take(it.index() as int))),
        {
            proof {
                let done = pairs@.take(it.index() as int);
                let next = pairs@.take(it.index() + 1);
                assert(bindings(next) =~= bindings(done).push((pair.0@, pair.1@)));
                lemma_as_map_push(bindings(done), pair.0@, pair.1@);
            }
            env.insert(pair.0, pair.1);
        }
        proof {
            assert(pairs@.take(pairs@.len() as int) =~= pairs@);
        }
        env
    }

    /// The variables as a list, each name once, in no particular order.
    pub fn into_pairs(self) -> (pairs: Vec<(String, String)>)
        ensures
            distinct_names(bindings(pairs@)),
            as_map(bindings(pairs@)) == self@,
    {
        proof {
            use_type_invariant(&self);
        }
        self.entries
    }

    /// The number of variables that the environment defines.
    pub fn len(&self) -> (count: usize)
        ensures
            self@.dom().finite(),
            count == self@.len(),
    {
        proof {
            use_type_invariant(self);
            lemma_as_map_len(bindings(self.entries@));
        }
        self.entries.len()
    }

    /// Binds `name` to `value`, replacing the value that `name` had, if any.
    pub fn insert(&mut self, name: String, value: String)
        ensures
            final(self)@ == old(self)@.insert(name@, value@),
    {
        proof {
            use_type_invariant(&*self);
        }
        let found = self.position(name.as_str());
        let ghost before = bindings(self.entries@);
        let mut entries = Vec::new();
        std::mem::swap(&mut entries, &mut self.entries);
        match found {
            Some(at) => {
                entries.set(at, (name, value));
                proof {
                    lemma_as_map_update(before, at as int, value@);
                    assert(bindings(entries@) =~= before.update(at as int, (name@, value@)));
                }
            },
            None => {
                entries.push((name, value));
                proof {
                    lemma_as_map_push(before, name@, value@);
                    assert(bindings(entries@) =~= before.push((name@, value@)));
                    assert forall|i: int, j: int| 0 <= i < j < before.len() + 1 implies (
                    #[trigger] bindings(entries@)[i]).0 != (#[trigger] bindings(entries@)[j]).0 by {
                        if j < before.len() {
                            assert(before[i].0 != before[j].0);
                        } else {
                            assert(old(self).entries[i].0@ != name@);
                        }
                    }
                }
            },
        }
        self.entries = entries;
    }

    /// The position at which `name` is held, if it is held at all.
    fn position(&self, name: &str) -> (found: Option<usize>)
        ensures
            match found {
                Some(at) => at < self.entries.len() && self.entries[at as int].0@ == name@,
                None => forall|i: int| 0 <= i < self.entries.len() ==> (#[trigger] self.entries[i]).0@ != name@,
            },
    {
        let key = String::from_str(name);
        let mut i: usize = 0;
        while i < self.entries.len()
            invariant
                i <= self.entries.len(),
                key@ == name@,
                forall|j: int| 0 <= j < i ==> (#[trigger] self.entries[j]).0@ != name@,
            decreases self.entries.len() - i,
        {
            if self.entries[i].0 == key {
                return Some(i);
            }
            i += 1;
        }
        None
    }

    /// Whether the environment defines `name`.
    pub fn contains_key(&self, name: &str) -> (defined: bool)
        ensures
            defined == self@.contains_key(name@),
    {
        let found = self.position(name);
        proof {
            use_type_invariant(self);
            self.lemma_position(name@, found);
        }
        found.is_some()
    }

    /// The value of `name`, or `None` where the environment does not define it.
    pub fn get(&self, name: &str) -> (value: Option<&String>)
        ensures
            value.is_some() == self@.contains_key(name@),
            value matches Some(v) ==> v@ == self@[name@],
    {
        let found = self.position(name);
        proof {
            use_type_invariant(self);
            self.lemma_position(name@, found);
        }
        match found {
            Some(at) => Some(&self.entries[at].1),
            None => None,
        }
    }

    /// What the outcome of a search of the list says about the mapping.
    proof fn lemma_position(&self, name: Seq<char>, found: Option<usize>)
        requires
            self.well_formed(),
            match found {
                Some(at) => at < self.entries.len() && self.entries[at as int].0@ == name,
                None => forall|i: int| 0 <= i < self.entries.len() ==> (#[trigger] self.entries[i]).0@ != name,
            },
        ensures
            found.is_some() == self@.contains_key(name),
            found matches Some(at) ==> self@[name] == self.entries[at as int].1@,
    {
        let list = bindings(self.entries@);
        lemma_as_map_domain(list, name);
        match found {
            Some(at) => {
                assert(list[at as int] == (self.entries[at as int].0@, self.entries[at as int].1@));
                lemma_as_map_value(list, at as int);
            },
            None => {
                if as_map(list).contains_key(name) {
                    let i: int = choose|i: int| 0 <= i < list.len() && (#[trigger] list[i]).0 == name;
                    assert(self.entries[i].0@ == name);
                }
            },
        }
    }
}

} // verus!
