//! Named tensors, as a checkpoint holds them.
use crate::tensor::{Tensor, TensorView};
use vstd::prelude::*;

verus! {

/// One tensor under its full name.
#[derive(Debug)]
struct Entry<T> {
    name: String,
    tensor: Tensor<T>,
}

/// The tensors of a checkpoint, each under its full name, such as
/// `layers.3.mlp.down_proj.weight`. No name occurs twice.
#[derive(Debug)]
pub struct WeightStore<T> {
    entries: Vec<Entry<T>>,
}

/// Whether entry `i` of `entries` goes by the name `key`.
spec fn named<T>(entries: Seq<Entry<T>>, i: int, key: Seq<char>) -> bool {
    0 <= i < entries.len() && entries[i].name@ == key
}

/// No two entries go by one name.
spec fn distinct<T>(entries: Seq<Entry<T>>) -> bool {
    forall|i: int, j: int|
        0 <= i < entries.len() && 0 <= j < entries.len() && entries[i].name@ == entries[j].name@
            ==> i == j
}

/// The entries as a map from names to tensors.
spec fn as_map<T>(entries: Seq<Entry<T>>) -> Map<Seq<char>, TensorView<T>> {
    Map::new(
        |key: Seq<char>| exists|i: int| named(entries, i, key),
        |key: Seq<char>| entries[choose|i: int| named(entries, i, key)].tensor@,
    )
}

/// Where no name occurs twice, the entry found under a name is the one the
/// map gives.
proof fn lemma_as_map_at<T>(entries: Seq<Entry<T>>, i: int)
    requires
        distinct(entries),
        0 <= i < entries.len(),
    ensures
        as_map(entries).contains_key(entries[i].name@),
        as_map(entries)[entries[i].name@] == entries[i].tensor@,
{
    let key = entries[i].name@;
    assert(named(entries, i, key));
    let j = choose|j: int| named(entries, j, key);
    assert(named(entries, j, key));
}

/// Putting an entry at `pos`, in place of the one of that name or behind the
/// last where there was none, inserts it into the map and keeps the names
/// distinct.
proof fn lemma_as_map_put<T>(
    before: Seq<Entry<T>>,
    after: Seq<Entry<T>>,
    pos: int,
    key: Seq<char>,
    t: TensorView<T>,
)
    requires
        distinct(before),
        0 <= pos < after.len(),
        after[pos].name@ == key,
        after[pos].tensor@ == t,
        pos < before.len() ==> after.len() == before.len() && before[pos].name@ == key,
        pos >= before.len() ==> after.len() == before.len() + 1 && forall|i: int|
            !named(before, i, key),
        forall|i: int| 0 <= i < before.len() && i != pos ==> after[i] == before[i],
    ensures
        distinct(after),
        as_map(after) =~= as_map(before).insert(key, t),
{
    assert forall|i: int, j: int|
        0 <= i < after.len() && 0 <= j < after.len() && after[i].name@
            == after[j].name@ implies i == j by {
        if i != j {
            if i == pos {
                assert(named(before, j, key));
            } else if j == pos {
                assert(named(before, i, key));
            }
        }
    }
    let target = as_map(before).insert(key, t);
    assert forall|k: Seq<char>| as_map(after).contains_key(k) <==> target.contains_key(k) by {
        if as_map(after).contains_key(k) {
            let i = choose|i: int| named(after, i, k);
            if i != pos {
                assert(named(before, i, k));
            }
        }
        if target.contains_key(k) {
            if k == key {
                assert(named(after, pos, k));
            } else {
                let i = choose|i: int| named(before, i, k);
                assert(named(after, i, k));
            }
        }
    }
    assert forall|k: Seq<char>| as_map(after).contains_key(k) implies as_map(after)[k]
        == target[k] by {
        let i = choose|i: int| named(after, i, k);
        lemma_as_map_at(after, i);
        if k == key {
            assert(i == pos);
        } else {
            assert(named(before, i, k));
            lemma_as_map_at(before, i);
        }
    }
}

impl<T> View for WeightStore<T> {
    type V = Map<Seq<char>, TensorView<T>>;

    closed spec fn view(&self) -> Map<Seq<char>, TensorView<T>> {
        as_map(self.entries@)
    }
}

impl<T> WeightStore<T> {
    #[verifier::type_invariant]
    spec fn inv(self) -> bool {
        distinct(self.entries@)
    }

    /// The store that holds nothing.
    pub fn new() -> (r: Self)
        ensures
            r@ == Map::<Seq<char>, TensorView<T>>::empty(),
    {
        let r = WeightStore { entries: Vec::new() };
        proof {
            assert(r@ =~= Map::<Seq<char>, TensorView<T>>::empty());
        }
        r
    }

    /// The position of the entry named `key`, if there is one.
    fn position(&self, key: &String) -> (r: Option<usize>)
        ensures
            match r {
                Some(i) => named(self.entries@, i as int, key@),
                None => forall|i: int| !named(self.entries@, i, key@),
            },
    {
        let mut i: usize = 0;
        while i < self.entries.len()
            invariant
                i <= self.entries@.len(),
                forall|k: int| 0 <= k < i ==> !named(self.entries@, k, key@),
            decreases self.entries@.len() - i,
        {
            if self.entries[i].name == *key {
                return Some(i);
            }
            i += 1;
        }
        None
    }

    /// Puts `tensor` under `name`, in place of what was there.
    pub fn insert(&mut self, name: &str, tensor: Tensor<T>)
        ensures
            final(self)@ == old(self)@.insert(name@, tensor@),
    {
        proof {
            use_type_invariant(&*self);
        }
        let key = String::from_str(name);
        let found = self.position(&key);
        let ghost before = self.entries@;
        let ghost added = tensor@;
        let mut entries: Vec<Entry<T>> = Vec::new();
        core::mem::swap(&mut self.entries, &mut entries);
        let ghost pos: int;
        match found {
            Some(i) => {
                entries.set(i, Entry { name: key, tensor });
                proof {
                    pos = i as int;
                }
            },
            None => {
                entries.push(Entry { name: key, tensor });
                proof {
                    pos = before.len() as int;
                }
            },
        }
        proof {
            lemma_as_map_put(before, entries@, pos, name@, added);
        }
        core::mem::swap(&mut self.entries, &mut entries);
    }

    /// The tensor under `name`, if there is one.
    pub fn get(&self, name: &str) -> (r: Option<&Tensor<T>>)
        ensures
            match r {
                Some(t) => self@.contains_key(name@) && self@[name@] == t@ && t@.wf(),
                None => !self@.contains_key(name@),
            },
    {
        proof {
            use_type_invariant(self);
        }
        let key = String::from_str(name);
        match self.position(&key) {
            Some(i) => {
                proof {
                    lemma_as_map_at(self.entries@, i as int);
                }
                let t = &self.entries[i].tensor;
                proof {
                    use_type_invariant(t);
                }
                Some(t)
            },
            None => None,
        }
    }
}

} // verus!
