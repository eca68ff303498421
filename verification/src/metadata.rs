//! User metadata of a stored object: a map from names to values.
use vstd::prelude::*;

verus! {

/// User metadata of a stored object. A name has one value: the one set last.
#[derive(Debug)]
pub struct Metadata {
    entries: Vec<(String, String)>,
}

/// The map that a list of settings leaves behind, later ones winning.
spec fn settings(entries: Seq<(String, String)>) -> Map<Seq<char>, Seq<char>>
    decreases entries.len(),
{
    if entries.len() == 0 {
        Map::empty()
    } else {
        settings(entries.drop_last()).insert(entries.last().0@, entries.last().1@)
    }
}

impl View for Metadata {
    type V = Map<Seq<char>, Seq<char>>;

    closed spec fn view(&self) -> Map<Seq<char>, Seq<char>> {
        settings(self.entries@)
    }
}

impl Metadata {
    /// No metadata.
    pub fn new() -> (r: Self)
        ensures
            r@ == Map::<Seq<char>, Seq<char>>::empty(),
    {
        Metadata { entries: Vec::new() }
    }

    /// Sets `name` to `value`, whatever it was before.
    pub fn insert(&mut self, name: String, value: String)
        ensures
            final(self)@ == old(self)@.insert(name@, value@),
    {
        self.entries.push((name, value));
        assert(self.entries@.drop_last() =~= old(self).entries@);
    }

    /// The value of `name`, if it has one.
    pub fn get(&self, name: &str) -> (r: Option<&String>)
        ensures
            match r {
                Some(value) => self@.contains_key(name@) && self@[name@] == value@,
                None => !self@.contains_key(name@),
            },
    {
        let wanted: String = name.to_owned();
        let mut i: usize = self.entries.len();
        assert(self.entries@.take(i as int) =~= self.entries@);
        while i > 0
            invariant
                i <= self.entries@.len(),
                wanted@ == name@,
                settings(self.entries@.take(i as int)).contains_key(name@) == self@.contains_key(
                    name@,
                ),
                self@.contains_key(name@) ==> settings(self.entries@.take(i as int))[name@]
                    == self@[name@],
            decreases i,
        {
            let ghost before = self.entries@.take(i as int);
            i = i - 1;
            assert(before.drop_last() =~= self.entries@.take(i as int));
            assert(before.last() == self.entries@[i as int]);
            if self.entries[i].0 == wanted {
                return Some(&self.entries[i].1);
            }
        }
        None
    }
}

} // verus!
