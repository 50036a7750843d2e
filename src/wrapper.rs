//! A newtype over a list of strings.
use vstd::prelude::*;

verus! {

pub struct Wrapper(pub Vec<String>);

impl Wrapper {
    /// Appends `s` and returns the new length.
    pub fn push(&mut self, s: String) -> (r: usize)
        ensures
            final(self).0@ == old(self).0@.push(s),
            r == final(self).0@.len(),
    {
        self.0.push(s);
        self.0.len()
    }

    /// Removes and returns the string at `index`, shifting the rest down.
    pub fn remove(&mut self, index: usize) -> (r: String)
        requires
            index < old(self).0@.len(),
        ensures
            r == old(self).0@[index as int],
            final(self).0@ == old(self).0@.remove(index as int),
    {
        self.0.remove(index)
    }

    /// The string at `index`, or `None` past the end.
    pub fn get(&self, index: usize) -> (r: Option<&String>)
        ensures
            index < self.0@.len() ==> r == Some(&self.0@[index as int]),
            index >= self.0@.len() ==> r is None,
    {
        if index < self.0.len() {
            Some(&self.0[index])
        } else {
            None
        }
    }

    pub fn len(&self) -> (r: usize)
        ensures
            r == self.0@.len(),
    {
        self.0.len()
    }
}

} // verus!
