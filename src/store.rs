use rand::seq::IteratorRandom;
use vstd::prelude::*;
use vstd::string::*;

use crate::error::IhftError;
use crate::lines::{lines_of, parse_lines, render, render_lines};

verus! {

/// The views of a list of strings.
pub open spec fn texts(v: Seq<String>) -> Seq<Seq<char>> {
    v.map_values(|s: String| s@)
}

/// An ordered list of text entries, kept in the file at `path`.
/// Entries need not be unique; the order is the file's order.
pub struct Store {
    pub path: String,
    pub entries: Vec<String>,
}

impl View for Store {
    type V = Seq<Seq<char>>;

    open spec fn view(&self) -> Seq<Seq<char>> {
        texts(self.entries@)
    }
}

/// Relies on rand's `IteratorRandom::choose` over `0..n` with the thread-local
/// generator: for a range of known length it gives `None` exactly when the range
/// is empty, and otherwise one of its indices.
#[verifier::external_body]
fn choose_index(n: usize) -> (r: Option<usize>)
    ensures
        r is None <==> n == 0,
        r matches Some(i) ==> i < n,
{
    (0..n).choose(&mut rand::thread_rng())
}

/// The directory under `home` that holds the stores' files.
pub fn data_dir(home: &str) -> (r: String)
    ensures
        r@ == home@ + "/.local/share/ihft"@,
{
    String::from_str(home).concat("/.local/share/ihft")
}

/// The path of the file called `name` in `dir`.
pub fn store_path(dir: &str, name: &str) -> (r: String)
    ensures
        r@ == dir@ + seq!['/'] + name@,
{
    proof {
        reveal_strlit("/");
    }
    String::from_str(dir).concat("/").concat(name)
}

impl Store {
    /// A store at `path` holding `entries`, in that order.
    pub fn new(path: String, entries: Vec<String>) -> (s: Store)
        ensures
            s.path@ == path@,
            s@ == texts(entries@),
    {
        Store { path, entries }
    }

    /// The store at `path` whose file holds `text`: one entry per line, in
    /// file order.
    pub fn from_text(path: String, text: &str) -> (s: Store)
        ensures
            s.path@ == path@,
            s@ == lines_of(text@),
    {
        let entries = parse_lines(text);
        Store { path, entries }
    }

    /// The text that the store's file is written with: each entry followed by
    /// a newline.
    pub fn contents(&self) -> (r: String)
        ensures
            r@ == render(self@),
    {
        render_lines(&self.entries)
    }

    /// The number of entries.
    pub fn len(&self) -> (n: usize)
        ensures
            n == self@.len(),
    {
        self.entries.len()
    }

    /// Puts `thing` in front of all entries.
    pub fn insert(&mut self, thing: &String)
        ensures
            final(self)@ == seq![thing@].add(old(self)@),
            final(self).path == old(self).path,
    {
        self.entries.insert(0, thing.clone());
        assert(self@ =~= seq![thing@].add(old(self)@));
    }

    /// Index of the first entry equal to `thing`, if any.
    pub fn find(&self, thing: &String) -> (r: Option<usize>)
        ensures
            r is None <==> !self@.contains(thing@),
            r matches Some(i) ==> i < self@.len() && self@[i as int] == thing@,
            r matches Some(i) ==> self@.index_of_first(thing@) == Some(i as int),
    {
        let mut i: usize = 0;
        while i < self.entries.len()
            invariant
                i <= self.entries.len(),
                forall|j: int| 0 <= j < i ==> self@[j] != thing@,
            decreases self.entries.len() - i,
        {
            if self.entries[i] == *thing {
                proof {
                    self@.index_of_first_ensures(thing@);
                    assert(self@[i as int] == thing@);
                }
                return Some(i);
            }
            i = i + 1;
        }
        proof {
            self@.index_of_first_ensures(thing@);
        }
        None
    }

    /// Removes the first entry equal to `thing`; fails with `NotFound` when there
    /// is none, leaving the store as it was.
    pub fn remove(&mut self, thing: &String) -> (r: Result<(), IhftError>)
        ensures
            r is Ok <==> old(self)@.contains(thing@),
            r is Ok ==> final(self)@ == old(self)@.remove_value(thing@),
            r matches Err(e) ==> (e matches IhftError::NotFound(t) && t@ == thing@),
            r is Err ==> final(self)@ == old(self)@,
            final(self).path == old(self).path,
    {
        match self.find(thing) {
            Some(i) => {
                self.entries.remove(i);
                assert(self@ =~= old(self)@.remove(i as int));
                Ok(())
            },
            None => Err(IhftError::NotFound(thing.clone())),
        }
    }

    /// Takes out the entry at the chosen index: the value found there is removed
    /// as `remove` removes it (its first occurrence) and returned. With no choice,
    /// fails with `EmptyStore` and changes nothing.
    pub fn take_chosen(&mut self, choice: Option<usize>) -> (r: Result<String, IhftError>)
        requires
            choice matches Some(i) ==> i < old(self)@.len(),
        ensures
            choice is None ==> (r matches Err(IhftError::EmptyStore)),
            choice is None ==> final(self)@ == old(self)@,
            choice matches Some(i) ==> (r matches Ok(t) && t@ == old(self)@[i as int]
                && final(self)@ == old(self)@.remove_value(t@)),
            final(self).path == old(self).path,
    {
        match choice {
            None => Err(IhftError::EmptyStore),
            Some(i) => {
                let thing = self.entries[i].clone();
                assert(old(self)@[i as int] == thing@);
                let found = self.remove(&thing);
                assert(found is Ok);
                Ok(thing)
            },
        }
    }

    /// Takes out one entry chosen uniformly at random; fails with `EmptyStore`
    /// exactly when the store is empty.
    pub fn get_one(&mut self) -> (r: Result<String, IhftError>)
        ensures
            r is Err <==> old(self)@.len() == 0,
            r is Err ==> (r matches Err(IhftError::EmptyStore)),
            r is Err ==> final(self)@ == old(self)@,
            r matches Ok(t) ==> old(self)@.contains(t@) && final(self)@ == old(self)@.remove_value(t@),
            final(self).path == old(self).path,
    {
        let choice = choose_index(self.entries.len());
        self.take_chosen(choice)
    }
}

} // verus!
