use vstd::prelude::*;
use vstd::string::*;

use crate::error::IhftError;
use crate::record::{parse_record, record_text, Record, RecordView};
use crate::store::{texts, Store};

verus! {

/// The things and the history after undoing the front history record, or
/// `None` where undo fails and changes nothing: with no history, with a front
/// record that records no action, or with an added thing that is gone.
pub open spec fn undo_state(things: Seq<Seq<char>>, hist: Seq<Seq<char>>) -> Option<
    (Seq<Seq<char>>, Seq<Seq<char>>),
> {
    if hist.len() == 0 {
        None
    } else {
        match parse_record(hist[0]) {
            None => None,
            Some(RecordView::Added(t)) => if things.contains(t) {
                Some((things.remove_value(t), hist.drop_first()))
            } else {
                None
            },
            Some(RecordView::Removed(t)) => Some((seq![t] + things, hist.drop_first())),
        }
    }
}

/// The thing that the front history record says was added, where it is no
/// longer among the things.
pub open spec fn missing_added(things: Seq<Seq<char>>, hist: Seq<Seq<char>>) -> Option<Seq<char>> {
    if hist.len() == 0 {
        None
    } else {
        match parse_record(hist[0]) {
            Some(RecordView::Added(t)) => if things.contains(t) {
                None
            } else {
                Some(t)
            },
            _ => None,
        }
    }
}

/// The lines that listing shows for these things.
pub open spec fn listing(things: Seq<Seq<char>>) -> Seq<Seq<char>> {
    if things.len() == 0 {
        seq!["No things stored"@]
    } else {
        things
    }
}

/// The two stores that every operation works on: the things, and the history
/// of actions taken on them, most recent first.
pub struct Data {
    pub things: Store,
    pub hist: Store,
}

impl Data {
    /// Both stores, as loaded.
    pub fn new(things: Store, hist: Store) -> (d: Data)
        ensures
            d.things == things,
            d.hist == hist,
    {
        Data { things, hist }
    }

    /// Adds `thing` in front of the things and records it; with no thing, or
    /// an empty one, does nothing. Tells whether it added.
    pub fn add(&mut self, thing: Option<String>) -> (r: bool)
        ensures
            r == (thing matches Some(t) && t@.len() > 0),
            !r ==> final(self)@ == old(self)@,
            r ==> final(self).things@ == seq![thing->Some_0@] + old(self).things@,
            r ==> final(self).hist@ == seq![record_text(RecordView::Added(thing->Some_0@))]
                + old(self).hist@,
            final(self).paths() == old(self).paths(),
    {
        match thing {
            Some(t) => {
                if t.as_str().is_empty() {
                    return false;
                }
                self.things.insert(&t);
                let line = Record::Added(t).to_line();
                self.hist.insert(&line);
                true
            },
            None => false,
        }
    }

    /// The lines to show for the things: the things in stored order, or a
    /// single line saying that there are none.
    pub fn list(&self) -> (r: Vec<String>)
        ensures
            texts(r@) == listing(self.things@),
    {
        if self.things.len() == 0 {
            let r = vec![String::from_str("No things stored")];
            assert(texts(r@) =~= listing(self.things@));
            r
        } else {
            let r = self.things.entries.clone();
            assert(texts(r@) =~= listing(self.things@));
            r
        }
    }

    /// Removes the first entry equal to `thing` from the things and records
    /// it; fails with `NotFound` and changes nothing where there is none.
    pub fn remove(&mut self, thing: String) -> (r: Result<(), IhftError>)
        ensures
            r is Ok <==> old(self).things@.contains(thing@),
            r is Ok ==> final(self).things@ == old(self).things@.remove_value(thing@),
            r is Ok ==> final(self).hist@ == seq![record_text(RecordView::Removed(thing@))]
                + old(self).hist@,
            r matches Err(e) ==> (e matches IhftError::NotFound(t) && t@ == thing@),
            r is Err ==> final(self)@ == old(self)@,
            final(self).paths() == old(self).paths(),
    {
        match self.things.remove(&thing) {
            Ok(()) => {
                let line = Record::Removed(thing).to_line();
                self.hist.insert(&line);
                Ok(())
            },
            Err(e) => Err(e),
        }
    }

    /// Undoes the action of the front history record and drops that record.
    /// Fails with `NothingToUndo` on an empty history, with `CorruptHistory`
    /// on a front record that records no action, and with `NotFound` where the
    /// added thing is no longer there; a failure changes nothing.
    pub fn undo(&mut self) -> (r: Result<(), IhftError>)
        ensures
            undo_state(old(self).things@, old(self).hist@) matches Some(s) ==> r is Ok
                && final(self).things@ == s.0 && final(self).hist@ == s.1,
            undo_state(old(self).things@, old(self).hist@) is None ==> r is Err
                && final(self)@ == old(self)@,
            old(self).hist@.len() == 0 ==> (r matches Err(IhftError::NothingToUndo)),
            old(self).hist@.len() > 0 && parse_record(old(self).hist@[0]) is None ==> (
            r matches Err(IhftError::CorruptHistory)),
            missing_added(old(self).things@, old(self).hist@) matches Some(t) ==> (r matches Err(
                IhftError::NotFound(u),
            ) && u@ == t),
            final(self).paths() == old(self).paths(),
    {
        if self.hist.len() == 0 {
            return Err(IhftError::NothingToUndo);
        }
        let rec = Record::parse(self.hist.entries[0].as_str());
        match rec {
            Err(e) => {
                return Err(e);
            },
            Ok(Record::Added(t)) => {
                match self.things.remove(&t) {
                    Err(e) => {
                        return Err(e);
                    },
                    Ok(()) => {},
                }
            },
            Ok(Record::Removed(t)) => {
                self.things.insert(&t);
            },
        }
        let ghost before = self.hist@;
        self.hist.entries.remove(0);
        assert(self.hist@ =~= before.drop_first());
        Ok(())
    }

    /// Takes out the chosen thing and records its removal; with no choice,
    /// fails with `EmptyStore` and changes nothing.
    pub fn pick_chosen(&mut self, choice: Option<usize>) -> (r: Result<String, IhftError>)
        requires
            choice matches Some(i) ==> i < old(self).things@.len(),
        ensures
            choice is None ==> (r matches Err(IhftError::EmptyStore)),
            choice is None ==> final(self)@ == old(self)@,
            choice matches Some(i) ==> (r matches Ok(t) && t@ == old(self).things@[i as int]),
            r matches Ok(t) ==> final(self).things@ == old(self).things@.remove_value(t@),
            r matches Ok(t) ==> final(self).hist@ == seq![record_text(RecordView::Removed(t@))]
                + old(self).hist@,
            final(self).paths() == old(self).paths(),
    {
        let thing = self.things.take_chosen(choice)?;
        let line = Record::Removed(thing.clone()).to_line();
        self.hist.insert(&line);
        Ok(thing)
    }

    /// Takes out one thing chosen uniformly at random and records its
    /// removal; fails with `EmptyStore`, changing nothing, exactly when there
    /// are no things.
    pub fn ihft(&mut self) -> (r: Result<String, IhftError>)
        ensures
            r is Err <==> old(self).things@.len() == 0,
            r is Err ==> (r matches Err(IhftError::EmptyStore)),
            r is Err ==> final(self)@ == old(self)@,
            r matches Ok(t) ==> old(self).things@.contains(t@),
            r matches Ok(t) ==> final(self).things@ == old(self).things@.remove_value(t@),
            r matches Ok(t) ==> final(self).hist@ == seq![record_text(RecordView::Removed(t@))]
                + old(self).hist@,
            final(self).paths() == old(self).paths(),
    {
        let thing = self.things.get_one()?;
        let line = Record::Removed(thing.clone()).to_line();
        self.hist.insert(&line);
        Ok(thing)
    }
}

impl View for Data {
    type V = (Seq<Seq<char>>, Seq<Seq<char>>);

    open spec fn view(&self) -> (Seq<Seq<char>>, Seq<Seq<char>>) {
        (self.things@, self.hist@)
    }
}

impl Data {
    /// Where the two stores are kept.
    pub open spec fn paths(&self) -> (Seq<char>, Seq<char>) {
        (self.things.path@, self.hist.path@)
    }
}

} // verus!
