use vstd::prelude::*;
use vstd::string::*;

use crate::error::IhftError;

verus! {

/// A history record as a value: the action that was taken on the things.
pub enum RecordView {
    Added(Seq<char>),
    Removed(Seq<char>),
}

/// The word of an add record with the space after it.
pub open spec fn add_word() -> Seq<char> {
    seq!['a', 'd', 'd', ' ']
}

/// The word of a remove record with the space after it.
pub open spec fn remove_word() -> Seq<char> {
    seq!['r', 'e', 'm', 'o', 'v', 'e', ' ']
}

/// The line that records an action: its word, one space, then the thing,
/// which may itself hold spaces.
pub open spec fn record_text(r: RecordView) -> Seq<char> {
    match r {
        RecordView::Added(t) => add_word() + t,
        RecordView::Removed(t) => remove_word() + t,
    }
}

/// What a history line records. The word ends at the first space and must be
/// `add` or `remove`; the rest of the line is the thing. Other lines record
/// nothing.
pub open spec fn parse_record(l: Seq<char>) -> Option<RecordView> {
    if l.len() >= 4 && l.take(4) == add_word() {
        Some(RecordView::Added(l.skip(4)))
    } else if l.len() >= 7 && l.take(7) == remove_word() {
        Some(RecordView::Removed(l.skip(7)))
    } else {
        None
    }
}

/// A line written for an action reads back as that action.
pub proof fn lemma_record_round_trip(r: RecordView)
    ensures
        parse_record(record_text(r)) == Some(r),
{
    match r {
        RecordView::Added(t) => {
            assert((add_word() + t).take(4) =~= add_word());
            assert((add_word() + t).skip(4) =~= t);
        },
        RecordView::Removed(t) => {
            let l = remove_word() + t;
            assert(l.take(7) =~= remove_word());
            assert(l.skip(7) =~= t);
            assert(l.take(4) != add_word()) by {
                assert(l.take(4)[0] != add_word()[0]);
            }
        },
    }
}

/// One entry of the history: the action taken on the things.
#[derive(Debug)]
pub enum Record {
    Added(String),
    Removed(String),
}

impl View for Record {
    type V = RecordView;

    open spec fn view(&self) -> RecordView {
        match self {
            Record::Added(t) => RecordView::Added(t@),
            Record::Removed(t) => RecordView::Removed(t@),
        }
    }
}

/// Whether `line` begins with `word`.
fn starts_with(line: &str, word: &str) -> (r: bool)
    ensures
        r == (line@.len() >= word@.len() && line@.take(word@.len() as int) == word@),
{
    let n = line.unicode_len();
    let k = word.unicode_len();
    if n < k {
        return false;
    }
    let mut i: usize = 0;
    while i < k
        invariant
            k == word@.len(),
            k <= n == line@.len(),
            i <= k,
            line@.take(i as int) == word@.take(i as int),
        decreases k - i,
    {
        if line.get_char(i) != word.get_char(i) {
            assert(line@.take(k as int)[i as int] != word@[i as int]);
            return false;
        }
        assert(line@.take(i as int + 1) =~= line@.take(i as int).push(line@[i as int]));
        assert(word@.take(i as int + 1) =~= word@.take(i as int).push(word@[i as int]));
        i = i + 1;
    }
    assert(word@.take(k as int) =~= word@);
    true
}

impl Record {
    /// The history line for this record.
    pub fn to_line(&self) -> (r: String)
        ensures
            r@ == record_text(self@),
    {
        proof {
            reveal_strlit("add ");
            reveal_strlit("remove ");
            assert("add "@ =~= add_word());
            assert("remove "@ =~= remove_word());
        }
        match self {
            Record::Added(t) => String::from_str("add ").concat(t.as_str()),
            Record::Removed(t) => String::from_str("remove ").concat(t.as_str()),
        }
    }

    /// Reads a history line; fails with `CorruptHistory` where the line records
    /// no action.
    pub fn parse(line: &str) -> (r: Result<Record, IhftError>)
        ensures
            r is Err <==> parse_record(line@) is None,
            r matches Ok(rec) ==> parse_record(line@) == Some(rec@),
            r matches Err(e) ==> e is CorruptHistory,
    {
        proof {
            reveal_strlit("add ");
            reveal_strlit("remove ");
            assert("add "@ =~= add_word());
            assert("remove "@ =~= remove_word());
        }
        let n = line.unicode_len();
        if starts_with(line, "add ") {
            assert(line@.subrange(4, n as int) =~= line@.skip(4));
            Ok(Record::Added(String::from_str(line.substring_char(4, n))))
        } else if starts_with(line, "remove ") {
            assert(line@.subrange(7, n as int) =~= line@.skip(7));
            Ok(Record::Removed(String::from_str(line.substring_char(7, n))))
        } else {
            Err(IhftError::CorruptHistory)
        }
    }
}

} // verus!
