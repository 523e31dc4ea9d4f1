use vstd::prelude::*;

use crate::data::undo_state;
use crate::record::{lemma_record_round_trip, record_text, RecordView};

verus! {

/// Removing a thing right after adding it gives back the things as they were:
/// the add puts it first, and the remove takes its first occurrence.
pub proof fn lemma_add_then_remove(things: Seq<Seq<char>>, x: Seq<char>)
    ensures
        (seq![x] + things).remove_value(x) == things,
{
    let s = seq![x] + things;
    s.index_of_first_ensures(x);
    assert(s[0] == x);
    assert(s.contains(x));
    assert(s.remove(0) =~= things);
}

/// Undo right after an add takes the thing out again and drops the add's
/// record, so that both stores are as they were before the add.
pub proof fn lemma_undo_after_add(things: Seq<Seq<char>>, hist: Seq<Seq<char>>, x: Seq<char>)
    ensures
        undo_state(seq![x] + things, seq![record_text(RecordView::Added(x))] + hist) == Some(
            (things, hist),
        ),
{
    lemma_record_round_trip(RecordView::Added(x));
    lemma_add_then_remove(things, x);
    let h = seq![record_text(RecordView::Added(x))] + hist;
    assert(h[0] == record_text(RecordView::Added(x)));
    assert((seq![x] + things)[0] == x);
    assert((seq![x] + things).contains(x));
    assert(h.drop_first() =~= hist);
}

/// Undo right after a remove of a thing puts the thing back in front and
/// drops the remove's record.
pub proof fn lemma_undo_after_remove(things: Seq<Seq<char>>, hist: Seq<Seq<char>>, x: Seq<char>)
    ensures
        undo_state(
            things.remove_value(x),
            seq![record_text(RecordView::Removed(x))] + hist,
        ) == Some((seq![x] + things.remove_value(x), hist)),
        (seq![x] + things.remove_value(x)).contains(x),
{
    lemma_record_round_trip(RecordView::Removed(x));
    let h = seq![record_text(RecordView::Removed(x))] + hist;
    assert(h[0] == record_text(RecordView::Removed(x)));
    assert(h.drop_first() =~= hist);
    assert((seq![x] + things.remove_value(x))[0] == x);
}

} // verus!
