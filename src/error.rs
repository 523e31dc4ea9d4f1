use vstd::prelude::*;
use vstd::string::*;

verus! {

/// What an operation on the stores can fail with.
#[derive(Debug)]
pub enum IhftError {
    /// The named thing is not in the store.
    NotFound(String),
    /// A pick was asked of a store with no entries.
    EmptyStore,
    /// The history holds no record to undo.
    NothingToUndo,
    /// The front history record is not `add <thing>` or `remove <thing>`.
    CorruptHistory,
}

/// The text shown for a missing thing.
pub open spec fn not_found_text(thing: Seq<char>) -> Seq<char> {
    seq!['t', 'h', 'i', 'n', 'g', ':', ' ', '\''] + thing + seq![
        '\'',
        ' ',
        'd',
        'o',
        'e',
        's',
        ' ',
        'n',
        'o',
        't',
        ' ',
        'e',
        'x',
        'i',
        's',
        't',
    ]
}

impl IhftError {
    /// The message that is shown to the user for this error.
    pub fn message(&self) -> (r: String)
        ensures
            self matches IhftError::NotFound(t) ==> r@ == not_found_text(t@),
            self is EmptyStore ==> r@ == "store empty"@,
            self is NothingToUndo ==> r@ == "nothing to undo"@,
            self is CorruptHistory ==> r@ == "hist file corrupted"@,
    {
        match self {
            IhftError::NotFound(t) => {
                let r = String::from_str("thing: '").concat(t.as_str()).concat("' does not exist");
                proof {
                    reveal_strlit("thing: '");
                    reveal_strlit("' does not exist");
                }
                assert(r@ =~= not_found_text(t@));
                r
            },
            IhftError::EmptyStore => String::from_str("store empty"),
            IhftError::NothingToUndo => String::from_str("nothing to undo"),
            IhftError::CorruptHistory => String::from_str("hist file corrupted"),
        }
    }
}

} // verus!
