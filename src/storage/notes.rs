//! The note ledger: notes kept in the order they were added.

use vstd::prelude::*;

use crate::storage::{Note, NoteModel, notes_view};

verus! {

/// `notes` without any note whose id is `note_id`.
pub open spec fn without_id(notes: Seq<NoteModel>, note_id: i64) -> Seq<NoteModel> {
    notes.filter(|n: NoteModel| n.note_id != note_id)
}

/// Removes every note whose id is `note_id`, keeping the others in order.
pub fn remove_by_id(notes: Vec<Note>, note_id: i64) -> (r: Vec<Note>)
    ensures
        notes_view(r@) == without_id(notes_view(notes@), note_id),
{
    let ghost pred = |n: NoteModel| n.note_id != note_id;
    let mut kept: Vec<Note> = Vec::new();
    let mut rest = notes;
    let ghost all = notes_view(rest@);
    assert(notes_view(rest@) =~= all.skip(0));
    assert(notes_view(kept@) =~= all.take(0).filter(pred)) by {
        reveal(Seq::filter);
    }
    let len = rest.len();
    let mut i: usize = 0;
    while i < len
        invariant
            len == all.len(),
            pred == (|n: NoteModel| n.note_id != note_id),
            0 <= i <= len,
            rest@.len() == len - i,
            notes_view(rest@) == all.skip(i as int),
            notes_view(kept@) == all.take(i as int).filter(pred),
        decreases len - i,
    {
        let ghost old_rest = rest@;
        let n = rest.remove(0);
        assert(n@ == notes_view(old_rest)[0]);
        assert(rest@ =~= old_rest.subrange(1, old_rest.len() as int));
        assert(notes_view(rest@) =~= all.skip(i as int + 1)) by {
            assert forall|k: int| 0 <= k < rest@.len() implies #[trigger] notes_view(rest@)[k]
                == all.skip(i as int + 1)[k] by {
                assert(notes_view(rest@)[k] == notes_view(old_rest)[k + 1]);
            }
        }
        assert(all.take(i as int + 1).last() == n@);
        assert(all.take(i as int + 1).drop_last() =~= all.take(i as int));
        reveal(Seq::filter);
        let ghost before = kept@;
        let ghost step = all.take(i as int + 1);
        assert(step.filter(pred) == if pred(step.last()) {
            step.drop_last().filter(pred).push(step.last())
        } else {
            step.drop_last().filter(pred)
        });
        if n.note_id != note_id {
            kept.push(n);
            assert(notes_view(kept@) =~= notes_view(before).push(n@));
        }
        assert(notes_view(kept@) =~= all.take(i as int + 1).filter(pred));
        i = i + 1;
    }
    assert(all.take(len as int) =~= all);
    kept
}

} // verus!
