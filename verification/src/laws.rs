//! Laws of the frame state machine, proved over the transition relation
//! [`step`](crate::frame::step): invariant preservation, growth under
//! `AddBlock`, focus tracking, and the two deliberately asymmetric
//! out-of-range policies.

use vstd::prelude::*;
use crate::frame::{prop_step, seed_state, step, wf, FrameView};
use crate::msg::MsgView;

verus! {

/// Every transition preserves well-formedness: the block list stays
/// non-empty and every entry's index keeps equalling its position.
pub proof fn lemma_step_preserves_wf(v: FrameView, m: MsgView)
    requires
        wf(v),
    ensures
        wf(step(v, m)),
{
    let w = step(v, m);
    assert forall|i: int| 0 <= i < w.blocks.len() implies (#[trigger] w.blocks[i]).index == i by {
        if i < v.blocks.len() {
            assert(v.blocks[i].index == i);
        }
    }
}

/// Whether every event of the sequence is `AddBlock`.
pub open spec fn all_add_blocks(ms: Seq<MsgView>) -> bool {
    forall|i: int| 0 <= i < ms.len() ==> ms[i] is AddBlock
}

/// The state after applying the events of `ms`, in order, starting from `v`.
pub open spec fn run(v: FrameView, ms: Seq<MsgView>) -> FrameView
    decreases ms.len(),
{
    if ms.len() == 0 {
        v
    } else {
        step(run(v, ms.drop_last()), ms.last())
    }
}

/// Running any event sequence preserves well-formedness.
pub proof fn lemma_run_preserves_wf(v: FrameView, ms: Seq<MsgView>)
    requires
        wf(v),
    ensures
        wf(run(v, ms)),
    decreases ms.len(),
{
    if ms.len() > 0 {
        lemma_run_preserves_wf(v, ms.drop_last());
        lemma_step_preserves_wf(run(v, ms.drop_last()), ms.last());
    }
}

/// Each `AddBlock` appends exactly one entry, so a run of them grows the
/// list by their number.
pub proof fn lemma_add_blocks_grow_from(v: FrameView, ms: Seq<MsgView>)
    requires
        wf(v),
        all_add_blocks(ms),
    ensures
        wf(run(v, ms)),
        run(v, ms).blocks.len() == v.blocks.len() + ms.len(),
    decreases ms.len(),
{
    lemma_run_preserves_wf(v, ms);
    if ms.len() > 0 {
        assert(all_add_blocks(ms.drop_last()));
        lemma_add_blocks_grow_from(v, ms.drop_last());
    }
}

/// From the seeded single-entry state, any sequence of `AddBlock` events
/// leaves `1 + count(AddBlock)` blocks, and each entry's index equals its
/// position — in particular each entry appended by an `AddBlock` was created
/// with the index of the position it sits at.
pub proof fn lemma_add_blocks_from_seed(ms: Seq<MsgView>)
    requires
        all_add_blocks(ms),
    ensures
        run(seed_state(), ms).blocks.len() == 1 + ms.len(),
        forall|i: int|
            0 <= i < 1 + ms.len() ==> (#[trigger] run(seed_state(), ms).blocks[i]).index == i,
{
    assert(wf(seed_state()));
    lemma_add_blocks_grow_from(seed_state(), ms);
}

/// After `AddBlock` or `FocusBlock`, the focus index is the last index and
/// the focus-application flag is armed.
pub proof fn lemma_focus_lands_on_last(v: FrameView, m: MsgView)
    requires
        wf(v),
        m is AddBlock || m is FocusBlock,
    ensures
        step(v, m).focus == step(v, m).blocks.len() - 1,
        step(v, m).focus_on_render,
{
}

/// An in-range `UpdateBlock(i, r)` stores `r` as block `i`'s result, leaves
/// every other entry untouched, records `i` as the focus index, and disarms
/// the focus-application flag.
pub proof fn lemma_update_block_in_range(v: FrameView, i: int, r: Seq<char>)
    requires
        wf(v),
        0 <= i < v.blocks.len(),
    ensures
        step(v, MsgView::UpdateBlock(i, r)).blocks.len() == v.blocks.len(),
        step(v, MsgView::UpdateBlock(i, r)).blocks[i].result == r,
        step(v, MsgView::UpdateBlock(i, r)).blocks[i].label == v.blocks[i].label,
        forall|j: int|
            0 <= j < v.blocks.len() && j != i ==> step(
                v,
                MsgView::UpdateBlock(i, r),
            ).blocks[j] == v.blocks[j],
        step(v, MsgView::UpdateBlock(i, r)).focus == i,
        !step(v, MsgView::UpdateBlock(i, r)).focus_on_render,
        step(v, MsgView::UpdateBlock(i, r)).label_change == !v.label_change,
{
}

/// An out-of-range `UpdateBlock(i, r)` changes no entry at all, yet still
/// records `i` as the focus index and disarms the focus-application flag:
/// the asymmetric partial no-op, preserved by design.
pub proof fn lemma_update_block_out_of_range(v: FrameView, i: int, r: Seq<char>)
    requires
        wf(v),
        !(0 <= i < v.blocks.len()),
    ensures
        step(v, MsgView::UpdateBlock(i, r)).blocks == v.blocks,
        step(v, MsgView::UpdateBlock(i, r)).focus == i,
        !step(v, MsgView::UpdateBlock(i, r)).focus_on_render,
        step(v, MsgView::UpdateBlock(i, r)).label_change == !v.label_change,
        step(v, MsgView::UpdateBlock(i, r)).toggle == v.toggle,
{
}

/// An in-range `RenameBlock(i, s)` stores `s` as block `i`'s label, leaves
/// every other entry and every result untouched, disarms the
/// focus-application flag, and does not move focus.
pub proof fn lemma_rename_block_in_range(v: FrameView, i: int, s: Seq<char>)
    requires
        wf(v),
        0 <= i < v.blocks.len(),
    ensures
        step(v, MsgView::RenameBlock(i, s)).blocks.len() == v.blocks.len(),
        step(v, MsgView::RenameBlock(i, s)).blocks[i].label == s,
        step(v, MsgView::RenameBlock(i, s)).blocks[i].result == v.blocks[i].result,
        forall|j: int|
            0 <= j < v.blocks.len() && j != i ==> step(
                v,
                MsgView::RenameBlock(i, s),
            ).blocks[j] == v.blocks[j],
        step(v, MsgView::RenameBlock(i, s)).focus == v.focus,
        !step(v, MsgView::RenameBlock(i, s)).focus_on_render,
{
}

/// An out-of-range `RenameBlock` is a full no-op: the entire state, the
/// focus-application flag included, is unchanged. Contrast with
/// [`lemma_update_block_out_of_range`].
pub proof fn lemma_rename_block_out_of_range(v: FrameView, i: int, s: Seq<char>)
    requires
        !(0 <= i < v.blocks.len()),
    ensures
        step(v, MsgView::RenameBlock(i, s)) == v,
{
}

/// `Search` mutates nothing.
pub proof fn lemma_search_is_pure(v: FrameView)
    ensures
        step(v, MsgView::Search) == v,
{
}

/// Entering search mode arms the focus-application flag, leaving it disarms
/// it, and nothing else of the state changes either way.
pub proof fn lemma_search_mode_change(v: FrameView, old_search_mode: bool, new_search_mode: bool)
    requires
        old_search_mode != new_search_mode,
    ensures
        prop_step(v, old_search_mode, new_search_mode).focus_on_render == new_search_mode,
        prop_step(v, old_search_mode, new_search_mode).blocks == v.blocks,
        prop_step(v, old_search_mode, new_search_mode).focus == v.focus,
        prop_step(v, old_search_mode, new_search_mode).toggle == v.toggle,
        prop_step(v, old_search_mode, new_search_mode).label_change == v.label_change,
{
}

} // verus!
