//! The frame state machine: an append-only ordered list of blocks, the focus
//! index, the global display toggle, and the one-shot "apply focus after the
//! next render" flag, with one total transition per event.

use vstd::prelude::*;
use crate::block::{fresh_block, BlockState, BlockView};
use crate::msg::{Msg, MsgView};

verus! {

/// The mathematical value of the whole frame state.
#[verifier::ext_equal]
pub ghost struct FrameView {
    pub toggle: bool,
    pub blocks: Seq<BlockView>,
    pub focus: int,
    pub focus_on_render: bool,
    pub label_change: bool,
}

/// Well-formedness: the list is never empty (it is seeded with one entry) and,
/// being append-only with indices assigned at creation, every entry's index
/// equals its position.
pub open spec fn wf(v: FrameView) -> bool {
    &&& v.blocks.len() >= 1
    &&& forall|i: int| 0 <= i < v.blocks.len() ==> (#[trigger] v.blocks[i]).index == i
}

/// The state a frame is seeded with: one fresh block, focused, with focus to
/// be applied after the first render it asks for.
pub open spec fn seed_state() -> FrameView {
    FrameView {
        toggle: false,
        blocks: seq![fresh_block(0)],
        focus: 0,
        focus_on_render: true,
        label_change: false,
    }
}

/// The transition relation, one case per event. Every transition is total:
/// an out-of-range index degrades to the prescribed partial update
/// (`UpdateBlock`) or to a full no-op (`RenameBlock`), never to an error.
pub open spec fn step(v: FrameView, m: MsgView) -> FrameView {
    match m {
        MsgView::AddBlock => (FrameView {
            blocks: v.blocks.push(fresh_block(v.blocks.len() as int)),
            focus: v.blocks.len() as int,
            focus_on_render: true,
            ..v
        }),
        MsgView::FocusBlock => (FrameView {
            focus: v.blocks.len() - 1,
            focus_on_render: true,
            ..v
        }),
        MsgView::Toggle => (FrameView { toggle: !v.toggle, focus_on_render: true, ..v }),
        MsgView::UpdateBlock(i, r) => (FrameView {
            blocks: if 0 <= i < v.blocks.len() {
                v.blocks.update(i, (BlockView { result: r, ..v.blocks[i] }))
            } else {
                v.blocks
            },
            focus: i,
            focus_on_render: false,
            label_change: !v.label_change,
            ..v
        }),
        MsgView::RenameBlock(i, s) => if 0 <= i < v.blocks.len() {
            FrameView {
                blocks: v.blocks.update(i, (BlockView { label: s, ..v.blocks[i] })),
                focus_on_render: false,
                label_change: !v.label_change,
                ..v
            }
        } else {
            v
        },
        MsgView::Search => v,
    }
}

/// The reaction to the host changing its "search overlay active" property:
/// entering search mode arms the focus flag, leaving it disarms it; an
/// unchanged property changes nothing.
pub open spec fn prop_step(v: FrameView, old_search_mode: bool, new_search_mode: bool) -> FrameView {
    if new_search_mode != old_search_mode {
        FrameView { focus_on_render: new_search_mode, ..v }
    } else {
        v
    }
}

/// The properties the host supplies that the state machine's decisions read.
pub struct FrameProps {
    pub search_mode: bool,
}

/// What a transition asks its caller to do besides mutating the state.
#[derive(Debug, Clone, Copy, PartialEq, Eq, Structural)]
pub struct UpdateEffect {
    /// Re-render: every event asks for one.
    pub render: bool,
    /// Invoke the host's search-overlay callback exactly once.
    pub notify_search: bool,
}

/// One row of the rendered block list, in display order.
#[derive(Debug, Clone, Copy, PartialEq, Eq, Structural)]
pub struct RowView {
    /// The block's creation index; payloads of events keep using it.
    pub index: usize,
    /// Whether this row receives the live focus handle (all others get an
    /// inert one), so at most one row can ever be focused per render.
    pub live_focus: bool,
    /// Whether this row's "advance" keystroke appends a block; on every other
    /// row it only moves focus back to the newest block.
    pub advance_adds_block: bool,
}

/// The frame state machine. It is the sole owner of the block list, the focus
/// index, the toggle, and the focus-application flag; widgets only read
/// snapshots and send [`Msg`] events back.
#[derive(Debug)]
pub struct FrameComponent {
    toggle: bool,
    blocks: Vec<BlockState>,
    focus: usize,
    focus_on_render: bool,
    label_change: bool,
}

impl View for FrameComponent {
    type V = FrameView;

    closed spec fn view(&self) -> FrameView {
        FrameView {
            toggle: self.toggle,
            blocks: self.blocks@.map_values(|b: BlockState| b@),
            focus: self.focus as int,
            focus_on_render: self.focus_on_render,
            label_change: self.label_change,
        }
    }
}

impl FrameComponent {
    /// A fresh frame, seeded with exactly one block.
    pub fn create() -> (frame: FrameComponent)
        ensures
            frame@ == seed_state(),
            wf(frame@),
    {
        let mut blocks: Vec<BlockState> = Vec::new();
        blocks.push(BlockState::from_id(0));
        let frame = FrameComponent {
            toggle: false,
            blocks,
            focus: 0,
            focus_on_render: true,
            label_change: false,
        };
        proof {
            assert(frame@.blocks =~= seed_state().blocks);
            assert(frame@ =~= seed_state());
        }
        frame
    }

    /// Applies one event; the new state is exactly `step` of the old one.
    /// Every event asks for a render, and only `Search` asks the caller to
    /// notify the host's search overlay.
    pub fn update(&mut self, msg: Msg) -> (e: UpdateEffect)
        requires
            wf(old(self)@),
        ensures
            final(self)@ == step(old(self)@, msg@),
            wf(final(self)@),
            e.render,
            e.notify_search == (msg@ is Search),
    {
        let mut notify: bool = false;
        match msg {
            Msg::AddBlock => {
                let id = self.blocks.len();
                self.blocks.push(BlockState::from_id(id));
                self.focus = self.blocks.len() - 1;
                self.focus_on_render = true;
                proof {
                    assert(self@.blocks =~= step(old(self)@, MsgView::AddBlock).blocks);
                    assert(self@ =~= step(old(self)@, MsgView::AddBlock));
                }
            },
            Msg::FocusBlock => {
                self.focus = self.blocks.len() - 1;
                self.focus_on_render = true;
                proof {
                    assert(self@ =~= step(old(self)@, MsgView::FocusBlock));
                }
            },
            Msg::Toggle => {
                self.toggle = !self.toggle;
                self.focus_on_render = true;
                proof {
                    assert(self@ =~= step(old(self)@, MsgView::Toggle));
                }
            },
            Msg::UpdateBlock(index, result) => {
                let ghost m = msg@;
                if index < self.blocks.len() {
                    let mut b = self.blocks.remove(index);
                    b.update_result(result);
                    self.blocks.insert(index, b);
                    proof {
                        assert(self.blocks@ =~= old(self).blocks@.update(index as int, b));
                    }
                }
                self.focus = index;
                self.focus_on_render = false;
                self.label_change = !self.label_change;
                proof {
                    assert(self@.blocks =~= step(old(self)@, m).blocks);
                    assert(self@ =~= step(old(self)@, m));
                }
            },
            Msg::RenameBlock(index, id) => {
                let ghost m = msg@;
                if index < self.blocks.len() {
                    let mut b = self.blocks.remove(index);
                    b.update_id(id);
                    self.blocks.insert(index, b);
                    self.focus_on_render = false;
                    self.label_change = !self.label_change;
                    proof {
                        assert(self.blocks@ =~= old(self).blocks@.update(index as int, b));
                        assert(self@.blocks =~= step(old(self)@, m).blocks);
                    }
                }
                proof {
                    assert(self@ =~= step(old(self)@, m));
                }
            },
            Msg::Search => {
                notify = true;
            },
        }
        UpdateEffect { render: true, notify_search: notify }
    }

    /// Reacts to the host changing its `search_mode` property; any other
    /// property change is ignored. Returns whether a render is forced.
    pub fn changed(&mut self, old_props: &FrameProps, new_props: &FrameProps) -> (render: bool)
        ensures
            final(self)@ == prop_step(old(self)@, old_props.search_mode, new_props.search_mode),
            render == (new_props.search_mode != old_props.search_mode),
    {
        if new_props.search_mode != old_props.search_mode {
            self.focus_on_render = new_props.search_mode;
            proof {
                assert(self@ =~= prop_step(
                    old(self)@,
                    old_props.search_mode,
                    new_props.search_mode,
                ));
            }
            return true;
        }
        false
    }

    /// The post-render decision: DOM focus moves only when this is not the
    /// very first render, the one-shot flag is armed, and no search overlay
    /// is blurring the frame.
    pub fn should_focus_after_render(&self, first_render: bool, props: &FrameProps) -> (b: bool)
        ensures
            b == (!first_render && self@.focus_on_render && !props.search_mode),
    {
        !first_render && self.focus_on_render && !props.search_mode
    }

    /// The visible list, in display order: the reverse of creation order, the
    /// newest block first. Exactly the row whose index equals the focus index
    /// holds the live focus handle, and exactly the newest block's row maps
    /// its "advance" keystroke to `AddBlock`.
    pub fn view_rows(&self) -> (rows: Vec<RowView>)
        ensures
            rows@.len() == self@.blocks.len(),
            forall|k: int|
                0 <= k < rows@.len() ==> {
                    let row = #[trigger] rows@[k];
                    &&& row.index as int == self@.blocks.len() - 1 - k
                    &&& row.live_focus == (row.index as int == self@.focus)
                    &&& row.advance_adds_block == (row.index as int == self@.blocks.len() - 1)
                },
    {
        let n = self.blocks.len();
        let mut rows: Vec<RowView> = Vec::new();
        let mut k: usize = 0;
        while k < n
            invariant
                n == self@.blocks.len(),
                k <= n,
                rows@.len() == k,
                self@.focus == self.focus as int,
                forall|j: int|
                    0 <= j < k ==> {
                        let row = #[trigger] rows@[j];
                        &&& row.index as int == n - 1 - j
                        &&& row.live_focus == (row.index as int == self@.focus)
                        &&& row.advance_adds_block == (row.index as int == n - 1)
                    },
            decreases n - k,
        {
            let index = n - 1 - k;
            rows.push(RowView {
                index,
                live_focus: index == self.focus,
                advance_adds_block: index == n - 1,
            });
            k = k + 1;
        }
        rows
    }

    /// The event an "advance" keystroke on the block at `index` maps to:
    /// `AddBlock` on the newest block, `FocusBlock` on every other one.
    pub fn advance_msg(&self, index: usize) -> (m: Msg)
        requires
            wf(self@),
        ensures
            (m@ is AddBlock) == (index as int == self@.blocks.len() - 1),
            (m@ is AddBlock) || (m@ is FocusBlock),
    {
        if index == self.blocks.len() - 1 {
            Msg::AddBlock
        } else {
            Msg::FocusBlock
        }
    }

    pub fn is_toggled(&self) -> (t: bool)
        ensures
            t == self@.toggle,
    {
        self.toggle
    }

    /// The index of the most recently created block.
    pub fn last_block(&self) -> (i: usize)
        requires
            wf(self@),
        ensures
            i as int == self@.blocks.len() - 1,
    {
        self.blocks.len() - 1
    }

    pub fn num_blocks(&self) -> (n: usize)
        ensures
            n as int == self@.blocks.len(),
    {
        self.blocks.len()
    }

    pub fn focus_index(&self) -> (i: usize)
        ensures
            i as int == self@.focus,
    {
        self.focus
    }

    pub fn focus_on_render(&self) -> (b: bool)
        ensures
            b == self@.focus_on_render,
    {
        self.focus_on_render
    }

    pub fn label_change(&self) -> (b: bool)
        ensures
            b == self@.label_change,
    {
        self.label_change
    }

    pub fn block(&self, index: usize) -> (b: &BlockState)
        requires
            0 <= index < self@.blocks.len(),
        ensures
            b@ == self@.blocks[index as int],
    {
        &self.blocks[index]
    }
}

} // verus!
