//! The closed set of events the frame state machine accepts.

use vstd::prelude::*;
use crate::block::ParseResult;

verus! {

/// An event delivered to the frame state machine. Indices in payloads refer
/// to creation order, never to the (reversed) display order.
pub enum Msg {
    /// Flip the global display toggle.
    Toggle,
    /// Ask the host to open its search overlay.
    Search,
    /// Append a fresh block and focus it.
    AddBlock,
    /// Move focus to the most recently created block.
    FocusBlock,
    /// Store a new parse result for the block at the given creation index.
    UpdateBlock(usize, ParseResult),
    /// Give the block at the given creation index a new label.
    RenameBlock(usize, String),
}

/// The mathematical value of an event.
pub ghost enum MsgView {
    Toggle,
    Search,
    AddBlock,
    FocusBlock,
    UpdateBlock(int, Seq<char>),
    RenameBlock(int, Seq<char>),
}

impl View for Msg {
    type V = MsgView;

    open spec fn view(&self) -> MsgView {
        match self {
            Msg::Toggle => MsgView::Toggle,
            Msg::Search => MsgView::Search,
            Msg::AddBlock => MsgView::AddBlock,
            Msg::FocusBlock => MsgView::FocusBlock,
            Msg::UpdateBlock(i, r) => MsgView::UpdateBlock(*i as int, r@),
            Msg::RenameBlock(i, s) => MsgView::RenameBlock(*i as int, s@),
        }
    }
}

} // verus!
