//! One block entry: a stable creation index, a mutable label, and the latest
//! parse result for the block's text.

use vstd::prelude::*;
use crate::digits::{dec_rep, to_decimal};

verus! {

/// The outcome of parsing a block's raw text. The frame treats it as inert,
/// equality-comparable data: it is stored and handed back out, never inspected.
#[derive(Debug, Clone, PartialEq)]
pub struct ParseResult {
    text: String,
}

impl View for ParseResult {
    type V = Seq<char>;

    closed spec fn view(&self) -> Seq<char> {
        self.text@
    }
}

impl ParseResult {
    /// A result carrying the given rendered text.
    pub fn new(text: String) -> (r: ParseResult)
        ensures
            r@ == text@,
    {
        ParseResult { text }
    }

    /// The default result a block holds until its first update.
    pub fn empty() -> (r: ParseResult)
        ensures
            r@ == Seq::<char>::empty(),
    {
        ParseResult { text: String::new() }
    }

    pub fn text(&self) -> (t: &String)
        ensures
            t@ == self@,
    {
        &self.text
    }
}

/// The mathematical value of one block entry.
#[verifier::ext_equal]
pub ghost struct BlockView {
    pub index: int,
    pub label: Seq<char>,
    pub result: Seq<char>,
}

/// One entry of the frame's block list.
#[derive(Debug, Clone, PartialEq)]
pub struct BlockState {
    index: usize,
    label: String,
    result: ParseResult,
}

impl View for BlockState {
    type V = BlockView;

    closed spec fn view(&self) -> BlockView {
        BlockView { index: self.index as int, label: self.label@, result: self.result@ }
    }
}

/// The entry a fresh block starts as: its label is its index in decimal,
/// its result is the default one.
pub open spec fn fresh_block(index: int) -> BlockView {
    BlockView { index: index, label: dec_rep(index as nat), result: Seq::<char>::empty() }
}

impl BlockState {
    /// A new entry for position `id`, labelled with `id` in decimal.
    pub fn from_id(id: usize) -> (b: BlockState)
        ensures
            b@ == fresh_block(id as int),
    {
        BlockState { index: id, label: to_decimal(id), result: ParseResult::empty() }
    }

    /// Replaces the stored result wholesale; index and label are untouched.
    pub fn update_result(&mut self, result: ParseResult)
        ensures
            final(self)@ == (BlockView { result: result@, ..old(self)@ }),
    {
        self.result = result;
    }

    /// Replaces the label; index and result are untouched.
    pub fn update_id(&mut self, id: String)
        ensures
            final(self)@ == (BlockView { label: id@, ..old(self)@ }),
    {
        self.label = id;
    }

    pub fn index(&self) -> (i: usize)
        ensures
            i as int == self@.index,
    {
        self.index
    }

    pub fn label(&self) -> (l: &String)
        ensures
            l@ == self@.label,
    {
        &self.label
    }

    pub fn result(&self) -> (r: &ParseResult)
        ensures
            r@ == self@.result,
    {
        &self.result
    }
}

} // verus!
