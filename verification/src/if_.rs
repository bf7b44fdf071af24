//! The `if` construct in component form.
//!
//! A chain is built from [`Then`], any number of [`ElseIf`] and at most one
//! [`Else`], and handed to [`If`]. Whenever the chain is evaluated, every
//! `ElseIf` condition is read, also those of blocks that are not shown: a
//! computation that evaluates the chain thereby depends on all of them, and
//! runs again when any of them changes.

use crate::chain::{
    check_structure, choice_index, kinds_of, select, selects, structure_error, well_formed,
    BlockKind, Branch, IfError,
};
use crate::host::{
    data_view, derive_signal, dynamic_view, empty_view, fragment_view, read_signal,
};
use leptos::{Fragment, Scope, Signal};
use vstd::prelude::*;

verus! {

/// One block of a chain, as returned by [`Then`], [`ElseIf`] or [`Else`].
/// `C` is what produces the content of a block when it is shown.
pub enum IfBlock<C> {
    /// The leading block, returned by [`Then`].
    If {
        /// Produces the content.
        children: C,
    },
    /// A block with a condition of its own, returned by [`ElseIf`].
    ElseIf {
        /// The condition that must hold for the block to be shown.
        signal: Signal<bool>,
        /// Produces the content.
        children: C,
    },
    /// The closing block, returned by [`Else`].
    Else {
        /// Produces the content.
        children: C,
    },
}

impl<C> IfBlock<C> {
    /// The kind of the block.
    pub open spec fn kind(&self) -> BlockKind {
        match self {
            IfBlock::If { .. } => BlockKind::If,
            IfBlock::ElseIf { .. } => BlockKind::ElseIf,
            IfBlock::Else { .. } => BlockKind::Else,
        }
    }

    /// Whether this is the leading block.
    pub fn is_if(&self) -> (r: bool)
        ensures
            r == (self.kind() == BlockKind::If),
    {
        matches!(self, IfBlock::If { .. })
    }

    /// Whether this is a block with a condition of its own.
    pub fn is_else_if(&self) -> (r: bool)
        ensures
            r == (self.kind() == BlockKind::ElseIf),
    {
        matches!(self, IfBlock::ElseIf { .. })
    }

    /// Whether this is the closing block.
    pub fn is_else(&self) -> (r: bool)
        ensures
            r == (self.kind() == BlockKind::Else),
    {
        matches!(self, IfBlock::Else { .. })
    }

    /// The kind of the block.
    pub fn block_kind(&self) -> (r: BlockKind)
        ensures
            r == self.kind(),
    {
        match self {
            IfBlock::If { .. } => BlockKind::If,
            IfBlock::ElseIf { .. } => BlockKind::ElseIf,
            IfBlock::Else { .. } => BlockKind::Else,
        }
    }

    /// Looks at the block as an evaluation does: reads the condition of an
    /// `ElseIf` block, which subscribes the running computation to it, and
    /// makes of the reading what [`Branch::of_reading`] says. What the
    /// condition reads the runtime alone can say.
    pub fn observe(&self) -> (r: Branch)
        ensures
            r.kind() == self.kind(),
    {
        match self {
            IfBlock::If { .. } => Branch::If,
            IfBlock::ElseIf { signal, .. } => Branch::of_reading(read_signal(signal)),
            IfBlock::Else { .. } => Branch::Else,
        }
    }

    /// Whether the block is shown once the condition of the chain has turned
    /// out not to hold: never for the leading block, always for the closing
    /// one, and for an `ElseIf` block what its condition reads.
    pub fn is_true(&self) -> (r: bool)
        ensures
            self.kind() == BlockKind::If ==> !r,
            self.kind() == BlockKind::Else ==> r,
    {
        self.observe().is_match(false)
    }

    /// What produces the content of the block.
    pub open spec fn content(&self) -> &C {
        match self {
            IfBlock::If { children } => children,
            IfBlock::ElseIf { children, .. } => children,
            IfBlock::Else { children } => children,
        }
    }

    /// Produces the content of the block.
    pub fn render(&self, cx: Scope) -> (r: Fragment) where C: Fn(Scope) -> Fragment
        requires
            call_requires(self.content(), (cx,)),
        ensures
            call_ensures(self.content(), (cx,), r),
    {
        match self {
            IfBlock::If { children } => children(cx),
            IfBlock::ElseIf { children, .. } => children(cx),
            IfBlock::Else { children } => children(cx),
        }
    }

    /// Turns the block into a view that shows nothing and carries the block,
    /// so that it can stand among the children of a component. The view is
    /// the framework's: no contract can speak of what it carries.
    pub fn into_view(self, cx: Scope) -> leptos::View where C: 'static {
        let _ = cx;
        data_view(self)
    }
}

/// The leading block of a chain: `children` is shown while the condition
/// given to [`If`] holds.
#[allow(non_snake_case)]
pub fn Then<C>(cx: Scope, children: C) -> (block: IfBlock<C>)
    ensures
        block == (IfBlock::If { children }),
{
    let _ = cx;
    IfBlock::If { children }
}

/// A block with a condition of its own: `children` is shown while the
/// condition given to [`If`] does not hold, none of the `ElseIf` conditions
/// before this one holds, and `signal` does.
#[allow(non_snake_case)]
pub fn ElseIf<S, C>(cx: Scope, signal: S, children: C) -> (block: IfBlock<C>) where
    S: Fn() -> bool + 'static,

    requires
        call_requires(signal, ()),
    ensures
        block.kind() == BlockKind::ElseIf,
        block.content() == children,
{
    IfBlock::ElseIf { signal: derive_signal(cx, signal), children }
}

/// The closing block of a chain: `children` is shown while none of the
/// conditions holds.
#[allow(non_snake_case)]
pub fn Else<C>(cx: Scope, children: C) -> (block: IfBlock<C>)
    ensures
        block == (IfBlock::Else { children }),
{
    let _ = cx;
    IfBlock::Else { children }
}

/// The kinds of the blocks of a chain, in order.
pub open spec fn block_kinds<C>(blocks: Seq<IfBlock<C>>) -> Seq<BlockKind> {
    Seq::new(blocks.len(), |i: int| blocks[i].kind())
}

/// Checks the structure of a chain before it is first shown: `Ok` exactly
/// when the chain is well formed, and otherwise the first rule that it
/// breaks.
pub fn run_debug_checks<C>(if_blocks: &Vec<IfBlock<C>>) -> (r: Result<(), IfError>)
    ensures
        r is Ok <==> well_formed(block_kinds(if_blocks@)),
        r == match structure_error(block_kinds(if_blocks@)) {
            Some(e) => Err::<(), IfError>(e),
            None => Ok::<(), IfError>(()),
        },
{
    let n: usize = if_blocks.len();
    let mut kinds: Vec<BlockKind> = Vec::new();
    let mut i: usize = 0;
    while i < n
        invariant
            0 <= i <= n,
            n == if_blocks.len(),
            kinds.len() == i,
            forall|j: int| 0 <= j < i ==> kinds[j] == if_blocks[j].kind(),
        decreases n - i,
    {
        kinds.push(if_blocks[i].block_kind());
        i = i + 1;
    }
    assert(kinds@ =~= block_kinds(if_blocks@));
    check_structure(&kinds)
}

/// What one evaluation of a chain saw and chose.
#[derive(Debug, PartialEq, Eq)]
pub struct Evaluation {
    /// What the condition of the chain read.
    pub top: bool,
    /// Every block of the chain as the evaluation saw it, in order.
    pub branches: Vec<Branch>,
    /// The position of the block to show, or `None` to show nothing.
    pub selected: Option<usize>,
}

/// Looks at every block of a chain, in order, reading the condition of each
/// `ElseIf` block.
pub fn observe_all<C>(blocks: &Vec<IfBlock<C>>) -> (branches: Vec<Branch>)
    ensures
        kinds_of(branches@) == block_kinds(blocks@),
{
    let n: usize = blocks.len();
    let mut branches: Vec<Branch> = Vec::new();
    let mut i: usize = 0;
    while i < n
        invariant
            0 <= i <= n,
            n == blocks.len(),
            branches.len() == i,
            forall|j: int| 0 <= j < i ==> branches[j].kind() == blocks[j].kind(),
        decreases n - i,
    {
        branches.push(blocks[i].observe());
        i = i + 1;
    }
    assert(kinds_of(branches@) =~= block_kinds(blocks@));
    branches
}

/// Evaluates a chain once. The condition of every `ElseIf` block is read,
/// whichever block is chosen, then the condition of the chain; the choice is
/// the first block that matches what was read.
pub fn resolve<S, C>(signal: &S, blocks: &Vec<IfBlock<C>>) -> (evaluation: Evaluation) where
    S: Fn() -> bool,

    requires
        call_requires(signal, ()),
    ensures
        call_ensures(signal, (), evaluation.top),
        kinds_of(evaluation.branches@) == block_kinds(blocks@),
        selects(evaluation.top, evaluation.branches@, choice_index(evaluation.selected)),
{
    let branches = observe_all(blocks);
    let top: bool = signal();
    let selected = select(top, &branches);
    Evaluation { top, branches, selected }
}

/// Evaluates a chain once, as [`resolve`] does, and produces the content of
/// the block that was chosen. No other content is produced, and none at all
/// when nothing is to be shown.
pub fn show<S, C>(cx: Scope, signal: &S, blocks: &Vec<IfBlock<C>>) -> (shown: (
    Evaluation,
    Option<Fragment>,
)) where S: Fn() -> bool, C: Fn(Scope) -> Fragment
    requires
        call_requires(signal, ()),
        forall|i: int| 0 <= i < blocks.len() ==> call_requires(blocks[i].content(), (cx,)),
    ensures
        call_ensures(signal, (), shown.0.top),
        kinds_of(shown.0.branches@) == block_kinds(blocks@),
        selects(shown.0.top, shown.0.branches@, choice_index(shown.0.selected)),
        match shown.0.selected {
            Some(i) => {
                &&& i < blocks.len()
                &&& shown.1 matches Some(content)
                &&& call_ensures(blocks[i as int].content(), (cx,), content)
            },
            None => shown.1 is None,
        },
{
    let evaluation = resolve(signal, blocks);
    assert(kinds_of(evaluation.branches@).len() == block_kinds(blocks@).len());
    let content = match evaluation.selected {
        Some(i) => Some(blocks[i].render(cx)),
        None => None,
    };
    (evaluation, content)
}

/// The `if` construct: shows one block of the chain `blocks`, and follows
/// `signal` and the conditions of the chain as they change.
///
/// The chain is checked as [`run_debug_checks`] says: one that is not well
/// formed is refused with the first rule that it breaks, and every other is
/// accepted. The view of an accepted chain is built by the framework from one
/// call of [`show`], and built again whenever a condition that [`show`] read
/// has changed: it shows the content that [`show`] produces, and nothing where
/// that produces none. The view is the framework's, and nothing is claimed of
/// it.
#[allow(non_snake_case)]
pub fn If<S, C>(cx: Scope, signal: S, blocks: Vec<IfBlock<C>>) -> (r: Result<
    leptos::View,
    IfError,
>) where S: Fn() -> bool + 'static, C: Fn(Scope) -> Fragment + 'static
    requires
        call_requires(signal, ()),
        forall|i: int| 0 <= i < blocks.len() ==> call_requires(blocks[i].content(), (cx,)),
    ensures
        r is Ok <==> well_formed(block_kinds(blocks@)),
        r matches Err(e) ==> structure_error(block_kinds(blocks@)) == Some(e),
{
    match run_debug_checks(&blocks) {
        Ok(()) => {
            let produce = move || -> (view: leptos::View)
                {
                    match show(cx, &signal, &blocks).1 {
                        Some(content) => fragment_view(content, cx),
                        None => empty_view(cx),
                    }
                };
            Ok(dynamic_view(cx, produce))
        },
        Err(e) => Err(e),
    }
}

} // verus!
