//! The rules of an `if` chain, over plain values: which chains are well
//! formed, and which block of a chain is shown.

use vstd::prelude::*;

verus! {

/// What sort of block stands at a position of a chain.
#[derive(Clone, Copy, Debug, PartialEq, Eq, Structural)]
pub enum BlockKind {
    /// The leading block, shown while the condition of the chain holds.
    If,
    /// A block with a condition of its own.
    ElseIf,
    /// The closing block, shown when nothing before it is.
    Else,
}

/// Why a chain of blocks is refused.
#[derive(Clone, Copy, Debug, PartialEq, Eq, Structural)]
pub enum IfError {
    /// The chain is empty, or its first block is not the `If` block.
    MissingThen,
    /// An `If` block stands somewhere after the first position.
    DuplicateThen,
    /// An `Else` block stands somewhere before the last position.
    ElseNotLast,
}

impl IfError {
    /// The text of [`IfError::message`].
    pub open spec fn message_text(self) -> Seq<char> {
        match self {
            IfError::MissingThen => "`<Then />` must be the first child of `<If />`"@,
            IfError::DuplicateThen => "there must not be more than 1 `<Then />` children within `<If />`"@,
            IfError::ElseNotLast => "`<Else />` must be the last child of `<If />`"@,
        }
    }

    /// Names the rule that was broken.
    pub fn message(&self) -> (text: String)
        ensures
            text@ == self.message_text(),
    {
        match self {
            IfError::MissingThen => "`<Then />` must be the first child of `<If />`".to_owned(),
            IfError::DuplicateThen => "there must not be more than 1 `<Then />` children within `<If />`".to_owned(),
            IfError::ElseNotLast => "`<Else />` must be the last child of `<If />`".to_owned(),
        }
    }
}

/// A chain is well formed when it has exactly one `If` block, in the first
/// place, and at most one `Else` block, which then stands in the last place.
pub open spec fn well_formed(kinds: Seq<BlockKind>) -> bool {
    &&& kinds.len() > 0
    &&& kinds[0] == BlockKind::If
    &&& forall|i: int| 0 < i < kinds.len() ==> kinds[i] != BlockKind::If
    &&& forall|i: int| 0 <= i < kinds.len() - 1 ==> kinds[i] != BlockKind::Else
}

/// Whether the chain lacks its leading `If` block.
pub open spec fn lacks_then(kinds: Seq<BlockKind>) -> bool {
    kinds.len() == 0 || kinds[0] != BlockKind::If
}

/// Whether an `If` block stands after the first position.
pub open spec fn repeats_then(kinds: Seq<BlockKind>) -> bool {
    exists|i: int| 0 < i < kinds.len() && kinds[i] == BlockKind::If
}

/// Whether an `Else` block stands before the last position.
pub open spec fn misplaces_else(kinds: Seq<BlockKind>) -> bool {
    exists|i: int| 0 <= i < kinds.len() - 1 && kinds[i] == BlockKind::Else
}

/// The first rule that a chain breaks, if it breaks any. A missing `If` block
/// is reported before a repeated one, and that before a misplaced `Else`.
pub open spec fn structure_error(kinds: Seq<BlockKind>) -> Option<IfError> {
    if lacks_then(kinds) {
        Some(IfError::MissingThen)
    } else if repeats_then(kinds) {
        Some(IfError::DuplicateThen)
    } else if misplaces_else(kinds) {
        Some(IfError::ElseNotLast)
    } else {
        None
    }
}

/// Checks the structure of a chain: `Ok` exactly for the well-formed chains,
/// and otherwise the first rule that is broken.
pub fn check_structure(kinds: &Vec<BlockKind>) -> (r: Result<(), IfError>)
    ensures
        r is Ok <==> well_formed(kinds@),
        r == match structure_error(kinds@) {
            Some(e) => Err::<(), IfError>(e),
            None => Ok::<(), IfError>(()),
        },
{
    let n: usize = kinds.len();
    if n == 0 {
        return Err(IfError::MissingThen);
    }
    if kinds[0] != BlockKind::If {
        return Err(IfError::MissingThen);
    }
    let mut i: usize = 1;
    while i < n
        invariant
            1 <= i <= n,
            n == kinds.len(),
            kinds[0] == BlockKind::If,
            forall|j: int| 0 < j < i ==> kinds[j] != BlockKind::If,
        decreases n - i,
    {
        if kinds[i] == BlockKind::If {
            return Err(IfError::DuplicateThen);
        }
        i = i + 1;
    }
    let mut k: usize = 0;
    while k < n - 1
        invariant
            0 <= k <= n - 1,
            n == kinds.len(),
            kinds[0] == BlockKind::If,
            !repeats_then(kinds@),
            forall|j: int| 0 <= j < k ==> kinds[j] != BlockKind::Else,
        decreases n - 1 - k,
    {
        if kinds[k] == BlockKind::Else {
            return Err(IfError::ElseNotLast);
        }
        k = k + 1;
    }
    Ok(())
}

/// A block as one evaluation of the chain sees it: its kind and, for an
/// `ElseIf` block, what its condition read at that moment.
#[derive(Clone, Copy, Debug, PartialEq, Eq, Structural)]
pub enum Branch {
    /// The leading block.
    If,
    /// A block whose own condition read the given value.
    ElseIf(bool),
    /// The closing block.
    Else,
}

impl Branch {
    /// The kind of block that was seen.
    pub open spec fn kind(self) -> BlockKind {
        match self {
            Branch::If => BlockKind::If,
            Branch::ElseIf(_) => BlockKind::ElseIf,
            Branch::Else => BlockKind::Else,
        }
    }

    /// Whether the block is shown if no block before it is, given what the
    /// condition of the whole chain reads: the `If` block while that condition
    /// holds, an `ElseIf` block while it does not and the block's own does,
    /// the `Else` block always.
    pub open spec fn matches(self, top: bool) -> bool {
        match self {
            Branch::If => top,
            Branch::ElseIf(own) => !top && own,
            Branch::Else => true,
        }
    }

    /// What an evaluation makes of reading the condition of an `ElseIf`
    /// block: the block with the value that was read, and with `false` where
    /// the condition can no longer be read.
    pub fn of_reading(reading: Option<bool>) -> (branch: Branch)
        ensures
            branch == Branch::ElseIf(reading == Some(true)),
    {
        match reading {
            Some(own) => Branch::ElseIf(own),
            None => Branch::ElseIf(false),
        }
    }

    /// Executable form of [`Branch::matches`].
    pub fn is_match(&self, top: bool) -> (r: bool)
        ensures
            r == self.matches(top),
    {
        match self {
            Branch::If => top,
            Branch::ElseIf(own) => !top && *own,
            Branch::Else => true,
        }
    }
}

/// The kinds of the blocks of a chain, in order.
pub open spec fn kinds_of(branches: Seq<Branch>) -> Seq<BlockKind> {
    Seq::new(branches.len(), |i: int| branches[i].kind())
}

/// Whether `choice` is the block to show: the first block that matches, or
/// nothing when no block does.
pub open spec fn selects(top: bool, branches: Seq<Branch>, choice: Option<int>) -> bool {
    match choice {
        Some(i) => {
            &&& 0 <= i < branches.len()
            &&& branches[i].matches(top)
            &&& forall|j: int| 0 <= j < i ==> !branches[j].matches(top)
        },
        None => forall|j: int| 0 <= j < branches.len() ==> !branches[j].matches(top),
    }
}

/// The position of a choice as a mathematical integer.
pub open spec fn choice_index(choice: Option<usize>) -> Option<int> {
    match choice {
        Some(i) => Some(i as int),
        None => None,
    }
}

/// Picks the block to show: the first one that matches. `None` stands for
/// showing nothing, which is the case when no block matches.
pub fn select(top: bool, branches: &Vec<Branch>) -> (choice: Option<usize>)
    ensures
        selects(top, branches@, choice_index(choice)),
{
    let n: usize = branches.len();
    let mut i: usize = 0;
    while i < n
        invariant
            0 <= i <= n,
            n == branches.len(),
            forall|j: int| 0 <= j < i ==> !branches[j].matches(top),
        decreases n - i,
    {
        if branches[i].is_match(top) {
            return Some(i);
        }
        i = i + 1;
    }
    None
}

/// A chain breaks none of the rules exactly when it is well formed.
pub proof fn law_no_error_iff_well_formed(kinds: Seq<BlockKind>)
    ensures
        structure_error(kinds) is None <==> well_formed(kinds),
{
}

/// Each way of breaking the rules is refused under its own name: a chain
/// without blocks for its missing `If` block; a chain with a second `If`
/// block behind the leading one for that; and a chain that is in order so far
/// but has an `Else` block before its end for that.
pub proof fn law_broken_rules_are_named(kinds: Seq<BlockKind>, i: int)
    ensures
        kinds.len() == 0 ==> structure_error(kinds) == Some(IfError::MissingThen),
        !lacks_then(kinds) && 0 < i < kinds.len() && kinds[i] == BlockKind::If
            ==> structure_error(kinds) == Some(IfError::DuplicateThen),
        !lacks_then(kinds) && !repeats_then(kinds) && 0 <= i < kinds.len() - 1 && kinds[i]
            == BlockKind::Else ==> structure_error(kinds) == Some(IfError::ElseNotLast),
{
}

/// In a well-formed chain the `If` block occurs once and the `Else` block at
/// most once: two positions that hold the same of these two kinds are one
/// position.
pub proof fn law_well_formed_blocks_are_unique(kinds: Seq<BlockKind>, i: int, j: int)
    requires
        well_formed(kinds),
        0 <= i < kinds.len(),
        0 <= j < kinds.len(),
        kinds[i] == kinds[j],
        kinds[i] != BlockKind::ElseIf,
    ensures
        i == j,
        kinds[i] == BlockKind::If ==> i == 0,
        kinds[i] == BlockKind::Else ==> i == kinds.len() - 1,
{
}

/// Evaluating a chain again on unchanged values gives the same choice: the
/// values that an evaluation sees determine what it selects.
pub proof fn law_selection_is_determined(
    top: bool,
    branches: Seq<Branch>,
    first: Option<int>,
    second: Option<int>,
)
    requires
        selects(top, branches, first),
        selects(top, branches, second),
    ensures
        first == second,
{
}

/// While the condition of a well-formed chain holds, its `If` block is
/// shown, whatever the conditions of the other blocks read.
pub proof fn law_true_condition_shows_then(branches: Seq<Branch>, choice: Option<int>)
    requires
        well_formed(kinds_of(branches)),
        selects(true, branches, choice),
    ensures
        choice == Some(0int),
{
    assert(kinds_of(branches)[0] == branches[0].kind());
}

/// While the condition of a well-formed chain does not hold, the first
/// `ElseIf` block whose own condition holds is shown, and no block before or
/// after it.
pub proof fn law_first_true_else_if_is_shown(branches: Seq<Branch>, k: int, choice: Option<int>)
    requires
        well_formed(kinds_of(branches)),
        0 <= k < branches.len(),
        branches[k] == Branch::ElseIf(true),
        forall|j: int| 0 <= j < k ==> branches[j] != Branch::ElseIf(true),
        selects(false, branches, choice),
    ensures
        choice == Some(k),
{
    assert forall|j: int| 0 <= j < k implies !branches[j].matches(false) by {
        assert(kinds_of(branches)[j] == branches[j].kind());
    }
}

/// While neither the condition of a well-formed chain nor that of any of its
/// `ElseIf` blocks holds, the `Else` block is shown if there is one, and
/// nothing is shown if there is none.
pub proof fn law_all_false_shows_else_or_nothing(branches: Seq<Branch>, choice: Option<int>)
    requires
        well_formed(kinds_of(branches)),
        forall|j: int| 0 <= j < branches.len() ==> branches[j] != Branch::ElseIf(true),
        selects(false, branches, choice),
    ensures
        kinds_of(branches).contains(BlockKind::Else) ==> choice == Some(branches.len() - 1),
        !kinds_of(branches).contains(BlockKind::Else) ==> choice is None,
{
    let kinds = kinds_of(branches);
    assert forall|j: int| 0 <= j < branches.len() implies kinds[j] == branches[j].kind() by {}
    if kinds.contains(BlockKind::Else) {
        let e = choose|e: int| 0 <= e < kinds.len() && kinds[e] == BlockKind::Else;
        assert(e == kinds.len() - 1);
        assert(branches[e].matches(false));
        assert forall|j: int| 0 <= j < e implies !branches[j].matches(false) by {
            assert(kinds[j] == branches[j].kind());
        }
    } else {
        assert forall|j: int| 0 <= j < branches.len() implies !branches[j].matches(false) by {
            assert(kinds[j] == branches[j].kind());
            assert(kinds[j] != BlockKind::Else);
        }
    }
}

} // verus!
