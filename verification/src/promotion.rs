//! Choosing the piece a pawn is promoted to, by arrow key.

use vstd::prelude::*;
use vstd::string::*;

verus! {

/// The four keys that pick a promotion.
#[derive(Clone, Copy, Debug, PartialEq, Eq, Hash, Structural)]
pub enum ArrowKey {
    Left,
    Up,
    Right,
    Down,
}

/// The four kinds a pawn can be promoted to.
#[derive(Clone, Copy, Debug, PartialEq, Eq, Hash, Structural)]
pub enum PromotionKind {
    Queen,
    Rook,
    Bishop,
    Knight,
}

impl ArrowKey {
    /// The kind that the key stands for: left is queen, up is rook, right
    /// is bishop, down is knight.
    pub open spec fn kind_spec(self) -> PromotionKind {
        match self {
            ArrowKey::Left => PromotionKind::Queen,
            ArrowKey::Up => PromotionKind::Rook,
            ArrowKey::Right => PromotionKind::Bishop,
            ArrowKey::Down => PromotionKind::Knight,
        }
    }

    /// The kind that the key stands for.
    pub fn kind(self) -> (k: PromotionKind)
        ensures
            k == self.kind_spec(),
    {
        match self {
            ArrowKey::Left => PromotionKind::Queen,
            ArrowKey::Up => PromotionKind::Rook,
            ArrowKey::Right => PromotionKind::Bishop,
            ArrowKey::Down => PromotionKind::Knight,
        }
    }
}

impl PromotionKind {
    /// The word by which the rules model knows the kind.
    pub open spec fn word(self) -> Seq<char> {
        match self {
            PromotionKind::Queen => "queen"@,
            PromotionKind::Rook => "rook"@,
            PromotionKind::Bishop => "bishop"@,
            PromotionKind::Knight => "knight"@,
        }
    }

    /// The word by which the rules model knows the kind.
    pub fn name(self) -> (s: String)
        ensures
            s@ == self.word(),
    {
        match self {
            PromotionKind::Queen => String::from_str("queen"),
            PromotionKind::Rook => String::from_str("rook"),
            PromotionKind::Bishop => String::from_str("bishop"),
            PromotionKind::Knight => String::from_str("knight"),
        }
    }
}

/// What a key press chooses, given whether the model waits for a choice.
pub open spec fn promotion_choice_spec(waiting: bool, key: ArrowKey) -> Option<PromotionKind> {
    if waiting {
        Some(key.kind_spec())
    } else {
        None
    }
}

/// What a press of `key` chooses. `waiting` is what the model reports at
/// the time of the press: while it does not wait for a promotion choice,
/// the press chooses nothing.
pub fn promotion_choice(waiting: bool, key: ArrowKey) -> (choice: Option<PromotionKind>)
    ensures
        choice == promotion_choice_spec(waiting, key),
{
    if waiting {
        Some(key.kind())
    } else {
        None
    }
}

/// The four keys choose four different kinds, and every kind has its key.
pub proof fn keys_and_kinds_correspond(a: ArrowKey, b: ArrowKey, k: PromotionKind)
    ensures
        a.kind_spec() == b.kind_spec() ==> a == b,
        exists|key: ArrowKey| key.kind_spec() == k,
{
    match k {
        PromotionKind::Queen => assert(ArrowKey::Left.kind_spec() == k),
        PromotionKind::Rook => assert(ArrowKey::Up.kind_spec() == k),
        PromotionKind::Bishop => assert(ArrowKey::Right.kind_spec() == k),
        PromotionKind::Knight => assert(ArrowKey::Down.kind_spec() == k),
    }
}

} // verus!
