//! Pieces, and the fixed table of the twelve piece images.

use vstd::prelude::*;
use vstd::string::*;

verus! {

/// The two sides of the game.
#[derive(Clone, Copy, Debug, PartialEq, Eq, Hash, Structural)]
pub enum Side {
    Black,
    White,
}

/// The six kinds of piece.
#[derive(Clone, Copy, Debug, PartialEq, Eq, Hash, Structural)]
pub enum PieceKind {
    King,
    Queen,
    Rook,
    Pawn,
    Bishop,
    Knight,
}

/// What stands on an occupied cell. The twelve values of this type are the
/// keys of the sprite table.
#[derive(Clone, Copy, Debug, PartialEq, Eq, Hash, Structural)]
pub struct Piece {
    pub side: Side,
    pub kind: PieceKind,
}

/// Number of sprites: two sides of six kinds each.
pub const SPRITE_COUNT: usize = 12;

impl Side {
    /// Place of the side in the sprite table: black first.
    pub open spec fn ordinal(self) -> int {
        match self {
            Side::Black => 0,
            Side::White => 1,
        }
    }

    /// The side's word in an image's file name.
    pub open spec fn word(self) -> Seq<char> {
        match self {
            Side::Black => "black"@,
            Side::White => "white"@,
        }
    }

    /// The side's word in an image's file name.
    pub fn as_str(self) -> (s: &'static str)
        ensures
            s@ == self.word(),
    {
        match self {
            Side::Black => "black",
            Side::White => "white",
        }
    }
}

impl PieceKind {
    /// Place of the kind among the sprites of one side.
    pub open spec fn ordinal(self) -> int {
        match self {
            PieceKind::King => 0,
            PieceKind::Queen => 1,
            PieceKind::Rook => 2,
            PieceKind::Pawn => 3,
            PieceKind::Bishop => 4,
            PieceKind::Knight => 5,
        }
    }

    /// The kind's word in an image's file name.
    pub open spec fn word(self) -> Seq<char> {
        match self {
            PieceKind::King => "king"@,
            PieceKind::Queen => "queen"@,
            PieceKind::Rook => "rook"@,
            PieceKind::Pawn => "pawn"@,
            PieceKind::Bishop => "bishop"@,
            PieceKind::Knight => "knight"@,
        }
    }

    /// The kind's word in an image's file name.
    pub fn as_str(self) -> (s: &'static str)
        ensures
            s@ == self.word(),
    {
        match self {
            PieceKind::King => "king",
            PieceKind::Queen => "queen",
            PieceKind::Rook => "rook",
            PieceKind::Pawn => "pawn",
            PieceKind::Bishop => "bishop",
            PieceKind::Knight => "knight",
        }
    }
}

impl Piece {
    /// Place of the piece's image in the sprite table: the six black
    /// pieces, then the six white ones.
    pub open spec fn slot_spec(self) -> int {
        self.side.ordinal() * 6 + self.kind.ordinal()
    }

    /// Where the piece's image is kept, relative to the working directory.
    pub open spec fn sprite_path_spec(self) -> Seq<char> {
        "resources/"@ + self.side.word() + "_"@ + self.kind.word() + ".png"@
    }

    /// Place of the piece's image in the sprite table. Defined for every
    /// piece, so a lookup by slot in a full table cannot miss.
    pub fn slot(&self) -> (i: usize)
        ensures
            i == self.slot_spec(),
            i < SPRITE_COUNT,
    {
        let s: usize = match self.side {
            Side::Black => 0,
            Side::White => 6,
        };
        let k: usize = match self.kind {
            PieceKind::King => 0,
            PieceKind::Queen => 1,
            PieceKind::Rook => 2,
            PieceKind::Pawn => 3,
            PieceKind::Bishop => 4,
            PieceKind::Knight => 5,
        };
        s + k
    }

    /// Where the piece's image is kept, such as `resources/black_king.png`.
    pub fn sprite_path(&self) -> (path: String)
        ensures
            path@ == self.sprite_path_spec(),
    {
        let mut path = String::from_str("resources/");
        path.append(self.side.as_str());
        path.append("_");
        path.append(self.kind.as_str());
        path.append(".png");
        path
    }
}

/// The keys of the sprite table in slot order: the image at place `i` of
/// the table belongs to the piece at place `i` of the result.
pub fn sprite_keys() -> (keys: Vec<Piece>)
    ensures
        keys@.len() == SPRITE_COUNT,
        forall|i: int| 0 <= i < keys@.len() ==> (#[trigger] keys@[i]).slot_spec() == i,
{
    let sides = [Side::Black, Side::White];
    let kinds = [
        PieceKind::King,
        PieceKind::Queen,
        PieceKind::Rook,
        PieceKind::Pawn,
        PieceKind::Bishop,
        PieceKind::Knight,
    ];
    let mut keys: Vec<Piece> = Vec::new();
    let mut s: usize = 0;
    while s < 2
        invariant
            s <= 2,
            sides@ == seq![Side::Black, Side::White],
            kinds@ == seq![
                PieceKind::King,
                PieceKind::Queen,
                PieceKind::Rook,
                PieceKind::Pawn,
                PieceKind::Bishop,
                PieceKind::Knight,
            ],
            keys@.len() == s * 6,
            forall|i: int| 0 <= i < keys@.len() ==> (#[trigger] keys@[i]).slot_spec() == i,
        decreases 2 - s,
    {
        let mut k: usize = 0;
        while k < 6
            invariant
                s < 2,
                k <= 6,
                sides@ == seq![Side::Black, Side::White],
                kinds@ == seq![
                    PieceKind::King,
                    PieceKind::Queen,
                    PieceKind::Rook,
                    PieceKind::Pawn,
                    PieceKind::Bishop,
                    PieceKind::Knight,
                ],
                keys@.len() == s * 6 + k,
                forall|i: int| 0 <= i < keys@.len() ==> (#[trigger] keys@[i]).slot_spec() == i,
            decreases 6 - k,
        {
            keys.push(Piece { side: sides[s], kind: kinds[k] });
            k += 1;
        }
        s += 1;
    }
    keys
}

/// One handle per piece, filled once and only read afterwards. A cache
/// always holds all twelve handles, so a lookup finds one for every piece.
pub struct SpriteCache<T> {
    handles: Vec<T>,
}

impl<T> View for SpriteCache<T> {
    type V = Seq<T>;

    /// The handles in slot order.
    closed spec fn view(&self) -> Seq<T> {
        self.handles@
    }
}

impl<T> SpriteCache<T> {
    #[verifier::type_invariant]
    spec fn is_full(&self) -> bool {
        self.handles@.len() == SPRITE_COUNT
    }

    /// A cache of `handles`, which are taken to be in slot order, as
    /// `sprite_keys` lists the pieces. Anything but twelve handles is
    /// refused.
    pub fn new(handles: Vec<T>) -> (cache: Option<SpriteCache<T>>)
        ensures
            cache.is_some() <==> handles@.len() == SPRITE_COUNT,
            cache.is_some() ==> cache.unwrap()@ == handles@,
    {
        if handles.len() == SPRITE_COUNT {
            Some(SpriteCache { handles })
        } else {
            None
        }
    }

    /// The handle of `piece`.
    pub fn get(&self, piece: Piece) -> (handle: &T)
        ensures
            self@.len() == SPRITE_COUNT,
            *handle == self@[piece.slot_spec()],
    {
        proof {
            use_type_invariant(self);
        }
        &self.handles[piece.slot()]
    }
}

/// No two pieces share a slot, and every slot under twelve is some piece's:
/// the sprite table has exactly one image per piece.
pub proof fn slot_is_one_to_one(p: Piece, q: Piece)
    ensures
        0 <= p.slot_spec() < 12,
        p.slot_spec() == q.slot_spec() ==> p == q,
{
}

} // verus!
