//! Square addresses: a file `a`..`h` and a rank `1`..`8`.

use vstd::prelude::*;
use vstd::string::*;

verus! {

/// A board file (column letter).
#[derive(Clone, Copy, Debug, PartialEq, Eq, Hash, Structural)]
pub enum File {
    A,
    B,
    C,
    D,
    E,
    F,
    G,
    H,
}

/// A board rank (row number).
#[derive(Clone, Copy, Debug, PartialEq, Eq, Hash, Structural)]
pub enum Rank {
    One,
    Two,
    Three,
    Four,
    Five,
    Six,
    Seven,
    Eight,
}

/// One of the 64 cells of the board. Every value of this type is a valid
/// address: there is no way to write one outside the 8×8 domain.
#[derive(Clone, Copy, Debug, PartialEq, Eq, Hash, Structural)]
pub struct Square {
    pub file: File,
    pub rank: Rank,
}

impl File {
    /// Distance from file `a`: `a` is 0, `h` is 7.
    pub open spec fn index(self) -> int {
        match self {
            File::A => 0,
            File::B => 1,
            File::C => 2,
            File::D => 3,
            File::E => 4,
            File::F => 5,
            File::G => 6,
            File::H => 7,
        }
    }

    /// The letter that names the file.
    pub open spec fn letter(self) -> char {
        match self {
            File::A => 'a',
            File::B => 'b',
            File::C => 'c',
            File::D => 'd',
            File::E => 'e',
            File::F => 'f',
            File::G => 'g',
            File::H => 'h',
        }
    }

    /// The file at distance `i` from file `a`; outside 0..8 the nearest one.
    pub open spec fn at(i: int) -> File {
        if i <= 0 {
            File::A
        } else if i == 1 {
            File::B
        } else if i == 2 {
            File::C
        } else if i == 3 {
            File::D
        } else if i == 4 {
            File::E
        } else if i == 5 {
            File::F
        } else if i == 6 {
            File::G
        } else {
            File::H
        }
    }

    /// The file at distance `i` from file `a`, if there is one.
    pub fn from_index(i: u8) -> (r: Option<File>)
        ensures
            r.is_some() <==> i < 8,
            r.is_some() ==> r == Some(File::at(i as int)),
    {
        match i {
            0 => Some(File::A),
            1 => Some(File::B),
            2 => Some(File::C),
            3 => Some(File::D),
            4 => Some(File::E),
            5 => Some(File::F),
            6 => Some(File::G),
            7 => Some(File::H),
            _ => None,
        }
    }

    /// Distance from file `a`.
    pub fn to_index(self) -> (i: u8)
        ensures
            i == self.index(),
    {
        match self {
            File::A => 0,
            File::B => 1,
            File::C => 2,
            File::D => 3,
            File::E => 4,
            File::F => 5,
            File::G => 6,
            File::H => 7,
        }
    }

    /// The file's letter as a one-character string.
    pub fn as_str(self) -> (s: &'static str)
        ensures
            s@ =~= seq![self.letter()],
    {
        proof {
            reveal_strlit("a");
            reveal_strlit("b");
            reveal_strlit("c");
            reveal_strlit("d");
            reveal_strlit("e");
            reveal_strlit("f");
            reveal_strlit("g");
            reveal_strlit("h");
        }
        match self {
            File::A => "a",
            File::B => "b",
            File::C => "c",
            File::D => "d",
            File::E => "e",
            File::F => "f",
            File::G => "g",
            File::H => "h",
        }
    }
}

impl Rank {
    /// The rank's number, 1 to 8.
    pub open spec fn number(self) -> int {
        match self {
            Rank::One => 1,
            Rank::Two => 2,
            Rank::Three => 3,
            Rank::Four => 4,
            Rank::Five => 5,
            Rank::Six => 6,
            Rank::Seven => 7,
            Rank::Eight => 8,
        }
    }

    /// The digit that names the rank.
    pub open spec fn digit(self) -> char {
        match self {
            Rank::One => '1',
            Rank::Two => '2',
            Rank::Three => '3',
            Rank::Four => '4',
            Rank::Five => '5',
            Rank::Six => '6',
            Rank::Seven => '7',
            Rank::Eight => '8',
        }
    }

    /// The rank numbered `n`; outside 1..=8 the nearest one.
    pub open spec fn at(n: int) -> Rank {
        if n <= 1 {
            Rank::One
        } else if n == 2 {
            Rank::Two
        } else if n == 3 {
            Rank::Three
        } else if n == 4 {
            Rank::Four
        } else if n == 5 {
            Rank::Five
        } else if n == 6 {
            Rank::Six
        } else if n == 7 {
            Rank::Seven
        } else {
            Rank::Eight
        }
    }

    /// The rank numbered `n`, if there is one.
    pub fn from_number(n: u8) -> (r: Option<Rank>)
        ensures
            r.is_some() <==> 1 <= n <= 8,
            r.is_some() ==> r == Some(Rank::at(n as int)),
    {
        match n {
            1 => Some(Rank::One),
            2 => Some(Rank::Two),
            3 => Some(Rank::Three),
            4 => Some(Rank::Four),
            5 => Some(Rank::Five),
            6 => Some(Rank::Six),
            7 => Some(Rank::Seven),
            8 => Some(Rank::Eight),
            _ => None,
        }
    }

    /// The rank's number.
    pub fn to_number(self) -> (n: u8)
        ensures
            n == self.number(),
    {
        match self {
            Rank::One => 1,
            Rank::Two => 2,
            Rank::Three => 3,
            Rank::Four => 4,
            Rank::Five => 5,
            Rank::Six => 6,
            Rank::Seven => 7,
            Rank::Eight => 8,
        }
    }

    /// The rank's digit as a one-character string.
    pub fn as_str(self) -> (s: &'static str)
        ensures
            s@ =~= seq![self.digit()],
    {
        proof {
            reveal_strlit("1");
            reveal_strlit("2");
            reveal_strlit("3");
            reveal_strlit("4");
            reveal_strlit("5");
            reveal_strlit("6");
            reveal_strlit("7");
            reveal_strlit("8");
        }
        match self {
            Rank::One => "1",
            Rank::Two => "2",
            Rank::Three => "3",
            Rank::Four => "4",
            Rank::Five => "5",
            Rank::Six => "6",
            Rank::Seven => "7",
            Rank::Eight => "8",
        }
    }
}

impl Square {
    /// The canonical two-character name: file letter, then rank digit.
    pub open spec fn name_spec(self) -> Seq<char> {
        seq![self.file.letter(), self.rank.digit()]
    }

    /// Position of the square in the rules model's board, which runs from
    /// `a1` (0) along each rank to `h8` (63).
    pub open spec fn model_index_spec(self) -> int {
        (self.rank.number() - 1) * 8 + self.file.index()
    }

    /// The canonical name, such as `e4`.
    pub fn name(&self) -> (s: String)
        ensures
            s@ == self.name_spec(),
    {
        let mut s = String::from_str(self.file.as_str());
        s.append(self.rank.as_str());
        assert(s@ =~= self.name_spec());
        s
    }

    /// Index of the square in the rules model's board.
    pub fn model_index(&self) -> (i: usize)
        ensures
            i == self.model_index_spec(),
            i < 64,
    {
        let r: usize = (self.rank.to_number() - 1) as usize;
        let f: usize = self.file.to_index() as usize;
        r * 8 + f
    }
}

/// `File::at` and `File::index` undo each other on the board, and so do
/// `Rank::at` and `Rank::number`.
pub proof fn index_and_at_are_inverse(f: File, r: Rank, i: int, n: int)
    ensures
        File::at(f.index()) == f,
        Rank::at(r.number()) == r,
        0 <= f.index() < 8,
        1 <= r.number() <= 8,
        0 <= i < 8 ==> File::at(i).index() == i,
        1 <= n <= 8 ==> Rank::at(n).number() == n,
{
}

/// A name is always a letter `a`..`h` followed by a digit `1`..`8`.
pub proof fn names_are_well_formed(s: Square)
    ensures
        s.name_spec().len() == 2,
        'a' <= s.name_spec()[0] <= 'h',
        '1' <= s.name_spec()[1] <= '8',
        s.name_spec()[0] as int == 'a' as int + s.file.index(),
        s.name_spec()[1] as int == '0' as int + s.rank.number(),
{
}

/// Each square has exactly one name: two squares with the same name are the
/// same square.
pub proof fn name_is_injective(s: Square, t: Square)
    requires
        s.name_spec() == t.name_spec(),
    ensures
        s == t,
{
    assert(s.name_spec()[0] == t.name_spec()[0]);
    assert(s.name_spec()[1] == t.name_spec()[1]);
}

/// Each square has its own place in the model's board, and every place
/// under 64 belongs to a square.
pub proof fn model_index_is_injective(s: Square, t: Square)
    requires
        s.model_index_spec() == t.model_index_spec(),
    ensures
        s == t,
        0 <= s.model_index_spec() < 64,
{
}

} // verus!
