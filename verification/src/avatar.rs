//! Roles and the two avatar catalogs (colors and symbols).
//!
//! Each catalog is an ordered list of twenty entries. An entry is known by
//! its index in the list, and stepping through a catalog wraps around.

use vstd::prelude::*;

verus! {

/// The number of entries in each avatar catalog.
pub const CATALOG_LEN: usize = 20;

/// The role a participant declares when logging in.
#[derive(Debug, Clone, Copy, PartialEq, Eq, Structural)]
pub enum Role {
    ScrumMaster,
    Participant,
    Observer,
}

impl Role {
    /// The facilitator is the only role that may issue administrative commands.
    pub open spec fn is_facilitator(self) -> bool {
        self == Role::ScrumMaster
    }

    /// Tells whether this role may issue administrative commands.
    pub fn may_administer(&self) -> (allowed: bool)
        ensures
            allowed == self.is_facilitator(),
    {
        matches!(self, Role::ScrumMaster)
    }
}

/// The colors an avatar can have, in catalog order.
#[derive(Debug, Clone, Copy, PartialEq, Eq, Structural)]
pub enum AvatarColor {
    Red,
    Green,
    Blue,
    Yellow,
    Magenta,
    Cyan,
    Orange,
    Pink,
    Purple,
    Mint,
    Gold,
    Silver,
    Bronze,
    Lime,
    Teal,
    Indigo,
    Violet,
    Coral,
    Crimson,
    White,
}

impl AvatarColor {
    /// The position of this color in the catalog.
    pub open spec fn index(self) -> nat {
        match self {
            AvatarColor::Red => 0,
            AvatarColor::Green => 1,
            AvatarColor::Blue => 2,
            AvatarColor::Yellow => 3,
            AvatarColor::Magenta => 4,
            AvatarColor::Cyan => 5,
            AvatarColor::Orange => 6,
            AvatarColor::Pink => 7,
            AvatarColor::Purple => 8,
            AvatarColor::Mint => 9,
            AvatarColor::Gold => 10,
            AvatarColor::Silver => 11,
            AvatarColor::Bronze => 12,
            AvatarColor::Lime => 13,
            AvatarColor::Teal => 14,
            AvatarColor::Indigo => 15,
            AvatarColor::Violet => 16,
            AvatarColor::Coral => 17,
            AvatarColor::Crimson => 18,
            AvatarColor::White => 19,
        }
    }

    /// The position of this color in the catalog.
    pub fn position(&self) -> (i: usize)
        ensures
            i == self.index(),
            i < CATALOG_LEN,
    {
        match self {
            AvatarColor::Red => 0,
            AvatarColor::Green => 1,
            AvatarColor::Blue => 2,
            AvatarColor::Yellow => 3,
            AvatarColor::Magenta => 4,
            AvatarColor::Cyan => 5,
            AvatarColor::Orange => 6,
            AvatarColor::Pink => 7,
            AvatarColor::Purple => 8,
            AvatarColor::Mint => 9,
            AvatarColor::Gold => 10,
            AvatarColor::Silver => 11,
            AvatarColor::Bronze => 12,
            AvatarColor::Lime => 13,
            AvatarColor::Teal => 14,
            AvatarColor::Indigo => 15,
            AvatarColor::Violet => 16,
            AvatarColor::Coral => 17,
            AvatarColor::Crimson => 18,
            AvatarColor::White => 19,
        }
    }

    /// The color at position `i` of the catalog.
    pub fn at(i: usize) -> (color: AvatarColor)
        requires
            i < CATALOG_LEN,
        ensures
            color.index() == i,
    {
        match i {
            0 => AvatarColor::Red,
            1 => AvatarColor::Green,
            2 => AvatarColor::Blue,
            3 => AvatarColor::Yellow,
            4 => AvatarColor::Magenta,
            5 => AvatarColor::Cyan,
            6 => AvatarColor::Orange,
            7 => AvatarColor::Pink,
            8 => AvatarColor::Purple,
            9 => AvatarColor::Mint,
            10 => AvatarColor::Gold,
            11 => AvatarColor::Silver,
            12 => AvatarColor::Bronze,
            13 => AvatarColor::Lime,
            14 => AvatarColor::Teal,
            15 => AvatarColor::Indigo,
            16 => AvatarColor::Violet,
            17 => AvatarColor::Coral,
            18 => AvatarColor::Crimson,
            _ => AvatarColor::White,
        }
    }

    /// The color that follows this one; the last is followed by the first.
    pub fn next(&self) -> (following: AvatarColor)
        ensures
            following.index() == (self.index() + 1) % (CATALOG_LEN as nat),
    {
        let here: usize = self.position();
        AvatarColor::at((here + 1) % CATALOG_LEN)
    }

    /// A color drawn at random from the catalog.
    pub fn random() -> (color: AvatarColor) {
        AvatarColor::at(random_below(CATALOG_LEN))
    }

    /// A color is determined by its position in the catalog.
    pub proof fn lemma_index_determines(a: AvatarColor, b: AvatarColor)
        requires
            a.index() == b.index(),
        ensures
            a == b,
    {
    }
}

/// The symbols an avatar can have, in catalog order.
#[derive(Debug, Clone, Copy, PartialEq, Eq, Structural)]
pub enum AvatarSymbol {
    Human,
    Alien,
    Robot,
    /// A ghost.
    Phantom,
    Cat,
    Dog,
    Bird,
    Fish,
    Tree,
    Flower,
    Star,
    Moon,
    Sun,
    Heart,
    Skull,
    Smile,
    Zap,
    Anchor,
    Music,
    Globe,
}

impl AvatarSymbol {
    /// The position of this symbol in the catalog.
    pub open spec fn index(self) -> nat {
        match self {
            AvatarSymbol::Human => 0,
            AvatarSymbol::Alien => 1,
            AvatarSymbol::Robot => 2,
            AvatarSymbol::Phantom => 3,
            AvatarSymbol::Cat => 4,
            AvatarSymbol::Dog => 5,
            AvatarSymbol::Bird => 6,
            AvatarSymbol::Fish => 7,
            AvatarSymbol::Tree => 8,
            AvatarSymbol::Flower => 9,
            AvatarSymbol::Star => 10,
            AvatarSymbol::Moon => 11,
            AvatarSymbol::Sun => 12,
            AvatarSymbol::Heart => 13,
            AvatarSymbol::Skull => 14,
            AvatarSymbol::Smile => 15,
            AvatarSymbol::Zap => 16,
            AvatarSymbol::Anchor => 17,
            AvatarSymbol::Music => 18,
            AvatarSymbol::Globe => 19,
        }
    }

    /// The position of this symbol in the catalog.
    pub fn position(&self) -> (i: usize)
        ensures
            i == self.index(),
            i < CATALOG_LEN,
    {
        match self {
            AvatarSymbol::Human => 0,
            AvatarSymbol::Alien => 1,
            AvatarSymbol::Robot => 2,
            AvatarSymbol::Phantom => 3,
            AvatarSymbol::Cat => 4,
            AvatarSymbol::Dog => 5,
            AvatarSymbol::Bird => 6,
            AvatarSymbol::Fish => 7,
            AvatarSymbol::Tree => 8,
            AvatarSymbol::Flower => 9,
            AvatarSymbol::Star => 10,
            AvatarSymbol::Moon => 11,
            AvatarSymbol::Sun => 12,
            AvatarSymbol::Heart => 13,
            AvatarSymbol::Skull => 14,
            AvatarSymbol::Smile => 15,
            AvatarSymbol::Zap => 16,
            AvatarSymbol::Anchor => 17,
            AvatarSymbol::Music => 18,
            AvatarSymbol::Globe => 19,
        }
    }

    /// The symbol at position `i` of the catalog.
    pub fn at(i: usize) -> (symbol: AvatarSymbol)
        requires
            i < CATALOG_LEN,
        ensures
            symbol.index() == i,
    {
        match i {
            0 => AvatarSymbol::Human,
            1 => AvatarSymbol::Alien,
            2 => AvatarSymbol::Robot,
            3 => AvatarSymbol::Phantom,
            4 => AvatarSymbol::Cat,
            5 => AvatarSymbol::Dog,
            6 => AvatarSymbol::Bird,
            7 => AvatarSymbol::Fish,
            8 => AvatarSymbol::Tree,
            9 => AvatarSymbol::Flower,
            10 => AvatarSymbol::Star,
            11 => AvatarSymbol::Moon,
            12 => AvatarSymbol::Sun,
            13 => AvatarSymbol::Heart,
            14 => AvatarSymbol::Skull,
            15 => AvatarSymbol::Smile,
            16 => AvatarSymbol::Zap,
            17 => AvatarSymbol::Anchor,
            18 => AvatarSymbol::Music,
            _ => AvatarSymbol::Globe,
        }
    }

    /// The symbol that follows this one; the last is followed by the first.
    pub fn next(&self) -> (following: AvatarSymbol)
        ensures
            following.index() == (self.index() + 1) % (CATALOG_LEN as nat),
    {
        let here: usize = self.position();
        AvatarSymbol::at((here + 1) % CATALOG_LEN)
    }

    /// A symbol drawn at random from the catalog.
    pub fn random() -> (symbol: AvatarSymbol) {
        AvatarSymbol::at(random_below(CATALOG_LEN))
    }

    /// A symbol is determined by its position in the catalog.
    pub proof fn lemma_index_determines(a: AvatarSymbol, b: AvatarSymbol)
        requires
            a.index() == b.index(),
        ensures
            a == b,
    {
    }
}

/// Draws an index below `bound` from the thread-local generator of the
/// `rand` crate, by `rand::rng()` and `Rng::random_range(0..bound)`.
///
/// Trusted: the generator samples the half-open range, so the result lies
/// below `bound`. An empty range makes it panic, hence the `requires`.
#[verifier::external_body]
fn random_below(bound: usize) -> (drawn: usize)
    requires
        bound > 0,
    ensures
        drawn < bound,
{
    rand::Rng::random_range(&mut rand::rng(), 0..bound)
}

} // verus!
