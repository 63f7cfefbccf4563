use vstd::prelude::*;

verus! {

/// One of the two sides of a match.
#[derive(Clone, Copy, PartialEq, Eq, Debug, Structural)]
pub enum Player {
    Blue,
    Red,
}

impl Player {
    /// The side that plays after this one.
    pub open spec fn spec_next(self) -> Player {
        match self {
            Player::Blue => Player::Red,
            Player::Red => Player::Blue,
        }
    }

    /// The display name of the side.
    pub open spec fn spec_name(self) -> Seq<char> {
        match self {
            Player::Blue => "Blue"@,
            Player::Red => "Red"@,
        }
    }

    /// The side whose turn follows this one's.
    pub fn next(&self) -> (r: Player)
        ensures
            r == self.spec_next(),
    {
        match self {
            Player::Blue => Player::Red,
            Player::Red => Player::Blue,
        }
    }

    /// The name shown for the side in the turn indicator and the winner banner.
    pub fn name(&self) -> (r: &'static str)
        ensures
            r@ == self.spec_name(),
    {
        match self {
            Player::Blue => "Blue",
            Player::Red => "Red",
        }
    }
}

/// Turns alternate: the side after the next one is the side itself, and no
/// side follows itself.
pub proof fn lemma_next_alternates(p: Player)
    ensures
        p.spec_next().spec_next() == p,
        p.spec_next() != p,
{
}

/// Every side is the successor of exactly one side: the one after it.
pub proof fn lemma_next_injective(p: Player, q: Player)
    ensures
        p.spec_next() == q.spec_next() <==> p == q,
{
}

/// The two sides have different names.
pub proof fn lemma_names_distinct()
    ensures
        Player::Blue.spec_name() != Player::Red.spec_name(),
{
    reveal_strlit("Blue");
    reveal_strlit("Red");
    assert(Player::Blue.spec_name().len() != Player::Red.spec_name().len());
}

} // verus!
