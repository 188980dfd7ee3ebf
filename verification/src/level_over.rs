//! What follows a finished level: the number of the next round, and the
//! cutscene that opens it.

use vstd::prelude::*;

verus! {

/// The cutscene that opens a round.
#[derive(Debug, Copy, Clone, Eq, PartialEq, Hash, Structural)]
pub enum LevelIntro {
    Intro,
    LevelTwoIntro,
    LevelThreeIntro,
}

/// The cutscene that opens round `round`: the second and third level have
/// one of their own, every other round opens with the general one.
pub open spec fn intro_for(round: int) -> LevelIntro {
    if round == 1 {
        LevelIntro::LevelTwoIntro
    } else if round == 2 {
        LevelIntro::LevelThreeIntro
    } else {
        LevelIntro::Intro
    }
}

/// Steps from the round that has ended to the next: returns its number and
/// the cutscene that opens it.
pub fn next_level(round: usize) -> (next: (usize, LevelIntro))
    requires
        round < usize::MAX,
    ensures
        next.0 == round + 1,
        next.1 == intro_for(round + 1),
{
    let next_round = round + 1;
    let intro = match next_round {
        1 => LevelIntro::LevelTwoIntro,
        2 => LevelIntro::LevelThreeIntro,
        _ => LevelIntro::Intro,
    };
    (next_round, intro)
}

} // verus!
