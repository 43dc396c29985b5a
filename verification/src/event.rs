//! What the engine tells its host, and what the host tells the engine.

use crate::geometry::Direction;
use vstd::prelude::*;

verus! {

/// A sound that the host may play.
#[derive(Debug, Copy, Clone, Eq, Hash, PartialEq, Structural)]
pub enum Sound {
    Die,
    EatPill,
    EatGhost,
    ExtraLives,
    OpeningSong,
}

impl Sound {
    /// The slot of the sound in a table of all sounds.
    pub fn index(&self) -> (i: usize)
        ensures
            i < 5,
            i == match self {
                Sound::Die => 0usize,
                Sound::EatPill => 1usize,
                Sound::EatGhost => 2usize,
                Sound::ExtraLives => 3usize,
                Sound::OpeningSong => 4usize,
            },
    {
        match self {
            Sound::Die => 0,
            Sound::EatPill => 1,
            Sound::EatGhost => 2,
            Sound::ExtraLives => 3,
            Sound::OpeningSong => 4,
        }
    }

    /// The name of the file that holds the sound.
    pub fn file_name(&self) -> (name: &'static str)
        ensures
            name@ == match self {
                Sound::Die => "die.ogg"@,
                Sound::EatPill => "eatpill.ogg"@,
                Sound::EatGhost => "eatghost.ogg"@,
                Sound::ExtraLives => "extra_lives.ogg"@,
                Sound::OpeningSong => "opening_song.ogg"@,
            },
    {
        match self {
            Sound::Die => "die.ogg",
            Sound::EatPill => "eatpill.ogg",
            Sound::EatGhost => "eatghost.ogg",
            Sound::ExtraLives => "extra_lives.ogg",
            Sound::OpeningSong => "opening_song.ogg",
        }
    }
}

/// Something that happened during a tick.
#[derive(Debug, Copy, Clone, PartialEq, Eq, Structural)]
pub enum Event {
    /// The player ate a pill.
    PillEaten,
    /// The player ate the fruit and won this many points.
    FruitEaten(u32),
    /// The player ate an adversary and won this many points.
    GhostEaten(u32),
    /// The score earned the player another life.
    ExtraLifeGranted,
    /// The last dot is gone.
    LevelComplete,
    /// An adversary caught the player.
    PlayerDied,
}

impl Event {
    /// The sound that goes with the event.
    pub open spec fn spec_sound(&self) -> Sound {
        match self {
            Event::PillEaten => Sound::EatPill,
            Event::FruitEaten(_) => Sound::EatPill,
            Event::GhostEaten(_) => Sound::EatGhost,
            Event::ExtraLifeGranted => Sound::ExtraLives,
            Event::LevelComplete => Sound::OpeningSong,
            Event::PlayerDied => Sound::Die,
        }
    }

    /// Milliseconds for which the host may halt the game to show the
    /// event: the time of a floating score, of the death sequence, or of
    /// the flashing board.
    pub open spec fn spec_pause_ms(&self) -> u64 {
        match self {
            Event::PillEaten => 0,
            Event::FruitEaten(_) => 150,
            Event::GhostEaten(_) => 150,
            Event::ExtraLifeGranted => 0,
            Event::LevelComplete => 3000,
            Event::PlayerDied => 1800,
        }
    }

    /// The sound that goes with the event.
    #[verifier::when_used_as_spec(spec_sound)]
    pub fn sound(&self) -> (s: Sound)
        ensures
            s == self.spec_sound(),
    {
        match self {
            Event::PillEaten => Sound::EatPill,
            Event::FruitEaten(_) => Sound::EatPill,
            Event::GhostEaten(_) => Sound::EatGhost,
            Event::ExtraLifeGranted => Sound::ExtraLives,
            Event::LevelComplete => Sound::OpeningSong,
            Event::PlayerDied => Sound::Die,
        }
    }

    /// Milliseconds for which the host may halt the game to show the
    /// event.
    #[verifier::when_used_as_spec(spec_pause_ms)]
    pub fn pause_ms(&self) -> (ms: u64)
        ensures
            ms == self.spec_pause_ms(),
    {
        match self {
            Event::PillEaten => 0,
            Event::FruitEaten(_) => 150,
            Event::GhostEaten(_) => 150,
            Event::ExtraLifeGranted => 0,
            Event::LevelComplete => 3000,
            Event::PlayerDied => 1800,
        }
    }
}

/// What the input of one tick asks for.
#[derive(Debug, Copy, Clone, PartialEq, Eq, Structural)]
pub enum InputEvent {
    Direction(Direction),
    Quit,
    Pause,
    Cheat,
    /// No key was pressed, or one that means nothing.
    Idle,
}

impl InputEvent {
    /// What a character key asks for.
    pub open spec fn of_char(c: char) -> InputEvent {
        if c == 'q' {
            InputEvent::Quit
        } else if c == 'v' {
            InputEvent::Cheat
        } else if c == ' ' {
            InputEvent::Pause
        } else {
            InputEvent::Idle
        }
    }

    /// What a character key asks for: `q` quits, `v` cheats, the space bar
    /// pauses, and every other character asks for nothing.
    pub fn from_char(c: char) -> (e: InputEvent)
        ensures
            e == InputEvent::of_char(c),
    {
        if c == 'q' {
            InputEvent::Quit
        } else if c == 'v' {
            InputEvent::Cheat
        } else if c == ' ' {
            InputEvent::Pause
        } else {
            InputEvent::Idle
        }
    }
}

/// What the host is to do after the input of a tick was handled.
#[derive(Debug, Copy, Clone, PartialEq, Eq, Structural)]
pub enum Command {
    /// Go on with the tick.
    Proceed,
    /// Hold the game until the player resumes, then go on with the tick.
    Pause,
    /// End the game.
    Quit,
}

/// The answer that a character key gives to a yes-or-no question, if any.
pub open spec fn spec_answer(c: char) -> Option<bool> {
    if c == 'y' || c == 'Y' {
        Some(true)
    } else if c == 'n' || c == 'N' {
        Some(false)
    } else {
        None
    }
}

/// The answer that a character key gives to a yes-or-no question: `y` and
/// `n` in either case answer, every other character does not.
#[verifier::when_used_as_spec(spec_answer)]
pub fn answer(c: char) -> (a: Option<bool>)
    ensures
        a == spec_answer(c),
{
    if c == 'y' || c == 'Y' {
        Some(true)
    } else if c == 'n' || c == 'N' {
        Some(false)
    } else {
        None
    }
}

/// How a round ends.
#[derive(Debug, Copy, Clone, PartialEq, Eq, Structural)]
pub enum GameState {
    /// The user asked to quit.
    UserQuit,
    /// The level is complete.
    SheetComplete,
    /// The player has died.
    LifeLost,
}

/// How the round ends by what happened during a tick: with a death if the
/// player died, else with a complete level if that happened, else not at
/// all.
pub open spec fn spec_verdict(events: Seq<Event>) -> Option<GameState> {
    if events.contains(Event::PlayerDied) {
        Some(GameState::LifeLost)
    } else if events.contains(Event::LevelComplete) {
        Some(GameState::SheetComplete)
    } else {
        None
    }
}

/// Tells from what happened during a tick whether the round ends, and
/// how.
pub fn verdict(events: &Vec<Event>) -> (r: Option<GameState>)
    ensures
        r == spec_verdict(events@),
{
    let mut died = false;
    let mut complete = false;
    let mut i: usize = 0;
    while i < events.len()
        invariant
            0 <= i <= events.len(),
            died == events@.take(i as int).contains(Event::PlayerDied),
            complete == events@.take(i as int).contains(Event::LevelComplete),
        decreases events.len() - i,
    {
        let ghost before = events@.take(i as int);
        assert(events@.take(i + 1) =~= before.push(events@[i as int]));
        proof {
            let e = events@[i as int];
            let after = before.push(e);
            assert(after[i as int] == e);
            assert forall|x: Event| after.contains(x) <==> before.contains(x) || x == e by {
                if before.contains(x) {
                    let k = choose|k: int| 0 <= k < before.len() && before[k] == x;
                    assert(after[k] == x);
                }
                if after.contains(x) {
                    let k = choose|k: int| 0 <= k < after.len() && after[k] == x;
                    if k < i {
                        assert(before[k] == x);
                    }
                }
            }
        }
        match events[i] {
            Event::PlayerDied => {
                died = true;
            },
            Event::LevelComplete => {
                complete = true;
            },
            _ => {},
        }
        i = i + 1;
    }
    assert(events@.take(events.len() as int) =~= events@);
    if died {
        Some(GameState::LifeLost)
    } else if complete {
        Some(GameState::SheetComplete)
    } else {
        None
    }
}

} // verus!
