//! What the screens say: the fixed captions and the score line.

use vstd::prelude::*;

verus! {

/// One line of text on the start menu or on the game-over screen.
#[derive(Clone, Copy, Debug, PartialEq, Eq, Hash, Structural)]
pub enum Caption {
    Title,
    Controls,
    PressEnterToStart,
    GameOver,
    PressEnterToRestart,
    PressEscToQuit,
}

impl Caption {
    /// The words of the caption.
    pub open spec fn spec_text(self) -> Seq<char> {
        match self {
            Caption::Title => "Zombie Trooper"@,
            Caption::Controls => "AWSD to move, spacebar to shoot"@,
            Caption::PressEnterToStart => "Press Enter to Start"@,
            Caption::GameOver => "Game Over"@,
            Caption::PressEnterToRestart => "Press Enter to restart"@,
            Caption::PressEscToQuit => "Press ESC to quit"@,
        }
    }

    /// The words of the caption.
    pub fn text(self) -> (words: &'static str)
        ensures
            words@ == self.spec_text(),
    {
        match self {
            Caption::Title => "Zombie Trooper",
            Caption::Controls => "AWSD to move, spacebar to shoot",
            Caption::PressEnterToStart => "Press Enter to Start",
            Caption::GameOver => "Game Over",
            Caption::PressEnterToRestart => "Press Enter to restart",
            Caption::PressEscToQuit => "Press ESC to quit",
        }
    }
}

/// The three lines of the start menu, top to bottom.
pub open spec fn start_menu() -> Seq<Caption> {
    seq![Caption::Title, Caption::Controls, Caption::PressEnterToStart]
}

/// The three lines of the game-over screen, top to bottom.
pub open spec fn game_over_screen() -> Seq<Caption> {
    seq![Caption::GameOver, Caption::PressEnterToRestart, Caption::PressEscToQuit]
}

/// The character for the digit `d`.
pub open spec fn digit(d: int) -> char {
    seq!['0', '1', '2', '3', '4', '5', '6', '7', '8', '9'][d]
}

/// The number `n` written in decimal, without leading zeros.
pub open spec fn decimal(n: nat) -> Seq<char>
    decreases n,
{
    if n < 10 {
        seq![digit(n as int)]
    } else {
        decimal(n / 10).push(digit((n % 10) as int))
    }
}

/// The line the score display shows for `score` enemies shot.
pub open spec fn spec_score_line(score: u32) -> Seq<char> {
    "Zombies: "@ + decimal(score as nat)
}

/// The digit `d` as text.
fn digit_text(d: u32) -> (text: &'static str)
    requires
        d < 10,
    ensures
        text@ == seq![digit(d as int)],
{
    proof {
        reveal_strlit("0");
        reveal_strlit("1");
        reveal_strlit("2");
        reveal_strlit("3");
        reveal_strlit("4");
        reveal_strlit("5");
        reveal_strlit("6");
        reveal_strlit("7");
        reveal_strlit("8");
        reveal_strlit("9");
    }
    let text = if d == 0 {
        "0"
    } else if d == 1 {
        "1"
    } else if d == 2 {
        "2"
    } else if d == 3 {
        "3"
    } else if d == 4 {
        "4"
    } else if d == 5 {
        "5"
    } else if d == 6 {
        "6"
    } else if d == 7 {
        "7"
    } else if d == 8 {
        "8"
    } else {
        "9"
    };
    assert(text@ =~= seq![digit(d as int)]);
    text
}

/// Writes `n` in decimal at the end of `text`.
fn push_decimal(text: &mut String, n: u32)
    ensures
        final(text)@ == old(text)@ + decimal(n as nat),
    decreases n,
{
    if n >= 10 {
        push_decimal(text, n / 10);
    }
    text.append(digit_text(n % 10));
    assert(text@ =~= old(text)@ + decimal(n as nat));
}

/// The line the score display shows for `score` enemies shot: the word
/// `Zombies`, a colon, a space, and the count in decimal.
pub fn score_line(score: u32) -> (line: String)
    ensures
        line@ == spec_score_line(score),
{
    let mut line = String::from_str("Zombies: ");
    push_decimal(&mut line, score);
    line
}

} // verus!
