//! The mark occupying one board cell: a player's token or the empty marker.

use vstd::prelude::*;

verus! {

/// One cell's content: player X's mark, player O's mark, or nothing yet.
#[derive(Clone, Copy, PartialEq, Eq, Structural, Debug)]
pub enum Token {
    X,
    O,
    Empty,
}

/// The one-character display symbol of a token: "X", "O", or "-".
pub open spec fn symbol(t: Token) -> Seq<char> {
    match t {
        Token::X => seq!['X'],
        Token::O => seq!['O'],
        Token::Empty => seq!['-'],
    }
}

/// Whose token is placed on the given turn: X moves on even turns,
/// O on odd ones. Turn parity is the sole source of truth for whose
/// turn it is.
pub open spec fn turn_token(turn: nat) -> Token {
    if turn % 2 == 0 {
        Token::X
    } else {
        Token::O
    }
}

impl Token {
    /// The display symbol of this token.
    pub fn value(&self) -> (r: &'static str)
        ensures
            r@ == symbol(*self),
    {
        match self {
            Token::X => {
                let s = "X";
                proof {
                    reveal_strlit("X");
                    assert(s@ =~= symbol(Token::X));
                }
                s
            },
            Token::O => {
                let s = "O";
                proof {
                    reveal_strlit("O");
                    assert(s@ =~= symbol(Token::O));
                }
                s
            },
            Token::Empty => {
                let s = "-";
                proof {
                    reveal_strlit("-");
                    assert(s@ =~= symbol(Token::Empty));
                }
                s
            },
        }
    }
}

/// The token that moves on the given turn.
pub fn token_for_turn(turn: usize) -> (t: Token)
    ensures
        t == turn_token(turn as nat),
{
    if turn % 2 == 0 {
        Token::X
    } else {
        Token::O
    }
}

} // verus!
