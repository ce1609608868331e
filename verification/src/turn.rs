//! The chain of steps that makes up one turn.

use std::cmp::Ordering;
use vstd::prelude::*;
use vstd::std_specs::cmp::PartialEqSpecImpl;
use vstd::std_specs::cmp::PartialOrdSpecImpl;
use vstd::std_specs::convert::FromSpecImpl;
use vstd::std_specs::convert::IntoSpec;
use crate::position::Position;

verus! {

/// One turn, in progress or complete: where it started, where it stands, how
/// many steps it has taken and which squares it has captured, in the order
/// of capture.
#[derive(Debug)]
pub struct Move {
    pub starting_position: Position,
    pub end_position: Position,
    pub moves_counter: usize,
    pub kills: Vec<Position>,
}

/// A chain as a mathematical value.
pub struct Chain {
    pub start: Position,
    pub end: Position,
    pub steps: nat,
    pub captures: Seq<Position>,
}

/// The chain that has not left `start` yet.
pub open spec fn fresh(start: Position) -> Chain {
    Chain { start, end: start, steps: 0, captures: Seq::empty() }
}

/// `chain` after one more step to `to`, which captured `captured` if it is a
/// square.
pub open spec fn stepped(chain: Chain, to: Position, captured: Option<Position>) -> Chain {
    Chain {
        start: chain.start,
        end: to,
        steps: chain.steps + 1,
        captures: match captured {
            Some(square) => chain.captures.push(square),
            None => chain.captures,
        },
    }
}

/// `first` continued by `second`: the steps and captures of both, in this
/// order, from the start of `first` to the end of `second`.
pub open spec fn merged(first: Chain, second: Chain) -> Chain {
    Chain {
        start: first.start,
        end: second.end,
        steps: first.steps + second.steps,
        captures: first.captures + second.captures,
    }
}

impl View for Move {
    type V = Chain;

    open spec fn view(&self) -> Chain {
        Chain {
            start: self.starting_position,
            end: self.end_position,
            steps: self.moves_counter as nat,
            captures: self.kills@,
        }
    }
}

impl Move {
    /// Takes one step to `position`, capturing `captured` if it is a square.
    pub fn advance(&mut self, position: Position, captured: Option<Position>)
        requires
            old(self).moves_counter < usize::MAX,
        ensures
            final(self)@ == stepped(old(self)@, position, captured),
    {
        self.end_position = position;
        self.moves_counter += 1;
        if let Some(killed) = captured {
            self.kills.push(killed);
        }
    }

    /// Takes one step to `position`, capturing `to_kill` if it converts to a
    /// square.
    ///
    /// The chain takes one step whatever the conversions give. Which square
    /// it steps to and which it captures is stated for the conversions that
    /// have a specification, such as a pair for a position; `advance` takes
    /// the squares themselves.
    pub fn step<P, O>(&mut self, position: P, to_kill: O) where
        P: Into<Position>,
        O: Into<Option<P>>,

        requires
            old(self).moves_counter < usize::MAX,
        ensures
            exists|to: Position, captured: Option<Position>|
                final(self)@ == #[trigger] stepped(old(self)@, to, captured),
            P::obeys_into_spec() ==> final(self)@.end == position.into_spec(),
            P::obeys_into_spec() && O::obeys_into_spec() ==> final(self)@ == stepped(
                old(self)@,
                position.into_spec(),
                match to_kill.into_spec() {
                    Some(square) => Some(square.into_spec()),
                    None => None,
                },
            ),
    {
        let captured = match to_kill.into() {
            Some(killed) => Some(killed.into()),
            None => None,
        };
        let to = position.into();
        self.advance(to, captured);
        assert(self@ == stepped(old(self)@, to, captured));
    }

    /// Continues this chain by `other`.
    pub fn merge(&mut self, other: Self)
        requires
            old(self).moves_counter + other.moves_counter <= usize::MAX,
        ensures
            final(self)@ == merged(old(self)@, other@),
    {
        let mut other = other;
        self.end_position = other.end_position;
        self.moves_counter += other.moves_counter;
        self.kills.append(&mut other.kills);
    }

    /// Orders two chains by the number of their steps.
    pub fn cmp(&self, other: &Self) -> (order: Ordering)
        ensures
            order == step_order(self@.steps, other@.steps),
    {
        if self.moves_counter < other.moves_counter {
            Ordering::Less
        } else if self.moves_counter == other.moves_counter {
            Ordering::Equal
        } else {
            Ordering::Greater
        }
    }
}

/// How a chain of `a` steps stands to a chain of `b` steps.
pub open spec fn step_order(a: nat, b: nat) -> Ordering {
    if a < b {
        Ordering::Less
    } else if a == b {
        Ordering::Equal
    } else {
        Ordering::Greater
    }
}

impl Clone for Move {
    fn clone(&self) -> (copy: Move)
        ensures
            copy@ == self@,
    {
        Move {
            starting_position: self.starting_position,
            end_position: self.end_position,
            moves_counter: self.moves_counter,
            kills: self.kills.clone(),
        }
    }
}

impl PartialEq for Move {
    fn eq(&self, other: &Self) -> (equal: bool) {
        self.moves_counter == other.moves_counter
    }
}

/// Two chains are equal when they have taken the same number of steps,
/// whatever their squares and captures.
impl PartialEqSpecImpl for Move {
    open spec fn obeys_eq_spec() -> bool {
        true
    }

    open spec fn eq_spec(&self, other: &Self) -> bool {
        self.moves_counter == other.moves_counter
    }
}

impl Eq for Move {

}

impl PartialOrd for Move {
    fn partial_cmp(&self, other: &Self) -> (order: Option<Ordering>) {
        Some(self.cmp(other))
    }
}

/// Chains are ordered by the number of their steps alone.
impl PartialOrdSpecImpl for Move {
    open spec fn obeys_partial_cmp_spec() -> bool {
        true
    }

    open spec fn partial_cmp_spec(&self, other: &Self) -> Option<Ordering> {
        Some(step_order(self@.steps, other@.steps))
    }
}

impl From<Position> for Move {
    /// The chain that has not left `pos` yet.
    fn from(pos: Position) -> (chain: Move)
        ensures
            chain@ == fresh(pos),
    {
        Move { starting_position: pos, end_position: pos, moves_counter: 0, kills: Vec::new() }
    }
}

/// A chain holds a vector, which no spec function can make: what the
/// conversion gives is stated on `from` itself, over the chain's view.
impl FromSpecImpl<Position> for Move {
    open spec fn obeys_from_spec() -> bool {
        false
    }

    open spec fn from_spec(pos: Position) -> Move {
        arbitrary()
    }
}

impl From<(usize, usize)> for Move {
    /// The chain that has not left the square `pos` yet.
    fn from(pos: (usize, usize)) -> (chain: Move)
        ensures
            chain@ == fresh(Position(pos)),
    {
        Move::from(Position(pos))
    }
}

/// As for a position: what the conversion gives is stated on `from` itself.
impl FromSpecImpl<(usize, usize)> for Move {
    open spec fn obeys_from_spec() -> bool {
        false
    }

    open spec fn from_spec(pos: (usize, usize)) -> Move {
        arbitrary()
    }
}

} // verus!
