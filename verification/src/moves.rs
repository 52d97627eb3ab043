//! Move-ordering heuristics. A move is described by the plain attributes the
//! heuristics read: the moving piece's role, the captured role if any, and
//! whether the move promotes. Lower keys are searched earlier; captures get
//! negative keys (most valuable victim first, least valuable attacker first),
//! quiet promotions get a late key of 60.

use vstd::prelude::*;

verus! {

#[derive(Clone, Copy, PartialEq, Eq, Structural, Debug)]
pub enum Role {
    Pawn,
    Knight,
    Bishop,
    Rook,
    Queen,
    King,
}

/// The attributes of one move that the ordering heuristics consult.
#[derive(Clone, Copy, Debug)]
pub struct MoveInfo {
    pub role: Role,
    pub capture: Option<Role>,
    pub is_promotion: bool,
}

pub open spec fn spec_attacker_value(r: Role) -> int {
    match r {
        Role::Pawn => 1,
        Role::Bishop => 3,
        Role::Knight => 3,
        Role::Rook => 5,
        _ => 9,
    }
}

pub open spec fn spec_victim_value(r: Role) -> int {
    match r {
        Role::Pawn => 10,
        Role::Bishop => 30,
        Role::Knight => 30,
        Role::Rook => 50,
        _ => 90,
    }
}

/// Sort key for any move: 60 for a promotion, plus attacker-minus-victim for
/// a capture.
pub open spec fn spec_move_score(m: MoveInfo) -> int {
    (if m.is_promotion {
        60int
    } else {
        0int
    }) + match m.capture {
        Some(victim) => spec_attacker_value(m.role) - spec_victim_value(victim),
        None => 0,
    }
}

/// Sort key for a capture: attacker-minus-victim only, with no promotion term.
pub open spec fn spec_capture_score(m: MoveInfo) -> int {
    match m.capture {
        Some(victim) => spec_attacker_value(m.role) - spec_victim_value(victim),
        None => 0,
    }
}

fn attacker_value(r: Role) -> (v: i32)
    ensures
        v == spec_attacker_value(r),
{
    match r {
        Role::Pawn => 1,
        Role::Bishop => 3,
        Role::Knight => 3,
        Role::Rook => 5,
        _ => 9,
    }
}

fn victim_value(r: Role) -> (v: i32)
    ensures
        v == spec_victim_value(r),
{
    match r {
        Role::Pawn => 10,
        Role::Bishop => 30,
        Role::Knight => 30,
        Role::Rook => 50,
        _ => 90,
    }
}

/// Sort key for a move; lower keys are searched earlier.
pub fn move_score(m: &MoveInfo) -> (r: i32)
    ensures
        r == spec_move_score(*m),
{
    let base: i32 = if m.is_promotion {
        60
    } else {
        0
    };
    match m.capture {
        Some(victim) => base + attacker_value(m.role) - victim_value(victim),
        None => base,
    }
}

/// Sort key for a capture; lower keys are searched earlier. Moves without a
/// captured role are not meaningful inputs.
pub fn capture_score(m: &MoveInfo) -> (r: i32)
    requires
        m.capture is Some,
    ensures
        r == spec_capture_score(*m),
{
    match m.capture {
        Some(victim) => attacker_value(m.role) - victim_value(victim),
        None => 0,
    }
}

} // verus!
