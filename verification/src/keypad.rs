//! The numeric-keypad mapping from the digits 1..=9 to board positions.
//!
//! The layout mirrors a telephone/calculator keypad held against the printed
//! board: 1 is the bottom-left corner, 9 the top-right. The mapping is
//! deliberately non-monotonic and must stay exactly as laid out here.

use vstd::prelude::*;

verus! {

/// Where a keypad digit lands on the board, as a (row, column) pair.
/// Digits outside 1..=9 fall back to (0, 0); input validation makes that
/// fallback unreachable in the game itself.
pub open spec fn keypad_spec(i: u8) -> (int, int) {
    if i == 1 {
        (2int, 0int)
    } else if i == 2 {
        (2int, 1int)
    } else if i == 3 {
        (2int, 2int)
    } else if i == 4 {
        (1int, 0int)
    } else if i == 5 {
        (1int, 1int)
    } else if i == 6 {
        (1int, 2int)
    } else if i == 7 {
        (0int, 0int)
    } else if i == 8 {
        (0int, 1int)
    } else if i == 9 {
        (0int, 2int)
    } else {
        (0int, 0int)
    }
}

/// Map a keypad digit to the board position it selects.
pub fn get_position_from_number(i: u8) -> (p: (usize, usize))
    ensures
        p.0 < 3,
        p.1 < 3,
        (p.0 as int, p.1 as int) == keypad_spec(i),
{
    match i {
        1 => (2, 0),
        2 => (2, 1),
        3 => (2, 2),
        4 => (1, 0),
        5 => (1, 1),
        6 => (1, 2),
        7 => (0, 0),
        8 => (0, 1),
        9 => (0, 2),
        _ => (0, 0),
    }
}

/// Some keypad digit selects the position (r, c).
pub open spec fn keypad_reaches(r: int, c: int) -> bool {
    exists|i: u8| 1 <= i <= 9 && #[trigger] keypad_spec(i) == (r, c)
}

/// The keypad mapping is a bijection from the digits 1..=9 onto the nine
/// board positions: distinct digits land on distinct cells, and every cell
/// is reached by some digit.
pub proof fn lemma_keypad_bijection()
    ensures
        forall|i: u8, j: u8|
            1 <= i <= 9 && 1 <= j <= 9 && i != j ==> keypad_spec(i) != keypad_spec(j),
        forall|r: int, c: int| 0 <= r < 3 && 0 <= c < 3 ==> #[trigger] keypad_reaches(r, c),
{
    assert forall|r: int, c: int| 0 <= r < 3 && 0 <= c < 3 implies #[trigger] keypad_reaches(
        r,
        c,
    ) by {
        let i: u8 = (7 - 3 * r + c) as u8;
        assert(1 <= i <= 9 && keypad_spec(i) == (r, c));
    }
}

} // verus!
