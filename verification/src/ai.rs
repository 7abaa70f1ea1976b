//! The computer opponent's move selection. Only the random strategy is
//! implemented: it draws one position uniformly from the free cells.
//! Selecting an unimplemented strategy reports an error instead of
//! silently substituting another algorithm.

use vstd::prelude::*;

use crate::game::{cell_of, num_marked, spec_cell, spec_in_bounds};
use crate::{Coordinates, GameError, Player, Side};

verus! {

/// Which algorithm the computer uses to select its move. Further
/// strategies may be added; `MiniMax` is a named but unimplemented
/// extension point.
#[derive(Debug, Clone, Copy, PartialEq, Eq, Structural)]
#[non_exhaustive]
pub enum AI {
    Random,
    MiniMax,
}

/// Relies on rand::Rng::gen_range over `0..len`: it returns a value drawn
/// uniformly from that range and panics only when the range is empty.
#[verifier::external_body]
fn random_index(len: usize) -> (i: usize)
    requires
        len > 0,
    ensures
        i < len,
{
    rand::Rng::gen_range(&mut rand::thread_rng(), 0..len)
}

impl AI {
    /// Selects the computer's next mark on a board that still has a free
    /// cell. The random strategy returns some free position; an
    /// unimplemented strategy fails loudly instead of falling back.
    pub fn get_marker(&self, marked_positions: &Vec<Option<Player>>, side: &Side) -> (r: Result<
        Coordinates,
        GameError,
    >)
        requires
            side.wf(),
            marked_positions@.len() == side.0 * side.0,
            num_marked(marked_positions@, side.0 * side.0) < side.0 * side.0,
        ensures
            match r {
                Ok(c) => {
                    &&& self is Random
                    &&& spec_in_bounds(*side, c)
                    &&& spec_cell(marked_positions@, *side, c.x as int, c.y as int) is None
                },
                Err(e) => self is MiniMax && e is NotImplemented,
            },
    {
        match self {
            Self::Random => Ok(Self::random_mark(marked_positions, side)),
            Self::MiniMax => Err(GameError::NotImplemented),
        }
    }

    /// The random strategy: collect every free position, then draw one of
    /// them uniformly at random.
    fn random_mark(marked_positions: &Vec<Option<Player>>, side: &Side) -> (c: Coordinates)
        requires
            side.wf(),
            marked_positions@.len() == side.0 * side.0,
            num_marked(marked_positions@, side.0 * side.0) < side.0 * side.0,
        ensures
            spec_in_bounds(*side, c),
            spec_cell(marked_positions@, *side, c.x as int, c.y as int) is None,
    {
        let s = side.0;
        let mut remaining: Vec<Coordinates> = Vec::new();
        let mut y: u16 = 0;
        while y < s
            invariant
                y <= s,
                s == side.0,
                side.wf(),
                marked_positions@.len() == s * s,
                forall|k: int|
                    0 <= k < remaining@.len() ==> #[trigger] spec_in_bounds(*side, remaining@[k])
                        && spec_cell(
                        marked_positions@,
                        *side,
                        remaining@[k].x as int,
                        remaining@[k].y as int,
                    ) is None,
                remaining@.len() + num_marked(marked_positions@, y * s) == y * s,
            decreases s - y,
        {
            let mut x: u16 = 0;
            while x < s
                invariant
                    x <= s,
                    y < s,
                    s == side.0,
                    side.wf(),
                    marked_positions@.len() == s * s,
                    forall|k: int|
                        0 <= k < remaining@.len() ==> #[trigger] spec_in_bounds(
                            *side,
                            remaining@[k],
                        ) && spec_cell(
                            marked_positions@,
                            *side,
                            remaining@[k].x as int,
                            remaining@[k].y as int,
                        ) is None,
                    remaining@.len() + num_marked(marked_positions@, y * s + x) == y * s + x,
                decreases s - x,
            {
                proof {
                    assert((y as int) * s + x < s * s && (y as int) * s + x + 1 <= s * (s as int))
                        by (nonlinear_arith)
                        requires
                            x < s,
                            y < s,
                    ;
                }
                if cell_of(marked_positions, side, x, y).is_none() {
                    remaining.push(Coordinates { x: x as i16, y: y as i16 });
                }
                x += 1;
            }
            proof {
                assert((y as int) * s + s == (y + 1) * (s as int)) by (nonlinear_arith);
            }
            y += 1;
        }
        proof {
            assert((s as int) * s == s * (s as int)) by (nonlinear_arith);
        }
        let i = random_index(remaining.len());
        let c = remaining[i];
        proof {
            assert(spec_in_bounds(*side, remaining@[i as int]));
        }
        c
    }
}

} // verus!
