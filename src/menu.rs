//! Canvas events and ring arithmetic of the radial menu's segments.
use vstd::prelude::*;

verus! {

/// Events of the pie menu's canvas.
#[derive(Debug, Clone, Copy, PartialEq, Eq, Structural)]
pub enum PieCanvasMessage {
    /// The pointer is over a segment, or over none.
    HoverSegment(Option<usize>),
    /// A segment was clicked.
    ClickSegment(usize),
    /// A segment was right-clicked.
    RightClickSegment(usize),
    /// The center was clicked.
    ClickCenter,
}

/// Steps between segments `a` and `b` on a ring of `n`, going the shorter way.
pub open spec fn ring_distance(a: int, b: int, n: int) -> int {
    let forward = (b - a) % n;
    let backward = (a - b) % n;
    if forward <= backward { forward } else { backward }
}

/// Steps between segments `a` and `b` of a ring of `n` segments, the shorter
/// way round; 0 for an empty ring. The indices may lie up to one turn apart.
pub fn circular_distance(a: usize, b: usize, n: usize) -> (r: usize)
    requires
        n == 0 || (a <= b + n && b <= a + n),
    ensures
        n == 0 ==> r == 0,
        n > 0 ==> r == ring_distance(a as int, b as int, n as int),
{
    if n == 0 {
        return 0;
    }
    let forward = if b >= a { b - a } else { n - (a - b) };
    let backward = if a >= b { a - b } else { n - (b - a) };
    let forward = forward % n;
    let backward = backward % n;
    proof {
        assert((b as int - a as int) % (n as int) == forward) by {
            if b < a {
                vstd::arithmetic::div_mod::lemma_mod_add_multiples_vanish(b as int - a as int, n as int);
            }
        }
        assert((a as int - b as int) % (n as int) == backward) by {
            if a < b {
                vstd::arithmetic::div_mod::lemma_mod_add_multiples_vanish(a as int - b as int, n as int);
            }
        }
    }
    if forward <= backward {
        forward
    } else {
        backward
    }
}

} // verus!
