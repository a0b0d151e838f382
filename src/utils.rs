use vstd::prelude::*;

verus! {

/// Number of pages of `y` items each that hold `x` items: the ceiling of `x / y`.
pub open spec fn ceil_div(x: int, y: int) -> int
    recommends
        y >= 1,
{
    (x + y - 1) / y
}

proof fn lemma_ceil_div_rounds_up(x: int, y: int)
    requires
        x >= 0,
        y >= 1,
        x % y != 0,
    ensures
        ceil_div(x, y) == x / y + 1,
        x / y + 1 <= x,
        x != 0,
{
    assert((x + y - 1) / y == x / y + 1 && x / y + 1 <= x && x != 0) by (nonlinear_arith)
        requires
            x >= 0,
            y >= 1,
            x % y != 0,
    ;
}

proof fn lemma_ceil_div_exact(x: int, y: int)
    requires
        x >= 0,
        y >= 1,
        x % y == 0,
    ensures
        ceil_div(x, y) == x / y,
        x / y <= x,
        x / y == 0 <==> x == 0,
{
    assert((x + y - 1) / y == x / y && x / y <= x && (x / y == 0 <==> x == 0)) by (nonlinear_arith)
        requires
            x >= 0,
            y >= 1,
            x % y == 0,
    ;
}

/// Ceiling division of a non-negative count by a positive page size.
pub fn div_ceil(x: i32, y: i32) -> (r: i32)
    requires
        x >= 0,
        y >= 1,
    ensures
        r == ceil_div(x as int, y as int),
        0 <= r <= x,
        r == 0 <==> x == 0,
{
    let x_u = x as u32;
    let y_u = y as u32;
    let q = x_u / y_u;
    let r: u32 = if x_u % y_u != 0 {
        proof {
            lemma_ceil_div_rounds_up(x as int, y as int);
        }
        q + 1
    } else {
        proof {
            lemma_ceil_div_exact(x as int, y as int);
        }
        q
    };
    r as i32
}

} // verus!
