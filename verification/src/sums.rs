use vstd::prelude::*;
use crate::topology::Cell;

verus! {

/// The sum of `f` over the cells `(x, 0), ..., (x, rows - 1)`.
pub open spec fn column_sum(f: spec_fn(Cell) -> int, x: int, rows: int) -> int
    decreases rows,
{
    if rows <= 0 {
        0
    } else {
        column_sum(f, x, rows - 1) + f((x, rows - 1))
    }
}

/// The sum of `f` over the cells `(x, y)` with `0 <= x < columns` and
/// `0 <= y < rows`.
pub open spec fn grid_sum(f: spec_fn(Cell) -> int, columns: int, rows: int) -> int
    decreases columns,
{
    if columns <= 0 {
        0
    } else {
        grid_sum(f, columns - 1, rows) + column_sum(f, columns - 1, rows)
    }
}

/// The value of `f` at the cell `(x, y)`.
pub open spec fn at(f: spec_fn(Cell) -> int, x: int, y: int) -> int {
    f((x, y))
}

/// Whether `c` lies in the rectangle that `grid_sum` ranges over.
pub open spec fn in_rect(c: Cell, columns: int, rows: int) -> bool {
    0 <= c.0 < columns && 0 <= c.1 < rows
}

/// A column sum only depends on the values of the function on that column.
pub proof fn lemma_column_sum_congruence(
    f: spec_fn(Cell) -> int,
    g: spec_fn(Cell) -> int,
    x: int,
    rows: int,
)
    requires
        forall|y: int| 0 <= y < rows ==> #[trigger] at(f, x, y) == at(g, x, y),
    ensures
        column_sum(f, x, rows) == column_sum(g, x, rows),
    decreases rows,
{
    if rows > 0 {
        lemma_column_sum_congruence(f, g, x, rows - 1);
        assert(at(f, x, rows - 1) == at(g, x, rows - 1));
    }
}

/// A grid sum only depends on the values of the function on the rectangle.
pub proof fn lemma_grid_sum_congruence(
    f: spec_fn(Cell) -> int,
    g: spec_fn(Cell) -> int,
    columns: int,
    rows: int,
)
    requires
        forall|c: Cell| in_rect(c, columns, rows) ==> f(c) == g(c),
    ensures
        grid_sum(f, columns, rows) == grid_sum(g, columns, rows),
    decreases columns,
{
    if columns > 0 {
        let last = columns - 1;
        assert forall|c: Cell| in_rect(c, last, rows) implies f(c) == g(c) by {
            assert(in_rect(c, columns, rows));
        }
        lemma_grid_sum_congruence(f, g, last, rows);
        assert forall|y: int| 0 <= y < rows implies #[trigger] at(f, last, y) == at(g, last, y) by {
            assert(in_rect((last, y), columns, rows));
        }
        lemma_column_sum_congruence(f, g, last, rows);
    }
}

/// Changing a function at one cell of a column changes the column sum by
/// the change at that cell.
pub proof fn lemma_column_sum_point(
    f: spec_fn(Cell) -> int,
    g: spec_fn(Cell) -> int,
    x: int,
    rows: int,
    p: int,
)
    requires
        0 <= p < rows,
        forall|y: int| 0 <= y < rows && y != p ==> #[trigger] at(f, x, y) == at(g, x, y),
    ensures
        column_sum(g, x, rows) == column_sum(f, x, rows) + g((x, p)) - f((x, p)),
    decreases rows,
{
    if rows - 1 == p {
        lemma_column_sum_congruence(f, g, x, rows - 1);
    } else {
        lemma_column_sum_point(f, g, x, rows - 1, p);
        assert(at(f, x, rows - 1) == at(g, x, rows - 1));
    }
}

/// Changing a function at one cell of the rectangle changes the grid sum by
/// the change at that cell.
pub proof fn lemma_grid_sum_point(
    f: spec_fn(Cell) -> int,
    g: spec_fn(Cell) -> int,
    columns: int,
    rows: int,
    p: Cell,
)
    requires
        in_rect(p, columns, rows),
        forall|c: Cell| in_rect(c, columns, rows) && c != p ==> f(c) == g(c),
    ensures
        grid_sum(g, columns, rows) == grid_sum(f, columns, rows) + g(p) - f(p),
    decreases columns,
{
    let last = columns - 1;
    if last == p.0 {
        assert forall|c: Cell| in_rect(c, last, rows) implies f(c) == g(c) by {
            assert(in_rect(c, columns, rows) && c != p);
        }
        lemma_grid_sum_congruence(f, g, last, rows);
        assert forall|y: int| 0 <= y < rows && y != p.1 implies #[trigger] at(f, last, y) == at(
            g,
            last,
            y,
        ) by {
            assert(in_rect((last, y), columns, rows) && (last, y) != p);
        }
        lemma_column_sum_point(f, g, last, rows, p.1);
        assert((last, p.1) == p);
    } else {
        assert forall|c: Cell| in_rect(c, last, rows) && c != p implies f(c) == g(c) by {
            assert(in_rect(c, columns, rows));
        }
        lemma_grid_sum_point(f, g, last, rows, p);
        assert forall|y: int| 0 <= y < rows implies #[trigger] at(f, last, y) == at(g, last, y) by {
            assert(in_rect((last, y), columns, rows) && (last, y) != p);
        }
        lemma_column_sum_congruence(f, g, last, rows);
    }
}

/// Changing a function at two different cells of the rectangle changes the
/// grid sum by the sum of the two changes.
pub proof fn lemma_grid_sum_two_points(
    f: spec_fn(Cell) -> int,
    g: spec_fn(Cell) -> int,
    columns: int,
    rows: int,
    p: Cell,
    q: Cell,
)
    requires
        in_rect(p, columns, rows),
        in_rect(q, columns, rows),
        p != q,
        forall|c: Cell| in_rect(c, columns, rows) && c != p && c != q ==> f(c) == g(c),
    ensures
        grid_sum(g, columns, rows) == grid_sum(f, columns, rows) + (g(p) - f(p)) + (g(q) - f(q)),
{
    let mid = |c: Cell| if c == p { g(c) } else { f(c) };
    lemma_grid_sum_point(f, mid, columns, rows, p);
    lemma_grid_sum_point(mid, g, columns, rows, q);
}

/// The column sum of the negated sum of three functions.
pub proof fn lemma_column_sum_of_three(
    h: spec_fn(Cell) -> int,
    a: spec_fn(Cell) -> int,
    b: spec_fn(Cell) -> int,
    d: spec_fn(Cell) -> int,
    x: int,
    rows: int,
)
    requires
        forall|y: int|
            0 <= y < rows ==> #[trigger] at(h, x, y) == -(at(a, x, y) + at(b, x, y) + at(d, x, y)),
    ensures
        column_sum(h, x, rows) == -(column_sum(a, x, rows) + column_sum(b, x, rows) + column_sum(
            d,
            x,
            rows,
        )),
    decreases rows,
{
    if rows > 0 {
        lemma_column_sum_of_three(h, a, b, d, x, rows - 1);
        assert(at(h, x, rows - 1) == -(at(a, x, rows - 1) + at(b, x, rows - 1) + at(
            d,
            x,
            rows - 1,
        )));
    }
}

/// The grid sum of the negated sum of three functions is the negated sum of
/// their grid sums.
pub proof fn lemma_grid_sum_of_three(
    h: spec_fn(Cell) -> int,
    a: spec_fn(Cell) -> int,
    b: spec_fn(Cell) -> int,
    d: spec_fn(Cell) -> int,
    columns: int,
    rows: int,
)
    requires
        forall|c: Cell| in_rect(c, columns, rows) ==> h(c) == -(a(c) + b(c) + d(c)),
    ensures
        grid_sum(h, columns, rows) == -(grid_sum(a, columns, rows) + grid_sum(b, columns, rows)
            + grid_sum(d, columns, rows)),
    decreases columns,
{
    if columns > 0 {
        let last = columns - 1;
        assert forall|c: Cell| in_rect(c, last, rows) implies h(c) == -(a(c) + b(c) + d(c)) by {
            assert(in_rect(c, columns, rows));
        }
        lemma_grid_sum_of_three(h, a, b, d, last, rows);
        assert forall|y: int| 0 <= y < rows implies #[trigger] at(h, last, y) == -(at(a, last, y)
            + at(b, last, y) + at(d, last, y)) by {
            assert(in_rect((last, y), columns, rows));
        }
        lemma_column_sum_of_three(h, a, b, d, last, rows);
    }
}

/// A column sum of values between `-bound` and `bound` lies between
/// `-bound * rows` and `bound * rows`.
pub proof fn lemma_column_sum_bounds(f: spec_fn(Cell) -> int, x: int, rows: int, bound: int)
    requires
        0 <= rows,
        0 <= bound,
        forall|y: int| 0 <= y < rows ==> -bound <= #[trigger] at(f, x, y) <= bound,
    ensures
        -bound * rows <= column_sum(f, x, rows) <= bound * rows,
    decreases rows,
{
    if rows > 0 {
        lemma_column_sum_bounds(f, x, rows - 1, bound);
        assert(-bound <= at(f, x, rows - 1) <= bound);
        assert(bound * rows == bound * (rows - 1) + bound) by (nonlinear_arith);
        assert(-bound * rows == -bound * (rows - 1) - bound) by (nonlinear_arith);
    } else {
        assert(bound * rows == 0 && -bound * rows == 0) by (nonlinear_arith)
            requires
                rows == 0,
        ;
    }
}

/// A grid sum of a function that vanishes on the rectangle is zero.
pub proof fn lemma_grid_sum_zero(f: spec_fn(Cell) -> int, columns: int, rows: int)
    requires
        forall|c: Cell| in_rect(c, columns, rows) ==> f(c) == 0,
    ensures
        grid_sum(f, columns, rows) == 0,
    decreases columns,
{
    if columns > 0 {
        let last = columns - 1;
        assert forall|c: Cell| in_rect(c, last, rows) implies f(c) == 0 by {
            assert(in_rect(c, columns, rows));
        }
        lemma_grid_sum_zero(f, last, rows);
        assert forall|y: int| 0 <= y < rows implies -0 <= #[trigger] at(f, last, y) <= 0 by {
            assert(in_rect((last, y), columns, rows));
        }
        if rows >= 0 {
            lemma_column_sum_bounds(f, last, rows, 0);
        }
    }
}

} // verus!
