//! Laws of the padded catalog tables: one line for the title, the header,
//! the rule and each row, all of one width.
use vstd::prelude::*;
use crate::text::{byte_len, join_seqs, str_len};
use crate::tool_output::{
    cell_max, cell_str, col_width, index_width, padded, rows_match_columns, shared_width,
    table_lines, table_text, CellValue, QueryResult,
};

verus! {

/// The total length of the pieces.
pub open spec fn total_len(ps: Seq<Seq<char>>) -> nat
    decreases ps.len(),
{
    if ps.len() == 0 {
        0
    } else {
        total_len(ps.drop_last()) + ps.last().len()
    }
}

/// The widths of the first `n` columns, added up.
pub open spec fn width_sum(columns: Seq<String>, rows: Seq<Vec<CellValue>>, n: int) -> nat
    decreases n,
{
    if n <= 0 {
        0
    } else {
        width_sum(columns, rows, n - 1) + col_width(columns, rows, n - 1) as nat
    }
}

/// Every name and cell of `r` is shorter than `usize::MAX` bytes, as any
/// text held in memory is.
pub open spec fn fits_in_memory(r: QueryResult) -> bool {
    &&& forall|j: int| 0 <= j < r.columns@.len() ==> byte_len(#[trigger] r.columns@[j]@) <= usize::MAX
    &&& forall|k: int, i: int|
        0 <= k < r.rows@.len() && 0 <= i < r.rows@[k]@.len() ==> byte_len(
            cell_str(#[trigger] r.rows@[k]@[i]),
        ) <= usize::MAX
}

proof fn lemma_byte_len_covers_chars(s: Seq<char>)
    ensures
        byte_len(s) >= s.len(),
    decreases s.len(),
{
    if s.len() > 0 {
        lemma_byte_len_covers_chars(s.drop_first());
    }
}

proof fn lemma_cell_max_covers(rows: Seq<Vec<CellValue>>, i: int, r: int, m: int)
    requires
        0 <= m < r,
    ensures
        cell_max(rows, i, r) >= str_len(cell_str(rows[m]@[i])),
    decreases r,
{
    if m < r - 1 {
        lemma_cell_max_covers(rows, i, r - 1, m);
    }
}

proof fn lemma_shared_width_covers(columns: Seq<String>, rows: Seq<Vec<CellValue>>, i: int, k: int)
    requires
        0 <= i < k,
    ensures
        shared_width(columns, rows, i, k) >= index_width(columns, rows, i),
    decreases k,
{
    if i < k - 1 {
        lemma_shared_width_covers(columns, rows, i, k - 1);
    }
}

proof fn lemma_shared_width_distinct(columns: Seq<String>, rows: Seq<Vec<CellValue>>, i: int, k: int)
    requires
        0 <= i < columns.len(),
        k <= columns.len(),
        forall|a: int, b: int|
            0 <= a < b < columns.len() ==> #[trigger] columns[a]@ != #[trigger] columns[b]@,
    ensures
        shared_width(columns, rows, i, k) == if k <= i {
            0
        } else {
            index_width(columns, rows, i)
        },
    decreases k,
{
    if k > 0 {
        lemma_shared_width_distinct(columns, rows, i, k - 1);
        if k - 1 != i {
            if k - 1 < i {
                assert(columns[k - 1]@ != columns[i]@);
            } else {
                assert(columns[i]@ != columns[k - 1]@);
            }
        }
    }
}

proof fn lemma_join_len(ps: Seq<Seq<char>>, sep: Seq<char>)
    requires
        ps.len() >= 1,
    ensures
        join_seqs(ps, sep).len() == total_len(ps) + sep.len() * (ps.len() - 1),
    decreases ps.len(),
{
    if ps.len() == 1 {
        assert(ps.drop_last() =~= Seq::<Seq<char>>::empty());
    } else {
        lemma_join_len(ps.drop_last(), sep);
        assert(sep.len() * (ps.len() - 1) == sep.len() * (ps.len() - 2) + sep.len()) by (nonlinear_arith);
    }
}

proof fn lemma_total_len(ps: Seq<Seq<char>>, columns: Seq<String>, rows: Seq<Vec<CellValue>>)
    requires
        forall|j: int| 0 <= j < ps.len() ==> (#[trigger] ps[j]).len() == col_width(columns, rows, j),
    ensures
        total_len(ps) == width_sum(columns, rows, ps.len() as int),
    decreases ps.len(),
{
    if ps.len() > 0 {
        lemma_total_len(ps.drop_last(), columns, rows);
    }
}

/// A text no wider in bytes than column `i` pads to exactly its width.
proof fn lemma_padded_to_width(s: Seq<char>, r: QueryResult, i: int)
    requires
        byte_len(s) <= usize::MAX,
        str_len(s) <= col_width(r.columns@, r.rows@, i),
    ensures
        padded(s, col_width(r.columns@, r.rows@, i)).len() == col_width(r.columns@, r.rows@, i),
{
    lemma_byte_len_covers_chars(s);
}

/// A line of pieces, one per column, each as wide as its column.
proof fn lemma_line_len(ps: Seq<Seq<char>>, r: QueryResult)
    requires
        ps.len() == r.columns@.len(),
        ps.len() >= 1,
        forall|j: int| 0 <= j < ps.len() ==> (#[trigger] ps[j]).len() == col_width(
            r.columns@,
            r.rows@,
            j,
        ),
    ensures
        ("  "@ + join_seqs(ps, " | "@)).len() == 2 + width_sum(r.columns@, r.rows@, ps.len() as int)
            + 3 * (ps.len() - 1),
        ("  "@ + join_seqs(ps, " | "@)).take(2) == "  "@,
{
    reveal_strlit("  ");
    reveal_strlit(" | ");
    lemma_join_len(ps, " | "@);
    lemma_total_len(ps, r.columns@, r.rows@);
    assert(("  "@ + join_seqs(ps, " | "@)).take(2) =~= "  "@);
}

/// The padded table of a result with rows has one line for the title, the
/// header, the rule and each row; every line but the title starts with two
/// spaces and is as long as the column widths, added up, and the ` | `
/// between them. The text is those lines joined by line breaks.
pub proof fn law_padded_table_shape(r: QueryResult, title: Seq<char>, empty_msg: Seq<char>)
    requires
        rows_match_columns(r),
        r.rows@.len() > 0,
        r.columns@.len() > 0,
        fits_in_memory(r),
    ensures
        table_lines(r, title).len() == r.rows@.len() + 3,
        table_lines(r, title)[0] == title,
        forall|l: int|
            1 <= l < table_lines(r, title).len() ==> (#[trigger] table_lines(r, title)[l]).take(2)
                == "  "@ && table_lines(r, title)[l].len() == 2 + width_sum(
                r.columns@,
                r.rows@,
                r.columns@.len() as int,
            ) + 3 * (r.columns@.len() - 1),
        table_text(r, title, empty_msg) == join_seqs(table_lines(r, title), "\n"@),
{
    let cols = r.columns@;
    let rows = r.rows@;
    let n = cols.len();
    let lines = table_lines(r, title);
    assert forall|l: int| 1 <= l < lines.len() implies (#[trigger] lines[l]).take(2) == "  "@
        && lines[l].len() == 2 + width_sum(cols, rows, n as int) + 3 * (n - 1) by {
        if l == 1 {
            let header = Seq::new(n, |i: int| padded(cols[i]@, col_width(cols, rows, i)));
            assert forall|j: int| 0 <= j < n implies (#[trigger] header[j]).len() == col_width(
                cols,
                rows,
                j,
            ) by {
                lemma_shared_width_covers(cols, rows, j, n as int);
                lemma_padded_to_width(cols[j]@, r, j);
            }
            lemma_line_len(header, r);
        } else if l == 2 {
            let rule = Seq::new(n, |i: int| Seq::new(col_width(cols, rows, i) as nat, |k: int| '-'));
            lemma_line_len(rule, r);
        } else {
            let k = l - 3;
            let line = Seq::new(
                rows[k]@.len(),
                |i: int| padded(cell_str(rows[k]@[i]), col_width(cols, rows, i)),
            );
            assert(rows[k]@.len() == n);
            assert forall|j: int| 0 <= j < n implies (#[trigger] line[j]).len() == col_width(
                cols,
                rows,
                j,
            ) by {
                lemma_cell_max_covers(rows, j, rows.len() as int, k);
                lemma_shared_width_covers(cols, rows, j, n as int);
                lemma_padded_to_width(cell_str(rows[k]@[j]), r, j);
            }
            lemma_line_len(line, r);
            assert(lines[l] == "  "@ + join_seqs(line, " | "@));
        }
    }
}

/// With distinct column names, a column's width is what it needs on its
/// own: the byte length of its name or of its widest cell.
pub proof fn law_distinct_columns_keep_their_width(r: QueryResult, i: int)
    requires
        0 <= i < r.columns@.len(),
        forall|a: int, b: int|
            0 <= a < b < r.columns@.len() ==> #[trigger] r.columns@[a]@ != #[trigger] r.columns@[b]@,
    ensures
        col_width(r.columns@, r.rows@, i) == index_width(r.columns@, r.rows@, i),
{
    lemma_shared_width_distinct(r.columns@, r.rows@, i, r.columns@.len() as int);
}

} // verus!
