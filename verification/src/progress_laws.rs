//! Laws of the sampling progress: the rows it reports are the rows that the
//! query returned.
use vstd::prelude::*;
use crate::text::{decimal, digit_char, join_seqs};
use crate::tool_execution::{pipe_line_at, pipe_lines_before, table_row_count};
use crate::tool_output::{
    cell_str, column_names, markdown_cell, markdown_lines, markdown_row, markdown_text,
    prefix_below, CellValue, QueryResult,
};

verus! {

/// `s` holds no line break.
pub open spec fn one_line(s: Seq<char>) -> bool {
    forall|i: int| 0 <= i < s.len() ==> #[trigger] s[i] != '\n'
}

/// `s` begins with `|`.
pub open spec fn starts_pipe(s: Seq<char>) -> bool {
    s.len() > 0 && s[0] == '|'
}

/// The number of lines among `ls` that begin with `|`.
pub open spec fn pipe_count(ls: Seq<Seq<char>>) -> nat
    decreases ls.len(),
{
    if ls.len() == 0 {
        0
    } else {
        pipe_count(ls.drop_last()) + if starts_pipe(ls.last()) {
            1nat
        } else {
            0nat
        }
    }
}

proof fn lemma_pipe_prefix(a: Seq<char>, t: Seq<char>, p: int)
    requires
        0 <= p <= a.len(),
    ensures
        pipe_lines_before(a + t, p) == pipe_lines_before(a, p),
    decreases p,
{
    if p > 0 {
        lemma_pipe_prefix(a, t, p - 1);
        assert((a + t)[p - 1] == a[p - 1]);
        if p >= 2 {
            assert((a + t)[p - 2] == a[p - 2]);
        }
        assert(pipe_line_at(a + t, p - 1) == pipe_line_at(a, p - 1));
    }
}

proof fn lemma_pipe_single(b: Seq<char>, j: int)
    requires
        one_line(b),
        0 <= j <= b.len(),
    ensures
        pipe_lines_before(b, j) == if j > 0 && b[0] == '|' {
            1nat
        } else {
            0nat
        },
    decreases j,
{
    if j > 0 {
        lemma_pipe_single(b, j - 1);
        if j >= 2 {
            assert(b[j - 2] != '\n');
        }
    }
}

proof fn lemma_pipe_after_break(a: Seq<char>, b: Seq<char>, j: int)
    requires
        one_line(b),
        0 <= j <= b.len(),
    ensures
        pipe_lines_before(a + seq!['\n'] + b, a.len() + 1 + j) == pipe_lines_before(a, a.len() as int)
            + if j > 0 && b[0] == '|' {
            1nat
        } else {
            0nat
        },
    decreases j,
{
    let s = a + seq!['\n'] + b;
    if j == 0 {
        assert(s =~= a + (seq!['\n'] + b));
        lemma_pipe_prefix(a, seq!['\n'] + b, a.len() as int);
        assert(s[a.len() as int] == '\n');
    } else {
        lemma_pipe_after_break(a, b, j - 1);
        assert(s[a.len() + j] == b[j - 1]);
        if j >= 2 {
            assert(s[a.len() + j - 1] == b[j - 2]);
            assert(b[j - 2] != '\n');
        } else {
            assert(s[a.len() as int] == '\n');
        }
    }
}

proof fn lemma_pipe_join(ls: Seq<Seq<char>>)
    requires
        ls.len() >= 1,
        forall|i: int| 0 <= i < ls.len() ==> one_line(#[trigger] ls[i]),
    ensures
        pipe_lines_before(join_seqs(ls, "\n"@), join_seqs(ls, "\n"@).len() as int) == pipe_count(ls),
    decreases ls.len(),
{
    reveal_strlit("\n");
    let last = ls.last();
    assert(one_line(ls[ls.len() - 1]));
    if ls.len() == 1 {
        lemma_pipe_single(last, last.len() as int);
        assert(ls.drop_last() =~= Seq::<Seq<char>>::empty());
        assert(pipe_count(ls.drop_last()) == 0);
        assert(join_seqs(ls, "\n"@) == last);
    } else {
        let front = ls.drop_last();
        assert forall|i: int| 0 <= i < front.len() implies one_line(#[trigger] front[i]) by {
            assert(front[i] == ls[i]);
        }
        lemma_pipe_join(front);
        let a = join_seqs(front, "\n"@);
        assert("\n"@ =~= seq!['\n']);
        assert(join_seqs(ls, "\n"@) == a + seq!['\n'] + last);
        assert((a + seq!['\n'] + last).len() == a.len() + 1 + last.len());
        lemma_pipe_after_break(a, last, last.len() as int);
    }
}

proof fn lemma_pipe_count_append(a: Seq<Seq<char>>, b: Seq<Seq<char>>)
    ensures
        pipe_count(a + b) == pipe_count(a) + pipe_count(b),
    decreases b.len(),
{
    if b.len() > 0 {
        lemma_pipe_count_append(a, b.drop_last());
        assert((a + b).drop_last() =~= a + b.drop_last());
    } else {
        assert(a + b =~= a);
    }
}

proof fn lemma_pipe_count_all(ls: Seq<Seq<char>>)
    requires
        forall|i: int| 0 <= i < ls.len() ==> starts_pipe(#[trigger] ls[i]),
    ensures
        pipe_count(ls) == ls.len(),
    decreases ls.len(),
{
    if ls.len() > 0 {
        lemma_pipe_count_all(ls.drop_last());
    }
}

proof fn lemma_join_one_line(ps: Seq<Seq<char>>, sep: Seq<char>)
    requires
        one_line(sep),
        forall|i: int| 0 <= i < ps.len() ==> one_line(#[trigger] ps[i]),
    ensures
        one_line(join_seqs(ps, sep)),
    decreases ps.len(),
{
    if ps.len() > 1 {
        lemma_join_one_line(ps.drop_last(), sep);
        let a = join_seqs(ps.drop_last(), sep);
        let s = a + sep + ps.last();
        assert forall|i: int| 0 <= i < s.len() implies #[trigger] s[i] != '\n' by {
            if i < a.len() {
                assert(s[i] == a[i]);
            } else if i < a.len() + sep.len() {
                assert(s[i] == sep[i - a.len()]);
            } else {
                assert(s[i] == ps.last()[i - a.len() - sep.len()]);
            }
        }
    } else if ps.len() == 1 {
        assert(one_line(ps[0]));
    }
}

proof fn lemma_concat_one_line(a: Seq<char>, b: Seq<char>)
    requires
        one_line(a),
        one_line(b),
    ensures
        one_line(a + b),
{
    assert forall|i: int| 0 <= i < (a + b).len() implies #[trigger] (a + b)[i] != '\n' by {
        if i < a.len() {
            assert((a + b)[i] == a[i]);
        } else {
            assert((a + b)[i] == b[i - a.len()]);
        }
    }
}

proof fn lemma_decimal_one_line(n: nat)
    ensures
        one_line(decimal(n)),
    decreases n,
{
    if n >= 10 {
        lemma_decimal_one_line(n / 10);
        assert(digit_char(n % 10) != '\n');
    } else {
        assert(digit_char(n) != '\n');
    }
}

proof fn lemma_prefix_below(s: Seq<char>, budget: int)
    ensures
        prefix_below(s, budget).len() <= s.len(),
        forall|k: int| 0 <= k < prefix_below(s, budget).len() ==> #[trigger] prefix_below(s, budget)[k]
            == s[k],
    decreases s.len(),
{
    if s.len() > 0 && budget > 0 {
        lemma_prefix_below(s.drop_first(), budget - crate::text::utf8_len(s[0]));
    }
}

proof fn lemma_markdown_cell_one_line(c: CellValue)
    requires
        one_line(cell_str(c)),
    ensures
        one_line(markdown_cell(c)),
{
    reveal_strlit("NULL");
    reveal_strlit("...");
    if let CellValue::Text(s) = c {
        lemma_prefix_below(s@, 200);
        lemma_concat_one_line(prefix_below(s@, 200), "..."@);
    }
}

/// The sampling progress counts the rows that the query returned: on the
/// Markdown reply of a result whose column names and cells hold no line
/// break, `table_row_count` is the number of rows (none for an empty
/// result).
pub proof fn law_progress_counts_the_rows(r: QueryResult, limit: usize)
    requires
        forall|j: int| 0 <= j < r.columns@.len() ==> one_line(#[trigger] r.columns@[j]@),
        forall|k: int, i: int|
            0 <= k < r.rows@.len() && 0 <= i < r.rows@[k]@.len() ==> one_line(
                cell_str(#[trigger] r.rows@[k]@[i]),
            ),
    ensures
        table_row_count(markdown_text(r, limit)) == r.rows@.len(),
{
    reveal_strlit("Query returned 0 rows.");
    reveal_strlit("| ");
    reveal_strlit(" | ");
    reveal_strlit(" |");
    reveal_strlit("|");
    reveal_strlit("---");
    reveal_strlit("... (showing ");
    reveal_strlit(" rows, result may be truncated)");
    reveal_strlit("(");
    reveal_strlit(" rows, ");
    reveal_strlit("ms)");
    let n = r.rows@.len();
    if n == 0 {
        let t = "Query returned 0 rows."@;
        lemma_pipe_single(t, t.len() as int);
        return;
    }
    let ls = markdown_lines(r, limit);
    let names = column_names(r.columns@);
    assert forall|i: int| 0 <= i < names.len() implies one_line(#[trigger] names[i]) by {
        assert(one_line(r.columns@[i]@));
    }
    lemma_join_one_line(names, " | "@);
    let header = "| "@ + join_seqs(names, " | "@) + " |"@;
    lemma_concat_one_line("| "@, join_seqs(names, " | "@));
    lemma_concat_one_line("| "@ + join_seqs(names, " | "@), " |"@);
    let dashes = Seq::new(r.columns@.len(), |j: int| "---"@);
    lemma_join_one_line(dashes, "|"@);
    let separator = "|"@ + join_seqs(dashes, "|"@) + "|"@;
    lemma_concat_one_line("|"@, join_seqs(dashes, "|"@));
    lemma_concat_one_line("|"@ + join_seqs(dashes, "|"@), "|"@);
    let body = Seq::new(n, |k: int| markdown_row(r.rows@[k]@));
    assert forall|k: int| 0 <= k < n implies one_line(#[trigger] body[k]) && starts_pipe(body[k]) by {
        let row = r.rows@[k]@;
        let cells = Seq::new(row.len(), |j: int| markdown_cell(row[j]));
        assert forall|j: int| 0 <= j < cells.len() implies one_line(#[trigger] cells[j]) by {
            lemma_markdown_cell_one_line(row[j]);
        }
        lemma_join_one_line(cells, " | "@);
        lemma_concat_one_line("| "@, join_seqs(cells, " | "@));
        lemma_concat_one_line("| "@ + join_seqs(cells, " | "@), " |"@);
    }
    lemma_decimal_one_line(n);
    lemma_decimal_one_line(r.execution_time_ms as nat);
    let stats = "("@ + decimal(n) + " rows, "@ + decimal(r.execution_time_ms as nat) + "ms)"@;
    lemma_concat_one_line("("@, decimal(n));
    lemma_concat_one_line("("@ + decimal(n), " rows, "@);
    lemma_concat_one_line("("@ + decimal(n) + " rows, "@, decimal(r.execution_time_ms as nat));
    lemma_concat_one_line("("@ + decimal(n) + " rows, "@ + decimal(r.execution_time_ms as nat), "ms)"@);
    let notice: Seq<Seq<char>> = if r.truncated || n >= limit {
        seq!["... (showing "@ + decimal(n) + " rows, result may be truncated)"@]
    } else {
        seq![]
    };
    if r.truncated || n >= limit {
        lemma_concat_one_line("... (showing "@, decimal(n));
        lemma_concat_one_line("... (showing "@ + decimal(n), " rows, result may be truncated)"@);
    }
    assert(ls == seq![header, separator] + body + notice + seq![stats]);
    assert forall|i: int| 0 <= i < ls.len() implies one_line(#[trigger] ls[i]) by {
        if i >= 2 + n && i < ls.len() - 1 {
            assert(ls[i] == notice[i - 2 - n]);
        } else if i >= 2 && i < 2 + n {
            assert(ls[i] == body[i - 2]);
        }
    }
    lemma_pipe_join(ls);
    lemma_pipe_count_all(seq![header, separator]);
    lemma_pipe_count_all(body);
    lemma_pipe_count_append(seq![header, separator], body);
    lemma_pipe_count_append(seq![header, separator] + body, notice);
    lemma_pipe_count_append(seq![header, separator] + body + notice, seq![stats]);
    assert(pipe_count(notice) == 0) by {
        if r.truncated || n >= limit {
            let line = "... (showing "@ + decimal(n) + " rows, result may be truncated)"@;
            assert(notice == seq![line]);
            assert(notice.drop_last() =~= Seq::<Seq<char>>::empty());
            assert(pipe_count(notice.drop_last()) == 0);
            assert(line[0] == '.');
        } else {
            assert(notice.len() == 0);
        }
    }
    assert(pipe_count(seq![stats]) == 0) by {
        assert(seq![stats].drop_last() =~= Seq::<Seq<char>>::empty());
        assert(pipe_count(seq![stats].drop_last()) == 0);
        assert(seq![stats].last() == stats);
        assert(stats[0] == '(');
    }
}

} // verus!
