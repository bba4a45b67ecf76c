//! The text that the agent tools hand back to the model: table and column
//! listings, query results as Markdown or padded tables, and the pieces of
//! the sampling and introspection requests.
use vstd::prelude::*;
use crate::text::{
    decimal, join_seqs, push_decimal_u64, lemma_join_push, push_chars, push_decimal, push_piece, push_repeat,
    push_str, spaces, str_byte_len, str_len, string_from_chars, trim_chars, trim_ws, utf8_len,
    chars_of, char_utf8_len,
};

verus! {

/// The number of tables that the table listing shows.
pub const LIST_TABLES_LIMIT: usize = 200;

/// A table or view of the connected database, as the catalog reports it.
#[derive(Clone, Debug)]
pub struct TableInfo {
    pub name: String,
    pub table_type: String,
    pub comment: Option<String>,
}

/// A column of a table, as the catalog reports it.
#[derive(Clone, Debug)]
pub struct ColumnInfo {
    pub name: String,
    pub data_type: String,
    pub is_primary_key: bool,
    pub is_nullable: bool,
    pub column_default: Option<String>,
    pub extra: Option<String>,
    pub comment: Option<String>,
}

/// A cell of a query result, as the formatters read it: SQL `NULL`, a
/// string, or any other JSON value by its compact JSON text.
#[derive(Clone, Debug)]
pub enum CellValue {
    Null,
    Text(String),
    Json(String),
}

/// The rows that a query returned.
#[derive(Clone, Debug)]
pub struct QueryResult {
    pub columns: Vec<String>,
    pub rows: Vec<Vec<CellValue>>,
    pub execution_time_ms: u64,
    pub truncated: bool,
}

// ---------------------------------------------------------------------------
// Table listing
// ---------------------------------------------------------------------------

/// ` -- <comment>` for a comment that is not blank (trimmed), else nothing.
pub open spec fn comment_suffix(comment: Option<String>) -> Seq<char> {
    match comment {
        Some(c) => if trim_ws(c@).len() > 0 {
            " -- "@ + trim_ws(c@)
        } else {
            seq![]
        },
        None => seq![],
    }
}

/// `- <name> (<type>)` and the comment suffix.
pub open spec fn table_line(t: TableInfo) -> Seq<char> {
    "- "@ + t.name@ + " ("@ + t.table_type@ + ")"@ + comment_suffix(t.comment)
}

/// The lines of the table listing: the first `LIST_TABLES_LIMIT` tables,
/// and a notice when there were more.
pub open spec fn table_list_lines(tables: Seq<TableInfo>) -> Seq<Seq<char>> {
    let shown = if tables.len() > LIST_TABLES_LIMIT {
        LIST_TABLES_LIMIT as nat
    } else {
        tables.len()
    };
    let lines = Seq::new(shown, |i: int| table_line(tables[i]));
    if tables.len() > LIST_TABLES_LIMIT {
        lines.push("... (showing 200 of "@ + decimal(tables.len()) + " tables)"@)
    } else {
        lines
    }
}

/// The table listing text.
pub open spec fn table_list_text(tables: Seq<TableInfo>) -> Seq<char> {
    if table_list_lines(tables).len() == 0 {
        "No tables found in this database/schema."@
    } else {
        join_seqs(table_list_lines(tables), "\n"@)
    }
}

/// Appends `comment_suffix(comment)` to `out`.
fn push_comment_suffix(out: &mut Vec<char>, comment: &Option<String>)
    ensures
        final(out)@ == old(out)@ + comment_suffix(*comment),
{
    match comment {
        Some(c) => {
            let cs = chars_of(c.as_str());
            let t = trim_chars(&cs);
            if t.len() > 0 {
                push_str(out, " -- ");
                push_chars(out, &t);
            } else {
                proof {
                    assert(out@ =~= out@ + comment_suffix(*comment));
                }
            }
        },
        None => {
            proof {
                assert(out@ =~= out@ + comment_suffix(*comment));
            }
        },
    }
}

/// The text of the table listing (see `table_list_text`).
pub fn format_table_list(tables: &[TableInfo]) -> (text: String)
    ensures
        text@ == table_list_text(tables@),
{
    let total = tables.len();
    let shown = if total > LIST_TABLES_LIMIT {
        LIST_TABLES_LIMIT
    } else {
        total
    };
    let ghost lines = table_list_lines(tables@);
    let mut out: Vec<char> = Vec::new();
    let ghost mut done: Seq<Seq<char>> = seq![];
    let mut i: usize = 0;
    while i < shown
        invariant
            shown <= total == tables@.len(),
            shown == if total > LIST_TABLES_LIMIT { LIST_TABLES_LIMIT } else { total },
            i <= shown,
            done == Seq::new(i as nat, |k: int| table_line(tables@[k])),
            out@ == join_seqs(done, "\n"@),
        decreases shown - i,
    {
        let t = &tables[i];
        let mut line: Vec<char> = Vec::new();
        push_str(&mut line, "- ");
        push_str(&mut line, t.name.as_str());
        push_str(&mut line, " (");
        push_str(&mut line, t.table_type.as_str());
        push_str(&mut line, ")");
        push_comment_suffix(&mut line, &t.comment);
        push_piece(&mut out, i == 0, "\n", &line, Ghost(done));
        proof {
            assert(line@ == table_line(tables@[i as int]));
            assert(done.push(line@) =~= Seq::new((i + 1) as nat, |k: int| table_line(tables@[k])));
            done = done.push(line@);
        }
        i = i + 1;
    }
    if total > LIST_TABLES_LIMIT {
        let mut notice: Vec<char> = Vec::new();
        push_str(&mut notice, "... (showing 200 of ");
        push_decimal(&mut notice, total);
        push_str(&mut notice, " tables)");
        push_piece(&mut out, false, "\n", &notice, Ghost(done));
        proof {
            done = done.push(notice@);
        }
    }
    proof {
        assert(done =~= lines);
    }
    if total == 0 {
        let t = chars_of("No tables found in this database/schema.");
        return string_from_chars(&t);
    }
    string_from_chars(&out)
}

// ---------------------------------------------------------------------------
// Column listing
// ---------------------------------------------------------------------------

/// The flags shown for a column: `PK`, nullability, a non-empty default,
/// and a non-empty extra.
pub open spec fn column_flags(c: ColumnInfo) -> Seq<Seq<char>> {
    let pk: Seq<Seq<char>> = if c.is_primary_key {
        seq!["PK"@]
    } else {
        seq![]
    };
    let null: Seq<Seq<char>> = if c.is_nullable {
        seq!["nullable"@]
    } else {
        seq!["NOT NULL"@]
    };
    let default: Seq<Seq<char>> = match c.column_default {
        Some(d) => if d@.len() > 0 {
            seq!["default "@ + d@]
        } else {
            seq![]
        },
        None => seq![],
    };
    let extra: Seq<Seq<char>> = match c.extra {
        Some(e) => if e@.len() > 0 {
            seq![e@]
        } else {
            seq![]
        },
        None => seq![],
    };
    pk + null + default + extra
}

/// `  - <name>: <type> (<flags>)` and the comment suffix.
pub open spec fn column_line(c: ColumnInfo) -> Seq<char> {
    let flags = column_flags(c);
    let flags_text = if flags.len() == 0 {
        seq![]
    } else {
        " ("@ + join_seqs(flags, ", "@) + ")"@
    };
    "  - "@ + c.name@ + ": "@ + c.data_type@ + flags_text + comment_suffix(c.comment)
}

/// The column listing text for `table`.
pub open spec fn column_list_text(table: Seq<char>, columns: Seq<ColumnInfo>) -> Seq<char> {
    if columns.len() == 0 {
        "No columns found for table '"@ + table + "'."@
    } else {
        join_seqs(
            seq!["Columns of "@ + table + ":"@] + Seq::new(
                columns.len(),
                |i: int| column_line(columns[i]),
            ),
            "\n"@,
        )
    }
}

/// Appends `column_line(c)` to `out`.
fn push_column_line(out: &mut Vec<char>, c: &ColumnInfo)
    ensures
        final(out)@ == old(out)@ + column_line(*c),
{
    let ghost start = out@;
    push_str(out, "  - ");
    push_str(out, c.name.as_str());
    push_str(out, ": ");
    push_str(out, c.data_type.as_str());
    let ghost head = out@;
    let mut flags: Vec<char> = Vec::new();
    let ghost mut done: Seq<Seq<char>> = seq![];
    let mut first = true;
    if c.is_primary_key {
        let pk = chars_of("PK");
        push_piece(&mut flags, first, ", ", &pk, Ghost(done));
        proof {
            done = done.push(pk@);
        }
        first = false;
    }
    let null = if c.is_nullable {
        chars_of("nullable")
    } else {
        chars_of("NOT NULL")
    };
    push_piece(&mut flags, first, ", ", &null, Ghost(done));
    proof {
        done = done.push(null@);
    }
    if let Some(d) = &c.column_default {
        if !d.as_str().is_empty() {
            let mut piece: Vec<char> = Vec::new();
            push_str(&mut piece, "default ");
            push_str(&mut piece, d.as_str());
            push_piece(&mut flags, false, ", ", &piece, Ghost(done));
            proof {
                done = done.push(piece@);
            }
        }
    }
    if let Some(e) = &c.extra {
        if !e.as_str().is_empty() {
            let piece = chars_of(e.as_str());
            push_piece(&mut flags, false, ", ", &piece, Ghost(done));
            proof {
                done = done.push(piece@);
            }
        }
    }
    proof {
        assert(done =~= column_flags(*c));
    }
    push_str(out, " (");
    push_chars(out, &flags);
    push_str(out, ")");
    push_comment_suffix(out, &c.comment);
}

/// The text of the column listing of `table` (see `column_list_text`).
pub fn format_column_list(table: &str, columns: &[ColumnInfo]) -> (text: String)
    ensures
        text@ == column_list_text(table@, columns@),
{
    let n = columns.len();
    let mut out: Vec<char> = Vec::new();
    if n == 0 {
        push_str(&mut out, "No columns found for table '");
        push_str(&mut out, table);
        push_str(&mut out, "'.");
        return string_from_chars(&out);
    }
    let mut head: Vec<char> = Vec::new();
    push_str(&mut head, "Columns of ");
    push_str(&mut head, table);
    push_str(&mut head, ":");
    let ghost mut done: Seq<Seq<char>> = seq![];
    push_piece(&mut out, true, "\n", &head, Ghost(done));
    proof {
        done = done.push(head@);
    }
    let mut i: usize = 0;
    while i < n
        invariant
            n == columns@.len(),
            i <= n,
            done == seq!["Columns of "@ + table@ + ":"@] + Seq::new(
                i as nat,
                |k: int| column_line(columns@[k]),
            ),
            out@ == join_seqs(done, "\n"@),
        decreases n - i,
    {
        let mut line: Vec<char> = Vec::new();
        push_column_line(&mut line, &columns[i]);
        push_piece(&mut out, false, "\n", &line, Ghost(done));
        proof {
            assert(done.push(line@) =~= seq!["Columns of "@ + table@ + ":"@] + Seq::new(
                (i + 1) as nat,
                |k: int| column_line(columns@[k]),
            ));
            done = done.push(line@);
        }
        i = i + 1;
    }
    string_from_chars(&out)
}


// ---------------------------------------------------------------------------
// Query results as Markdown
// ---------------------------------------------------------------------------

/// The characters of `s` that start before byte `budget` of its UTF-8 form.
pub open spec fn prefix_below(s: Seq<char>, budget: int) -> Seq<char>
    decreases s.len(),
{
    if s.len() == 0 || budget <= 0 {
        seq![]
    } else {
        seq![s[0]] + prefix_below(s.drop_first(), budget - utf8_len(s[0]))
    }
}

/// A cell in the Markdown table: `NULL`; a string, cut after its first 200
/// bytes' characters and marked `...` when it is longer than 200 bytes; any
/// other value by its JSON text.
pub open spec fn markdown_cell(c: CellValue) -> Seq<char> {
    match c {
        CellValue::Null => "NULL"@,
        CellValue::Text(s) => if str_len(s@) > 200 {
            prefix_below(s@, 200) + "..."@
        } else {
            s@
        },
        CellValue::Json(t) => t@,
    }
}

/// `| a | b |` for a row of cells.
pub open spec fn markdown_row(row: Seq<CellValue>) -> Seq<char> {
    "| "@ + join_seqs(Seq::new(row.len(), |j: int| markdown_cell(row[j])), " | "@) + " |"@
}

/// The header names as character sequences.
pub open spec fn column_names(columns: Seq<String>) -> Seq<Seq<char>> {
    Seq::new(columns.len(), |i: int| columns[i]@)
}

/// The lines of the Markdown rendering of a non-empty result.
pub open spec fn markdown_lines(r: QueryResult, limit: usize) -> Seq<Seq<char>> {
    let n = r.rows@.len();
    let header = "| "@ + join_seqs(column_names(r.columns@), " | "@) + " |"@;
    let separator = "|"@ + join_seqs(Seq::new(r.columns@.len(), |j: int| "---"@), "|"@) + "|"@;
    let body = Seq::new(n, |k: int| markdown_row(r.rows@[k]@));
    let notice: Seq<Seq<char>> = if r.truncated || n >= limit {
        seq!["... (showing "@ + decimal(n) + " rows, result may be truncated)"@]
    } else {
        seq![]
    };
    let stats = "("@ + decimal(n) + " rows, "@ + decimal(r.execution_time_ms as nat) + "ms)"@;
    seq![header, separator] + body + notice + seq![stats]
}

/// The Markdown rendering of a query result for the model.
pub open spec fn markdown_text(r: QueryResult, limit: usize) -> Seq<char> {
    if r.rows@.len() == 0 {
        "Query returned 0 rows."@
    } else {
        join_seqs(markdown_lines(r, limit), "\n"@)
    }
}

/// Exec form of `prefix_below(s, 200)`.
fn head_below_200_bytes(s: &[char]) -> (r: Vec<char>)
    ensures
        r@ == prefix_below(s@, 200),
{
    let len = s.len();
    let mut r: Vec<char> = Vec::new();
    let mut used: usize = 0;
    let mut i: usize = 0;
    proof {
        assert(s@.skip(0) =~= s@);
        assert(r@ + prefix_below(s@, 200) =~= prefix_below(s@, 200));
    }
    while i < len && used < 200
        invariant
            len == s@.len(),
            i <= len,
            used < 200 || i == len || used >= 200,
            used <= 204,
            prefix_below(s@, 200) == r@ + prefix_below(s@.skip(i as int), 200 - used),
        decreases len - i,
    {
        let c = s[i];
        proof {
            assert(s@.skip(i as int).drop_first() =~= s@.skip(i + 1));
            assert(s@.skip(i as int)[0] == c);
        }
        r.push(c);
        used = used + char_utf8_len(c);
        i = i + 1;
    }
    proof {
        assert(s@.skip(len as int) =~= Seq::<char>::empty());
    }
    r
}

/// Appends `markdown_cell(c)` to `out`.
fn push_markdown_cell(out: &mut Vec<char>, c: &CellValue)
    ensures
        final(out)@ == old(out)@ + markdown_cell(*c),
{
    match c {
        CellValue::Null => push_str(out, "NULL"),
        CellValue::Text(s) => {
            if str_byte_len(s.as_str()) > 200 {
                let cs = chars_of(s.as_str());
                let head = head_below_200_bytes(&cs);
                push_chars(out, &head);
                push_str(out, "...");
            } else {
                push_str(out, s.as_str());
            }
        },
        CellValue::Json(t) => push_str(out, t.as_str()),
    }
}

/// Joins `pieces` of `columns`-or-cells with `sep`, one exec piece at a time.
fn push_joined_names(out: &mut Vec<char>, names: &[String], sep: &str)
    ensures
        final(out)@ == old(out)@ + join_seqs(column_names(names@), sep@),
{
    let ghost start = out@;
    let mut joined: Vec<char> = Vec::new();
    let ghost mut done: Seq<Seq<char>> = seq![];
    let mut i: usize = 0;
    while i < names.len()
        invariant
            i <= names@.len(),
            done == column_names(names@.take(i as int)),
            joined@ == join_seqs(done, sep@),
        decreases names@.len() - i,
    {
        let piece = chars_of(names[i].as_str());
        push_piece(&mut joined, i == 0, sep, &piece, Ghost(done));
        proof {
            assert(done.push(piece@) =~= column_names(names@.take(i + 1)));
            done = done.push(piece@);
        }
        i = i + 1;
    }
    proof {
        assert(names@.take(i as int) =~= names@);
    }
    push_chars(out, &joined);
}

/// Appends `markdown_row(row)` to `out`.
fn push_markdown_row(out: &mut Vec<char>, row: &[CellValue])
    ensures
        final(out)@ == old(out)@ + markdown_row(row@),
{
    let mut joined: Vec<char> = Vec::new();
    let ghost mut done: Seq<Seq<char>> = seq![];
    let mut j: usize = 0;
    while j < row.len()
        invariant
            j <= row@.len(),
            done == Seq::new(j as nat, |k: int| markdown_cell(row@[k])),
            joined@ == join_seqs(done, " | "@),
        decreases row@.len() - j,
    {
        let mut piece: Vec<char> = Vec::new();
        push_markdown_cell(&mut piece, &row[j]);
        push_piece(&mut joined, j == 0, " | ", &piece, Ghost(done));
        proof {
            assert(done.push(piece@) =~= Seq::new((j + 1) as nat, |k: int| markdown_cell(row@[k])));
            done = done.push(piece@);
        }
        j = j + 1;
    }
    push_str(out, "| ");
    push_chars(out, &joined);
    push_str(out, " |");
}

/// Renders a query result as a Markdown table for the model, with a notice
/// when it may be truncated and a line of statistics. Never fails.
pub fn format_query_result_as_text(result: &QueryResult, limit: usize) -> (r: Result<String, String>)
    ensures
        r matches Ok(text) && text@ == markdown_text(*result, limit),
{
    let n = result.rows.len();
    if n == 0 {
        let t = chars_of("Query returned 0 rows.");
        return Ok(string_from_chars(&t));
    }
    let ghost lines = markdown_lines(*result, limit);
    let mut out: Vec<char> = Vec::new();
    let ghost mut done: Seq<Seq<char>> = seq![];
    let mut header: Vec<char> = Vec::new();
    push_str(&mut header, "| ");
    push_joined_names(&mut header, &result.columns, " | ");
    push_str(&mut header, " |");
    push_piece(&mut out, true, "\n", &header, Ghost(done));
    proof {
        done = done.push(header@);
    }
    let mut sep_joined: Vec<char> = Vec::new();
    let ghost mut sep_done: Seq<Seq<char>> = seq![];
    let ncols = result.columns.len();
    let mut j: usize = 0;
    while j < ncols
        invariant
            ncols == result.columns@.len(),
            j <= ncols,
            sep_done == Seq::new(j as nat, |k: int| "---"@),
            sep_joined@ == join_seqs(sep_done, "|"@),
        decreases ncols - j,
    {
        let dash = chars_of("---");
        push_piece(&mut sep_joined, j == 0, "|", &dash, Ghost(sep_done));
        proof {
            assert(sep_done.push(dash@) =~= Seq::new((j + 1) as nat, |k: int| "---"@));
            sep_done = sep_done.push(dash@);
        }
        j = j + 1;
    }
    let mut separator: Vec<char> = Vec::new();
    push_str(&mut separator, "|");
    push_chars(&mut separator, &sep_joined);
    push_str(&mut separator, "|");
    push_piece(&mut out, false, "\n", &separator, Ghost(done));
    proof {
        done = done.push(separator@);
    }
    let mut k: usize = 0;
    while k < n
        invariant
            n == result.rows@.len(),
            k <= n,
            done.len() >= 2,
            lines == markdown_lines(*result, limit),
            done == lines.take(2 + k as int),
            out@ == join_seqs(done, "\n"@),
        decreases n - k,
    {
        let mut line: Vec<char> = Vec::new();
        push_markdown_row(&mut line, result.rows[k].as_slice());
        push_piece(&mut out, false, "\n", &line, Ghost(done));
        proof {
            assert(done.push(line@) =~= lines.take(2 + k + 1));
            done = done.push(line@);
        }
        k = k + 1;
    }
    if result.truncated || n >= limit {
        let mut notice: Vec<char> = Vec::new();
        push_str(&mut notice, "... (showing ");
        push_decimal(&mut notice, n);
        push_str(&mut notice, " rows, result may be truncated)");
        push_piece(&mut out, false, "\n", &notice, Ghost(done));
        proof {
            done = done.push(notice@);
        }
    }
    proof {
        let notice: Seq<Seq<char>> = if result.truncated || n >= limit {
            seq!["... (showing "@ + decimal(n as nat) + " rows, result may be truncated)"@]
        } else {
            seq![]
        };
        assert(lines.take(2 + n as int) + notice == lines.drop_last());
        assert(done == lines.take(2 + n as int) + notice);
    }
    let mut stats: Vec<char> = Vec::new();
    push_str(&mut stats, "(");
    push_decimal(&mut stats, n);
    push_str(&mut stats, " rows, ");
    push_decimal_u64(&mut stats, result.execution_time_ms);
    push_str(&mut stats, "ms)");
    push_piece(&mut out, false, "\n", &stats, Ghost(done));
    proof {
        done = done.push(stats@);
        assert(done =~= lines);
    }
    Ok(string_from_chars(&out))
}


// ---------------------------------------------------------------------------
// Query results as padded tables
// ---------------------------------------------------------------------------

/// A cell as the padded table shows it: `NULL`, the string, or the JSON text.
pub open spec fn cell_str(c: CellValue) -> Seq<char> {
    match c {
        CellValue::Null => "NULL"@,
        CellValue::Text(s) => s@,
        CellValue::Json(t) => t@,
    }
}

/// The larger of two counts.
pub open spec fn max_usize(a: usize, b: usize) -> usize {
    if a >= b {
        a
    } else {
        b
    }
}

/// The widest byte length of column `i` among the first `r` rows.
pub open spec fn cell_max(rows: Seq<Vec<CellValue>>, i: int, r: int) -> usize
    decreases r,
{
    if r <= 0 {
        0
    } else {
        max_usize(cell_max(rows, i, r - 1), str_len(cell_str(rows[r - 1]@[i])))
    }
}

/// The width that column `i` needs on its own: its name and its cells,
/// in bytes.
pub open spec fn index_width(columns: Seq<String>, rows: Seq<Vec<CellValue>>, i: int) -> usize {
    max_usize(str_len(columns[i]@), cell_max(rows, i, rows.len() as int))
}

/// The widest `index_width` among the first `k` columns that bear the
/// same name as column `i`.
pub open spec fn shared_width(columns: Seq<String>, rows: Seq<Vec<CellValue>>, i: int, k: int) -> usize
    decreases k,
{
    if k <= 0 {
        0
    } else {
        max_usize(
            shared_width(columns, rows, i, k - 1),
            if columns[k - 1]@ == columns[i]@ {
                index_width(columns, rows, k - 1)
            } else {
                0
            },
        )
    }
}

/// The display width of column `i`: columns that share a name share a
/// width, the widest that any of them needs.
pub open spec fn col_width(columns: Seq<String>, rows: Seq<Vec<CellValue>>, i: int) -> usize {
    shared_width(columns, rows, i, columns.len() as int)
}

/// `s` padded on the right with spaces to `w` characters (`{:w$}`).
pub open spec fn padded(s: Seq<char>, w: usize) -> Seq<char> {
    if s.len() < w {
        s + spaces((w - s.len()) as nat)
    } else {
        s
    }
}

/// The lines of the padded table of a non-empty result.
pub open spec fn table_lines(r: QueryResult, title: Seq<char>) -> Seq<Seq<char>> {
    let cols = r.columns@;
    let rows = r.rows@;
    let header = "  "@ + join_seqs(
        Seq::new(cols.len(), |i: int| padded(cols[i]@, col_width(cols, rows, i))),
        " | "@,
    );
    let separator = "  "@ + join_seqs(
        Seq::new(cols.len(), |i: int| Seq::new(col_width(cols, rows, i) as nat, |k: int| '-')),
        " | "@,
    );
    let body = Seq::new(
        rows.len(),
        |k: int|
            "  "@ + join_seqs(
                Seq::new(
                    rows[k]@.len(),
                    |i: int| padded(cell_str(rows[k]@[i]), col_width(cols, rows, i)),
                ),
                " | "@,
            ),
    );
    seq![title, header, separator] + body
}

/// The padded table: the empty message when there are no rows, else the
/// title, the header, a rule of dashes, and one line per row.
pub open spec fn table_text(r: QueryResult, title: Seq<char>, empty_msg: Seq<char>) -> Seq<char> {
    if r.rows@.len() == 0 {
        empty_msg
    } else {
        join_seqs(table_lines(r, title), "\n"@)
    }
}

/// Every row has one cell per column.
pub open spec fn rows_match_columns(r: QueryResult) -> bool {
    forall|k: int| 0 <= k < r.rows@.len() ==> #[trigger] r.rows@[k]@.len() == r.columns@.len()
}

/// Whether every row of `result` has one cell per column, the shape that
/// the padded tables need (see `rows_match_columns`).
pub fn rows_fit_columns(result: &QueryResult) -> (r: bool)
    ensures
        r == rows_match_columns(*result),
{
    let n = result.columns.len();
    let mut k: usize = 0;
    while k < result.rows.len()
        invariant
            k <= result.rows@.len(),
            n == result.columns@.len(),
            forall|j: int| 0 <= j < k ==> #[trigger] result.rows@[j]@.len() == n,
        decreases result.rows@.len() - k,
    {
        if result.rows[k].len() != n {
            return false;
        }
        k = k + 1;
    }
    true
}

/// Exec form of `cell_str`.
fn cell_text(c: &CellValue) -> (r: &str)
    ensures
        r@ == cell_str(*c),
{
    match c {
        CellValue::Null => "NULL",
        CellValue::Text(s) => s.as_str(),
        CellValue::Json(t) => t.as_str(),
    }
}

/// Appends `padded(s, w)` to `out`.
fn push_padded(out: &mut Vec<char>, s: &str, w: usize)
    ensures
        final(out)@ == old(out)@ + padded(s@, w),
{
    let cs = chars_of(s);
    push_chars(out, &cs);
    if cs.len() < w {
        push_repeat(out, ' ', w - cs.len());
    }
}

/// The display widths of all columns (`col_width`).
fn column_widths(result: &QueryResult) -> (widths: Vec<usize>)
    requires
        rows_match_columns(*result),
    ensures
        widths@.len() == result.columns@.len(),
        forall|i: int|
            0 <= i < widths@.len() ==> #[trigger] widths@[i] == col_width(
                result.columns@,
                result.rows@,
                i,
            ),
{
    let cols = &result.columns;
    let rows = &result.rows;
    let ncols = cols.len();
    let nrows = rows.len();
    let mut own: Vec<usize> = Vec::new();
    let mut i: usize = 0;
    while i < ncols
        invariant
            ncols == cols@.len(),
            nrows == rows@.len(),
            rows_match_columns(*result),
            cols == &result.columns,
            rows == &result.rows,
            i <= ncols,
            own@.len() == i,
            forall|j: int| 0 <= j < i ==> #[trigger] own@[j] == index_width(cols@, rows@, j),
        decreases ncols - i,
    {
        let mut w = str_byte_len(cols[i].as_str());
        let mut r: usize = 0;
        while r < nrows
            invariant
                ncols == cols@.len(),
                nrows == rows@.len(),
                rows_match_columns(*result),
                cols == &result.columns,
                rows == &result.rows,
                i < ncols,
                r <= nrows,
                w == max_usize(str_len(cols@[i as int]@), cell_max(rows@, i as int, r as int)),
            decreases nrows - r,
        {
            assert(rows@[r as int]@.len() == cols@.len());
            let v = str_byte_len(cell_text(&rows[r][i]));
            if v > w {
                w = v;
            }
            r = r + 1;
        }
        own.push(w);
        i = i + 1;
    }
    let mut widths: Vec<usize> = Vec::new();
    let mut i: usize = 0;
    while i < ncols
        invariant
            ncols == cols@.len(),
            cols == &result.columns,
            rows == &result.rows,
            own@.len() == ncols,
            forall|j: int| 0 <= j < ncols ==> #[trigger] own@[j] == index_width(cols@, rows@, j),
            i <= ncols,
            widths@.len() == i,
            forall|j: int| 0 <= j < i ==> #[trigger] widths@[j] == col_width(cols@, rows@, j),
        decreases ncols - i,
    {
        let mut w: usize = 0;
        let mut k: usize = 0;
        while k < ncols
            invariant
                ncols == cols@.len(),
                own@.len() == ncols,
                forall|j: int| 0 <= j < ncols ==> #[trigger] own@[j] == index_width(cols@, rows@, j),
                i < ncols,
                k <= ncols,
                w == shared_width(cols@, rows@, i as int, k as int),
            decreases ncols - k,
        {
            if cols[k] == cols[i] && own[k] > w {
                w = own[k];
            }
            k = k + 1;
        }
        widths.push(w);
        i = i + 1;
    }
    widths
}

/// Renders a query result as a padded text table under `title`, or
/// `empty_msg` when it has no rows. Widths are counted in bytes and
/// padding in characters, as `{:width$}` does.
pub fn format_query_result_table(result: &QueryResult, title: &str, empty_msg: &str) -> (text: String)
    requires
        rows_match_columns(*result),
    ensures
        text@ == table_text(*result, title@, empty_msg@),
{
    let nrows = result.rows.len();
    if nrows == 0 {
        let t = chars_of(empty_msg);
        return string_from_chars(&t);
    }
    let widths = column_widths(result);
    let cols = &result.columns;
    let ncols = cols.len();
    let ghost lines = table_lines(*result, title@);
    let mut out: Vec<char> = Vec::new();
    let ghost mut done: Seq<Seq<char>> = seq![];
    let t = chars_of(title);
    push_piece(&mut out, true, "\n", &t, Ghost(done));
    proof {
        done = done.push(t@);
    }
    let mut header: Vec<char> = Vec::new();
    let ghost mut hdone: Seq<Seq<char>> = seq![];
    let mut separator: Vec<char> = Vec::new();
    let ghost mut sdone: Seq<Seq<char>> = seq![];
    let mut i: usize = 0;
    while i < ncols
        invariant
            ncols == cols@.len(),
            cols == &result.columns,
            widths@.len() == ncols,
            forall|j: int|
                0 <= j < ncols ==> #[trigger] widths@[j] == col_width(cols@, result.rows@, j),
            i <= ncols,
            hdone == Seq::new(
                i as nat,
                |j: int| padded(cols@[j]@, col_width(cols@, result.rows@, j)),
            ),
            header@ == join_seqs(hdone, " | "@),
            sdone == Seq::new(
                i as nat,
                |j: int| Seq::new(col_width(cols@, result.rows@, j) as nat, |k: int| '-'),
            ),
            separator@ == join_seqs(sdone, " | "@),
        decreases ncols - i,
    {
        let mut hp: Vec<char> = Vec::new();
        push_padded(&mut hp, cols[i].as_str(), widths[i]);
        push_piece(&mut header, i == 0, " | ", &hp, Ghost(hdone));
        let mut sp: Vec<char> = Vec::new();
        push_repeat(&mut sp, '-', widths[i]);
        push_piece(&mut separator, i == 0, " | ", &sp, Ghost(sdone));
        proof {
            assert(sp@ =~= Seq::new(col_width(cols@, result.rows@, i as int) as nat, |k: int| '-'));
            assert(hdone.push(hp@) =~= Seq::new(
                (i + 1) as nat,
                |j: int| padded(cols@[j]@, col_width(cols@, result.rows@, j)),
            ));
            assert(sdone.push(sp@) =~= Seq::new(
                (i + 1) as nat,
                |j: int| Seq::new(col_width(cols@, result.rows@, j) as nat, |k: int| '-'),
            ));
            hdone = hdone.push(hp@);
            sdone = sdone.push(sp@);
        }
        i = i + 1;
    }
    let mut hline: Vec<char> = Vec::new();
    push_str(&mut hline, "  ");
    push_chars(&mut hline, &header);
    push_piece(&mut out, false, "\n", &hline, Ghost(done));
    proof {
        done = done.push(hline@);
    }
    let mut sline: Vec<char> = Vec::new();
    push_str(&mut sline, "  ");
    push_chars(&mut sline, &separator);
    push_piece(&mut out, false, "\n", &sline, Ghost(done));
    proof {
        done = done.push(sline@);
        assert(done =~= lines.take(3));
    }
    let mut k: usize = 0;
    while k < nrows
        invariant
            nrows == result.rows@.len(),
            ncols == cols@.len(),
            cols == &result.columns,
            rows_match_columns(*result),
            widths@.len() == ncols,
            forall|j: int|
                0 <= j < ncols ==> #[trigger] widths@[j] == col_width(cols@, result.rows@, j),
            k <= nrows,
            lines == table_lines(*result, title@),
            done == lines.take(3 + k as int),
            out@ == join_seqs(done, "\n"@),
        decreases nrows - k,
    {
        let row = &result.rows[k];
        assert(row@.len() == ncols);
        let mut cells: Vec<char> = Vec::new();
        let ghost mut cdone: Seq<Seq<char>> = seq![];
        let mut i: usize = 0;
        while i < row.len()
            invariant
                row@.len() == ncols,
                row == &result.rows@[k as int],
                widths@.len() == ncols,
                forall|j: int|
                    0 <= j < ncols ==> #[trigger] widths@[j] == col_width(cols@, result.rows@, j),
                i <= row@.len(),
                cdone == Seq::new(
                    i as nat,
                    |j: int| padded(cell_str(row@[j]), col_width(cols@, result.rows@, j)),
                ),
                cells@ == join_seqs(cdone, " | "@),
            decreases row@.len() - i,
        {
            let mut cp: Vec<char> = Vec::new();
            push_padded(&mut cp, cell_text(&row[i]), widths[i]);
            push_piece(&mut cells, i == 0, " | ", &cp, Ghost(cdone));
            proof {
                assert(cdone.push(cp@) =~= Seq::new(
                    (i + 1) as nat,
                    |j: int| padded(cell_str(row@[j]), col_width(cols@, result.rows@, j)),
                ));
                cdone = cdone.push(cp@);
            }
            i = i + 1;
        }
        let mut line: Vec<char> = Vec::new();
        push_str(&mut line, "  ");
        push_chars(&mut line, &cells);
        push_piece(&mut out, false, "\n", &line, Ghost(done));
        proof {
            assert(done.push(line@) =~= lines.take(3 + k + 1));
            done = done.push(line@);
        }
        k = k + 1;
    }
    proof {
        assert(done =~= lines);
    }
    string_from_chars(&out)
}

/// The foreign-key listing of `table` (`format_query_result_table` with
/// its title and empty message).
pub fn format_fk_result(result: &QueryResult, table: &str) -> (text: String)
    requires
        rows_match_columns(*result),
    ensures
        text@ == table_text(
            *result,
            "Foreign keys for \""@ + table@ + "\":"@,
            "No foreign keys found for \""@ + table@ + "\"."@,
        ),
{
    let mut title: Vec<char> = Vec::new();
    push_str(&mut title, "Foreign keys for \"");
    push_str(&mut title, table);
    push_str(&mut title, "\":");
    let mut empty: Vec<char> = Vec::new();
    push_str(&mut empty, "No foreign keys found for \"");
    push_str(&mut empty, table);
    push_str(&mut empty, "\".");
    let title = string_from_chars(&title);
    let empty = string_from_chars(&empty);
    format_query_result_table(result, title.as_str(), empty.as_str())
}

/// The index listing of `table` (`format_query_result_table` with its
/// title and empty message).
pub fn format_index_result(result: &QueryResult, table: &str) -> (text: String)
    requires
        rows_match_columns(*result),
    ensures
        text@ == table_text(
            *result,
            "Indexes for \""@ + table@ + "\":"@,
            "No indexes found for \""@ + table@ + "\"."@,
        ),
{
    let mut title: Vec<char> = Vec::new();
    push_str(&mut title, "Indexes for \"");
    push_str(&mut title, table);
    push_str(&mut title, "\":");
    let mut empty: Vec<char> = Vec::new();
    push_str(&mut empty, "No indexes found for \"");
    push_str(&mut empty, table);
    push_str(&mut empty, "\".");
    let title = string_from_chars(&title);
    let empty = string_from_chars(&empty);
    format_query_result_table(result, title.as_str(), empty.as_str())
}

/// A cell as shown in listings (`row_value_as_str`).
pub fn row_value_as_str(value: &CellValue) -> (s: String)
    ensures
        s@ == cell_str(*value),
{
    String::from_str(cell_text(value))
}

} // verus!
