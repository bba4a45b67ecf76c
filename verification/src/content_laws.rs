//! Laws on what the outputs hold, stated with the inputs directly: the
//! catalog queries name the schema and table they were asked for, a column
//! listing shows every default, Markdown rows keep the result's order, every
//! credential word is redacted, and each optional tool follows its own
//! support flag.
use vstd::prelude::*;
use crate::agent_tools::{check_sql, check_table_name, offered_tools, ToolSupport};
use crate::agent_events::BuiltinTool;
use crate::assignment_laws::law_sensitive_assignment_is_redacted;
use crate::introspection_sql::{fk_sql, index_sql, unicode_upper, DatabaseType};
use crate::sql_diagnostics::{
    key_end, key_start, redacted_assignments, sensitive_key, trim_key, truncated,
};
use crate::tool_execution::{sample_sql, warning_prefix};
use crate::text::{
    ascii_lower_seq, decimal, is_white_space, join_seqs, seq_contains, str_len, trim_ws,
};
use crate::tool_output::{
    column_list_text, markdown_cell, markdown_lines, markdown_text, prefix_below, table_list_lines,
    table_list_text, CellValue, ColumnInfo, QueryResult, TableInfo,
};

verus! {

// ---------------------------------------------------------------------------
// Occurrences
// ---------------------------------------------------------------------------

/// An occurrence of `w` in `x` is one in any text around `x`.
proof fn lemma_contains_in(p: Seq<char>, x: Seq<char>, t: Seq<char>, w: Seq<char>)
    requires
        seq_contains(x, w),
    ensures
        seq_contains(p + x + t, w),
{
    let (i, j) = choose|i: int, j: int|
        0 <= i && j == i + w.len() && j <= x.len() && #[trigger] x.subrange(i, j) == w;
    let y = p + x + t;
    assert(y.subrange(i + p.len(), j + p.len()) =~= x.subrange(i, j));
}

/// Every text contains itself.
proof fn lemma_contains_self(x: Seq<char>)
    ensures
        seq_contains(x, x),
{
    assert(x.subrange(0, x.len() as int) =~= x);
}

/// When `l` ends with `tail`, `l + m` contains `tail + m`.
proof fn lemma_tail_then(l: Seq<char>, tail: Seq<char>, m: Seq<char>)
    requires
        tail.len() <= l.len(),
        l.subrange(l.len() - tail.len(), l.len() as int) == tail,
    ensures
        seq_contains(l + m, tail + m),
{
    let y = l + m;
    let i = l.len() - tail.len();
    assert(y.subrange(i, i + (tail + m).len()) =~= tail + m);
}

/// A piece of a joined text is contained in it, with all it contains.
proof fn lemma_join_contains(ws: Seq<Seq<char>>, sep: Seq<char>, i: int, w: Seq<char>)
    requires
        0 <= i < ws.len(),
        seq_contains(ws[i], w),
    ensures
        seq_contains(join_seqs(ws, sep), w),
    decreases ws.len(),
{
    if ws.len() == 1 {
    } else if i == ws.len() - 1 {
        lemma_contains_in(join_seqs(ws.drop_last(), sep) + sep, ws.last(), seq![], w);
        assert(join_seqs(ws.drop_last(), sep) + sep + ws.last() + Seq::<char>::empty()
            =~= join_seqs(ws, sep));
    } else {
        assert(ws.drop_last()[i] == ws[i]);
        lemma_join_contains(ws.drop_last(), sep, i, w);
        lemma_contains_in(seq![], join_seqs(ws.drop_last(), sep), sep + ws.last(), w);
        assert(Seq::<char>::empty() + join_seqs(ws.drop_last(), sep) + (sep + ws.last())
            =~= join_seqs(ws, sep));
    }
}

// ---------------------------------------------------------------------------
// Catalog queries
// ---------------------------------------------------------------------------

/// The PostgreSQL-family engines.
pub open spec fn speaks_postgres(db: DatabaseType) -> bool {
    ||| db is Postgres
    ||| db is Redshift
    ||| db is OpenGauss
    ||| db is Gaussdb
    ||| db is Vastbase
    ||| db is Kingbase
}

/// On the PostgreSQL family, both catalog queries look in the schema that
/// was asked for (`public` when none was) and at the table that was asked
/// for: the index query holds `pi.schemaname = '<schema>' AND pi.tablename
/// = '<table>'`, the foreign-key query `tc.table_schema = '<schema>' AND
/// tc.table_name = '<table>'`.
pub proof fn law_postgres_queries_name_schema_and_table(
    table: Seq<char>,
    schema: Seq<char>,
    database: Seq<char>,
    db: DatabaseType,
)
    requires
        speaks_postgres(db),
    ensures
        index_sql(table, schema, database, db) matches Some(q) && seq_contains(
            q,
            "pi.schemaname = '"@ + (if schema.len() == 0 {
                "public"@
            } else {
                schema
            }) + "' AND pi.tablename = '"@ + table + "'"@,
        ),
        fk_sql(table, schema, database, db) matches Some(q) && seq_contains(
            q,
            "tc.table_schema = '"@ + (if schema.len() == 0 {
                "public"@
            } else {
                schema
            }) + "' AND tc.table_name = '"@ + table + "'"@,
        ),
{
    let s = if schema.len() == 0 {
        "public"@
    } else {
        schema
    };
    reveal_strlit("pi.schemaname = '");
    reveal_strlit("tc.table_schema = '");
    reveal_strlit(
        "SELECT pi.indexname, pi.indexdef, \
                 CASE WHEN ix.indisunique THEN 'YES' ELSE 'NO' END AS is_unique, \
                 CASE WHEN ix.indisprimary THEN 'YES' ELSE 'NO' END AS is_primary \
                 FROM pg_indexes pi \
                 JOIN pg_class c ON c.relname = pi.tablename \
                 JOIN pg_index ix ON c.oid = ix.indrelid \
                 JOIN pg_class ic ON ic.oid = ix.indexrelid AND ic.relname = pi.indexname \
                 WHERE pi.schemaname = '",
    );
    reveal_strlit(
        "SELECT kcu.column_name, ccu.table_schema AS referenced_schema, \
                 ccu.table_name AS referenced_table, ccu.column_name AS referenced_column, \
                 rc.delete_rule, rc.update_rule \
                 FROM information_schema.table_constraints tc \
                 JOIN information_schema.key_column_usage kcu \
                 ON tc.constraint_name = kcu.constraint_name AND tc.table_schema = kcu.table_schema \
                 JOIN information_schema.referential_constraints rc \
                 ON tc.constraint_name = rc.constraint_name \
                 JOIN information_schema.constraint_column_usage ccu \
                 ON rc.unique_constraint_name = ccu.constraint_name \
                 WHERE tc.constraint_type = 'FOREIGN KEY' \
                 AND tc.table_schema = '",
    );
    let li = "SELECT pi.indexname, pi.indexdef, \
                 CASE WHEN ix.indisunique THEN 'YES' ELSE 'NO' END AS is_unique, \
                 CASE WHEN ix.indisprimary THEN 'YES' ELSE 'NO' END AS is_primary \
                 FROM pg_indexes pi \
                 JOIN pg_class c ON c.relname = pi.tablename \
                 JOIN pg_index ix ON c.oid = ix.indrelid \
                 JOIN pg_class ic ON ic.oid = ix.indexrelid AND ic.relname = pi.indexname \
                 WHERE pi.schemaname = '"@;
    let lf = "SELECT kcu.column_name, ccu.table_schema AS referenced_schema, \
                 ccu.table_name AS referenced_table, ccu.column_name AS referenced_column, \
                 rc.delete_rule, rc.update_rule \
                 FROM information_schema.table_constraints tc \
                 JOIN information_schema.key_column_usage kcu \
                 ON tc.constraint_name = kcu.constraint_name AND tc.table_schema = kcu.table_schema \
                 JOIN information_schema.referential_constraints rc \
                 ON tc.constraint_name = rc.constraint_name \
                 JOIN information_schema.constraint_column_usage ccu \
                 ON rc.unique_constraint_name = ccu.constraint_name \
                 WHERE tc.constraint_type = 'FOREIGN KEY' \
                 AND tc.table_schema = '"@;
    let ti = "pi.schemaname = '"@;
    let tf = "tc.table_schema = '"@;
    assert(li.subrange(li.len() - ti.len(), li.len() as int) =~= ti);
    assert(lf.subrange(lf.len() - tf.len(), lf.len() as int) =~= tf);
    let mi = s + "' AND pi.tablename = '"@ + table + "'"@;
    let mf = s + "' AND tc.table_name = '"@ + table + "'"@;
    lemma_tail_then(li, ti, mi);
    lemma_tail_then(lf, tf, mf);
    assert(li + mi =~= index_sql(table, schema, database, db)->Some_0);
    assert(lf + mf =~= fk_sql(table, schema, database, db)->Some_0);
    assert(ti + mi =~= "pi.schemaname = '"@ + s + "' AND pi.tablename = '"@ + table + "'"@);
    assert(tf + mf =~= "tc.table_schema = '"@ + s + "' AND tc.table_name = '"@ + table + "'"@);
}

/// When `l` ends with `tail` and `r` begins with `head`, `l + m + r`
/// contains `tail + m + head`.
proof fn lemma_around(l: Seq<char>, tail: Seq<char>, m: Seq<char>, r: Seq<char>, head: Seq<char>)
    requires
        tail.len() <= l.len(),
        l.subrange(l.len() - tail.len(), l.len() as int) == tail,
        head.len() <= r.len(),
        r.subrange(0, head.len() as int) == head,
    ensures
        seq_contains(l + m + r, tail + m + head),
{
    let y = l + m + r;
    let i = l.len() - tail.len();
    assert(y.subrange(i, i + (tail + m + head).len()) =~= tail + m + head);
}

/// Every engine but an unknown one has both catalog queries.
pub proof fn law_known_engines_have_catalog_queries(
    table: Seq<char>,
    schema: Seq<char>,
    database: Seq<char>,
    db: DatabaseType,
)
    ensures
        !(db is Other) ==> fk_sql(table, schema, database, db) is Some && index_sql(
            table,
            schema,
            database,
            db,
        ) is Some,
        db is Other ==> fk_sql(table, schema, database, db) is None && index_sql(
            table,
            schema,
            database,
            db,
        ) is None,
{
}

/// On the MySQL family, both catalog queries look in the connection's
/// database and at the table that was asked for.
pub proof fn law_mysql_queries_name_database_and_table(
    table: Seq<char>,
    schema: Seq<char>,
    database: Seq<char>,
    db: DatabaseType,
)
    requires
        db is Mysql || db is Doris || db is StarRocks,
    ensures
        fk_sql(table, schema, database, db) matches Some(q) && seq_contains(
            q,
            "kcu.table_schema = '"@ + database + "' AND kcu.table_name = '"@ + table + "'"@,
        ),
        index_sql(table, schema, database, db) matches Some(q) && seq_contains(
            q,
            "table_schema = '"@ + database + "' AND table_name = '"@ + table + "'"@,
        ),
{
    reveal_strlit("SELECT kcu.column_name, kcu.referenced_table_schema, kcu.referenced_table_name, \
             kcu.referenced_column_name, rc.delete_rule, rc.update_rule \
             FROM information_schema.key_column_usage kcu \
             JOIN information_schema.referential_constraints rc \
             ON kcu.constraint_name = rc.constraint_name \
             AND kcu.constraint_schema = rc.constraint_schema \
             WHERE kcu.table_schema = '");
    reveal_strlit("SELECT index_name, GROUP_CONCAT(column_name ORDER BY seq_in_index) AS columns, \
             IF(non_unique=0,'YES','NO') AS is_unique, index_type \
             FROM information_schema.statistics \
             WHERE table_schema = '");
    reveal_strlit("kcu.table_schema = '");
    reveal_strlit("table_schema = '");
    reveal_strlit("' \
             AND kcu.referenced_table_name IS NOT NULL");
    reveal_strlit("' \
             GROUP BY index_name, non_unique, index_type");
    reveal_strlit("'");
    let lf = "SELECT kcu.column_name, kcu.referenced_table_schema, kcu.referenced_table_name, \
             kcu.referenced_column_name, rc.delete_rule, rc.update_rule \
             FROM information_schema.key_column_usage kcu \
             JOIN information_schema.referential_constraints rc \
             ON kcu.constraint_name = rc.constraint_name \
             AND kcu.constraint_schema = rc.constraint_schema \
             WHERE kcu.table_schema = '"@;
    let li = "SELECT index_name, GROUP_CONCAT(column_name ORDER BY seq_in_index) AS columns, \
             IF(non_unique=0,'YES','NO') AS is_unique, index_type \
             FROM information_schema.statistics \
             WHERE table_schema = '"@;
    let tf = "kcu.table_schema = '"@;
    let ti = "table_schema = '"@;
    let rf = "' \
             AND kcu.referenced_table_name IS NOT NULL"@;
    let ri = "' \
             GROUP BY index_name, non_unique, index_type"@;
    assert(lf.subrange(lf.len() - tf.len(), lf.len() as int) =~= tf);
    assert(li.subrange(li.len() - ti.len(), li.len() as int) =~= ti);
    assert(rf.subrange(0, 1) =~= "'"@);
    assert(ri.subrange(0, 1) =~= "'"@);
    let mf = database + "' AND kcu.table_name = '"@ + table;
    let mi = database + "' AND table_name = '"@ + table;
    lemma_around(lf, tf, mf, rf, "'"@);
    lemma_around(li, ti, mi, ri, "'"@);
    assert(lf + mf + rf =~= fk_sql(table, schema, database, db)->Some_0);
    assert(li + mi + ri =~= index_sql(table, schema, database, db)->Some_0);
    assert(tf + mf + "'"@ =~= "kcu.table_schema = '"@ + database + "' AND kcu.table_name = '"@ + table
        + "'"@);
    assert(ti + mi + "'"@ =~= "table_schema = '"@ + database + "' AND table_name = '"@ + table
        + "'"@);
}

/// On the SQLite family, the catalog queries are the pragmas on the table
/// that was asked for.
pub proof fn law_sqlite_queries_are_pragmas_on_the_table(
    table: Seq<char>,
    schema: Seq<char>,
    database: Seq<char>,
    db: DatabaseType,
)
    requires
        db is Sqlite || db is Rqlite || db is Turso,
    ensures
        fk_sql(table, schema, database, db) == Some("PRAGMA foreign_key_list('"@ + table + "')"@),
        index_sql(table, schema, database, db) == Some("PRAGMA index_list('"@ + table + "')"@),
{
}

/// On SQL Server, both catalog queries select the table that was asked
/// for by its object name.
pub proof fn law_sql_server_queries_name_the_table(table: Seq<char>, schema: Seq<char>, database: Seq<char>)
    ensures
        fk_sql(table, schema, database, DatabaseType::SqlServer) matches Some(q) && seq_contains(
            q,
            "OBJECT_NAME(fk.parent_object_id) = '"@ + table + "'"@,
        ),
        index_sql(table, schema, database, DatabaseType::SqlServer) matches Some(q) && seq_contains(
            q,
            "OBJECT_NAME(i.object_id) = '"@ + table + "' AND i.is_hypothetical = 0"@,
        ),
{
    reveal_strlit("SELECT fkc.name AS column_name, rt.name AS referenced_table, \
             rc.name AS referenced_column, \
             fk.delete_referential_action_desc AS delete_rule, \
             fk.update_referential_action_desc AS update_rule \
             FROM sys.foreign_keys fk \
             JOIN sys.foreign_key_columns fkcc ON fk.object_id = fkcc.constraint_object_id \
             JOIN sys.columns fkc ON fkcc.parent_column_id = fkc.column_id AND fkcc.parent_object_id = fkc.object_id \
             JOIN sys.tables rt ON fkcc.referenced_object_id = rt.object_id \
             JOIN sys.columns rc ON fkcc.referenced_column_id = rc.column_id AND fkcc.referenced_object_id = rc.object_id \
             WHERE OBJECT_NAME(fk.parent_object_id) = '");
    reveal_strlit("SELECT i.name AS index_name, \
             STRING_AGG(c.name, ', ') WITHIN GROUP (ORDER BY ic.key_ordinal) AS columns, \
             CASE WHEN i.is_unique = 1 THEN 'YES' ELSE 'NO' END AS is_unique, \
             CASE WHEN i.is_primary_key = 1 THEN 'YES' ELSE 'NO' END AS is_primary, \
             i.type_desc AS index_type \
             FROM sys.indexes i \
             JOIN sys.index_columns ic ON i.object_id = ic.object_id AND i.index_id = ic.index_id \
             JOIN sys.columns c ON ic.object_id = c.object_id AND ic.column_id = c.column_id \
             WHERE OBJECT_NAME(i.object_id) = '");
    reveal_strlit("OBJECT_NAME(fk.parent_object_id) = '");
    reveal_strlit("OBJECT_NAME(i.object_id) = '");
    reveal_strlit("' AND i.is_hypothetical = 0 \
             GROUP BY i.name, i.is_unique, i.is_primary_key, i.type_desc");
    reveal_strlit("' AND i.is_hypothetical = 0");
    let lf = "SELECT fkc.name AS column_name, rt.name AS referenced_table, \
             rc.name AS referenced_column, \
             fk.delete_referential_action_desc AS delete_rule, \
             fk.update_referential_action_desc AS update_rule \
             FROM sys.foreign_keys fk \
             JOIN sys.foreign_key_columns fkcc ON fk.object_id = fkcc.constraint_object_id \
             JOIN sys.columns fkc ON fkcc.parent_column_id = fkc.column_id AND fkcc.parent_object_id = fkc.object_id \
             JOIN sys.tables rt ON fkcc.referenced_object_id = rt.object_id \
             JOIN sys.columns rc ON fkcc.referenced_column_id = rc.column_id AND fkcc.referenced_object_id = rc.object_id \
             WHERE OBJECT_NAME(fk.parent_object_id) = '"@;
    let li = "SELECT i.name AS index_name, \
             STRING_AGG(c.name, ', ') WITHIN GROUP (ORDER BY ic.key_ordinal) AS columns, \
             CASE WHEN i.is_unique = 1 THEN 'YES' ELSE 'NO' END AS is_unique, \
             CASE WHEN i.is_primary_key = 1 THEN 'YES' ELSE 'NO' END AS is_primary, \
             i.type_desc AS index_type \
             FROM sys.indexes i \
             JOIN sys.index_columns ic ON i.object_id = ic.object_id AND i.index_id = ic.index_id \
             JOIN sys.columns c ON ic.object_id = c.object_id AND ic.column_id = c.column_id \
             WHERE OBJECT_NAME(i.object_id) = '"@;
    let tf = "OBJECT_NAME(fk.parent_object_id) = '"@;
    let ti = "OBJECT_NAME(i.object_id) = '"@;
    assert(lf.subrange(lf.len() - tf.len(), lf.len() as int) =~= tf);
    assert(li.subrange(li.len() - ti.len(), li.len() as int) =~= ti);
    let ri = "' AND i.is_hypothetical = 0 \
             GROUP BY i.name, i.is_unique, i.is_primary_key, i.type_desc"@;
    let hi = "' AND i.is_hypothetical = 0"@;
    assert(ri.subrange(0, hi.len() as int) =~= hi);
    lemma_tail_then(lf, tf, table + "'"@);
    lemma_around(li, ti, table, ri, hi);
    assert(lf + (table + "'"@) =~= fk_sql(table, schema, database, DatabaseType::SqlServer)->Some_0);
    assert(li + table + ri =~= index_sql(table, schema, database, DatabaseType::SqlServer)->Some_0);
    assert(tf + (table + "'"@) =~= "OBJECT_NAME(fk.parent_object_id) = '"@ + table + "'"@);
}

/// On Oracle, both catalog queries look in the upper-cased schema (the
/// upper-cased database when no schema is given) and at the table that
/// was asked for, upper-cased by the database.
pub proof fn law_oracle_queries_name_owner_and_table(table: Seq<char>, schema: Seq<char>, database: Seq<char>)
    ensures
        fk_sql(table, schema, database, DatabaseType::Oracle) matches Some(q) && seq_contains(
            q,
            "ac.owner = '"@ + unicode_upper(
                if schema.len() == 0 {
                    database
                } else {
                    schema
                },
            ) + "' AND ac.table_name = UPPER('"@ + table + "')"@,
        ),
        index_sql(table, schema, database, DatabaseType::Oracle) matches Some(q) && seq_contains(
            q,
            "ai.owner = '"@ + unicode_upper(
                if schema.len() == 0 {
                    database
                } else {
                    schema
                },
            ) + "' AND ai.table_name = UPPER('"@ + table + "')"@,
        ),
{
    let owner = unicode_upper(
        if schema.len() == 0 {
            database
        } else {
            schema
        },
    );
    reveal_strlit("SELECT acc.column_name, ac2.table_name AS referenced_table, \
                 acc2.column_name AS referenced_column, ac.delete_rule \
                 FROM all_constraints ac \
                 JOIN all_cons_columns acc ON ac.constraint_name = acc.constraint_name AND ac.owner = acc.owner \
                 JOIN all_constraints ac2 ON ac.r_constraint_name = ac2.constraint_name AND ac.r_owner = ac2.owner \
                 JOIN all_cons_columns acc2 ON ac2.constraint_name = acc2.constraint_name AND ac2.owner = acc2.owner \
                 WHERE ac.constraint_type = 'R' \
                 AND ac.owner = '");
    reveal_strlit("SELECT ai.index_name, aic.column_name, ai.uniqueness, \
                 CASE WHEN ac.constraint_type = 'P' THEN 'YES' ELSE 'NO' END AS is_primary, \
                 ai.index_type \
                 FROM all_indexes ai \
                 JOIN all_ind_columns aic ON ai.index_name = aic.index_name AND ai.owner = aic.index_owner \
                 LEFT JOIN all_constraints ac ON ai.index_name = ac.index_name AND ai.owner = ac.owner AND ac.constraint_type = 'P' \
                 WHERE ai.owner = '");
    reveal_strlit("ac.owner = '");
    reveal_strlit("ai.owner = '");
    reveal_strlit("') \
                 ORDER BY ai.index_name, aic.column_position");
    reveal_strlit("')");
    let lf = "SELECT acc.column_name, ac2.table_name AS referenced_table, \
                 acc2.column_name AS referenced_column, ac.delete_rule \
                 FROM all_constraints ac \
                 JOIN all_cons_columns acc ON ac.constraint_name = acc.constraint_name AND ac.owner = acc.owner \
                 JOIN all_constraints ac2 ON ac.r_constraint_name = ac2.constraint_name AND ac.r_owner = ac2.owner \
                 JOIN all_cons_columns acc2 ON ac2.constraint_name = acc2.constraint_name AND ac2.owner = acc2.owner \
                 WHERE ac.constraint_type = 'R' \
                 AND ac.owner = '"@;
    let li = "SELECT ai.index_name, aic.column_name, ai.uniqueness, \
                 CASE WHEN ac.constraint_type = 'P' THEN 'YES' ELSE 'NO' END AS is_primary, \
                 ai.index_type \
                 FROM all_indexes ai \
                 JOIN all_ind_columns aic ON ai.index_name = aic.index_name AND ai.owner = aic.index_owner \
                 LEFT JOIN all_constraints ac ON ai.index_name = ac.index_name AND ai.owner = ac.owner AND ac.constraint_type = 'P' \
                 WHERE ai.owner = '"@;
    let tf = "ac.owner = '"@;
    let ti = "ai.owner = '"@;
    assert(lf.subrange(lf.len() - tf.len(), lf.len() as int) =~= tf);
    assert(li.subrange(li.len() - ti.len(), li.len() as int) =~= ti);
    let ri = "') \
                 ORDER BY ai.index_name, aic.column_position"@;
    assert(ri.subrange(0, 2) =~= "')"@);
    let mf = owner + "' AND ac.table_name = UPPER('"@ + table + "')"@;
    let mi = owner + "' AND ai.table_name = UPPER('"@ + table;
    lemma_tail_then(lf, tf, mf);
    lemma_around(li, ti, mi, ri, "')"@);
    assert(owner == crate::introspection_sql::oracle_owner(schema, database));
    assert(lf + mf =~= fk_sql(table, schema, database, DatabaseType::Oracle)->Some_0);
    assert(tf + mf =~= "ac.owner = '"@ + owner + "' AND ac.table_name = UPPER('"@ + table + "')"@);
    assert(li + mi + ri =~= index_sql(table, schema, database, DatabaseType::Oracle)->Some_0);
    assert(ti + mi + "')"@ =~= "ai.owner = '"@ + owner + "' AND ai.table_name = UPPER('"@ + table
        + "')"@);
}

// ---------------------------------------------------------------------------
// Column listing
// ---------------------------------------------------------------------------

/// A column listing shows the default of every column that has a
/// non-empty one, as `default <value>`, whatever the column's other flags.
pub proof fn law_column_listing_shows_defaults(table: Seq<char>, columns: Seq<ColumnInfo>, i: int)
    requires
        0 <= i < columns.len(),
        columns[i].column_default matches Some(d) && d@.len() > 0,
    ensures
        seq_contains(column_list_text(table, columns), "default "@ + columns[i].column_default->Some_0@),
{
    let c = columns[i];
    let d = c.column_default->Some_0@;
    let w = "default "@ + d;
    let pk: Seq<Seq<char>> = if c.is_primary_key {
        seq!["PK"@]
    } else {
        seq![]
    };
    let null: Seq<Seq<char>> = if c.is_nullable {
        seq!["nullable"@]
    } else {
        seq!["NOT NULL"@]
    };
    let flags = crate::tool_output::column_flags(c);
    let p: int = pk.len() as int + 1;
    assert(flags[p] == w);
    lemma_contains_self(w);
    lemma_join_contains(flags, ", "@, p, w);
    let joined = join_seqs(flags, ", "@);
    let head = "  - "@ + c.name@ + ": "@ + c.data_type@ + " ("@;
    let tail = ")"@ + crate::tool_output::comment_suffix(c.comment);
    lemma_contains_in(head, joined, tail, w);
    let line = crate::tool_output::column_line(c);
    assert(line =~= head + joined + tail);
    let lines = seq!["Columns of "@ + table + ":"@] + Seq::new(
        columns.len(),
        |k: int| crate::tool_output::column_line(columns[k]),
    );
    assert(lines[i + 1] == line);
    lemma_join_contains(lines, "\n"@, i + 1, w);
}

/// The start of a joined text: its first piece, and the separator and the
/// second piece after it.
proof fn lemma_join_starts(ws: Seq<Seq<char>>, sep: Seq<char>)
    requires
        ws.len() >= 1,
    ensures
        join_seqs(ws, sep).len() >= ws[0].len(),
        join_seqs(ws, sep).take(ws[0].len() as int) == ws[0],
        ws.len() >= 2 ==> join_seqs(ws, sep).len() >= ws[0].len() + sep.len() + ws[1].len()
            && join_seqs(ws, sep).take((ws[0].len() + sep.len() + ws[1].len()) as int) == ws[0] + sep
            + ws[1],
    decreases ws.len(),
{
    if ws.len() == 1 {
        assert(join_seqs(ws, sep).take(ws[0].len() as int) =~= ws[0]);
    } else {
        let front = ws.drop_last();
        lemma_join_starts(front, sep);
        let a = join_seqs(front, sep);
        let j = a + sep + ws.last();
        assert(front[0] == ws[0]);
        assert(j.take(ws[0].len() as int) =~= a.take(ws[0].len() as int));
        if ws.len() == 2 {
            assert(a == ws[0]);
            assert(j.take((ws[0].len() + sep.len() + ws[1].len()) as int) =~= ws[0] + sep + ws[1]);
        } else {
            assert(front[1] == ws[1]);
            assert(j.take((ws[0].len() + sep.len() + ws[1].len()) as int) =~= a.take(
                (ws[0].len() + sep.len() + ws[1].len()) as int,
            ));
        }
    }
}

/// A text contains each of its prefixes.
proof fn lemma_contains_prefix(x: Seq<char>, p: Seq<char>)
    requires
        p.len() <= x.len(),
        x.take(p.len() as int) == p,
    ensures
        seq_contains(x, p),
{
    assert(x.subrange(0, p.len() as int) =~= x.take(p.len() as int));
}

/// What column `i`'s line holds is in the column listing.
proof fn lemma_column_line_in_listing(table: Seq<char>, columns: Seq<ColumnInfo>, i: int, w: Seq<char>)
    requires
        0 <= i < columns.len(),
        seq_contains(crate::tool_output::column_line(columns[i]), w),
    ensures
        seq_contains(column_list_text(table, columns), w),
{
    let lines = seq!["Columns of "@ + table + ":"@] + Seq::new(
        columns.len(),
        |k: int| crate::tool_output::column_line(columns[k]),
    );
    assert(lines[i + 1] == crate::tool_output::column_line(columns[i]));
    lemma_join_contains(lines, "\n"@, i + 1, w);
}

/// A column listing of no columns says so; otherwise it starts with
/// `Columns of <table>:` and shows each column as `  - <name>: <type>`
/// followed by its flags, which begin with `PK` for a primary key and
/// then say whether the column is `nullable` or `NOT NULL`; it shows the
/// column's non-empty extra, and its trimmed comment after ` -- `.
pub proof fn law_column_listing_shows_columns(table: Seq<char>, columns: Seq<ColumnInfo>, i: int)
    requires
        0 <= i < columns.len(),
    ensures
        column_list_text(table, columns).take(("Columns of "@ + table + ":"@).len() as int)
            == "Columns of "@ + table + ":"@,
        seq_contains(
            column_list_text(table, columns),
            "  - "@ + columns[i].name@ + ": "@ + columns[i].data_type@ + " ("@ + (if columns[i].is_primary_key {
                "PK, "@
            } else {
                seq![]
            }) + (if columns[i].is_nullable {
                "nullable"@
            } else {
                "NOT NULL"@
            }),
        ),
        columns[i].extra matches Some(e) && e@.len() > 0 ==> seq_contains(
            column_list_text(table, columns),
            columns[i].extra->Some_0@,
        ),
        columns[i].comment matches Some(t) && trim_ws(t@).len() > 0 ==> seq_contains(
            column_list_text(table, columns),
            " -- "@ + trim_ws(columns[i].comment->Some_0@),
        ),
{
    reveal_strlit("PK, ");
    reveal_strlit("PK");
    reveal_strlit(", ");
    let c = columns[i];
    let lines = seq!["Columns of "@ + table + ":"@] + Seq::new(
        columns.len(),
        |k: int| crate::tool_output::column_line(columns[k]),
    );
    lemma_join_starts(lines, "\n"@);
    let flags = crate::tool_output::column_flags(c);
    let nw = if c.is_nullable {
        "nullable"@
    } else {
        "NOT NULL"@
    };
    let head = "  - "@ + c.name@ + ": "@ + c.data_type@ + " ("@;
    let joined = join_seqs(flags, ", "@);
    let line = crate::tool_output::column_line(c);
    assert(line =~= head + joined + (")"@ + crate::tool_output::comment_suffix(c.comment)));
    lemma_join_starts(flags, ", "@);
    let start = if c.is_primary_key {
        "PK"@ + ", "@ + nw
    } else {
        nw
    };
    if c.is_primary_key {
        assert(flags[0] == "PK"@ && flags[1] == nw);
    } else {
        assert(flags[0] == nw);
    }
    assert(joined.take(start.len() as int) == start);
    assert(line.take((head + start).len() as int) =~= head + start);
    lemma_contains_prefix(line, head + start);
    let pat = "  - "@ + c.name@ + ": "@ + c.data_type@ + " ("@ + (if c.is_primary_key {
        "PK, "@
    } else {
        seq![]
    }) + nw;
    assert(head + start =~= pat);
    lemma_column_line_in_listing(table, columns, i, pat);
    if let Some(e) = c.extra {
        if e@.len() > 0 {
            let p = flags.len() - 1;
            assert(flags[p] == e@);
            lemma_contains_self(e@);
            lemma_join_contains(flags, ", "@, p, e@);
            lemma_contains_in(head, joined, ")"@ + crate::tool_output::comment_suffix(c.comment), e@);
            lemma_column_line_in_listing(table, columns, i, e@);
        }
    }
    if let Some(t) = c.comment {
        if trim_ws(t@).len() > 0 {
            let cs = crate::tool_output::comment_suffix(c.comment);
            lemma_contains_self(cs);
            assert(line =~= (head + joined + ")"@) + cs + Seq::<char>::empty());
            lemma_contains_in(head + joined + ")"@, cs, seq![], cs);
            lemma_column_line_in_listing(table, columns, i, cs);
        }
    }
}

/// A table listing shows each of the first 200 tables, in order, as
/// `- <name> (<type>)`; when there are more, it says how many it left out;
/// when there are none, it says so.
pub proof fn law_table_listing_shows_tables(tables: Seq<TableInfo>, i: int)
    requires
        0 <= i < tables.len(),
        i < 200,
    ensures
        table_list_lines(tables).len() == (if tables.len() > 200 { 201 } else { tables.len() }),
        seq_contains(
            table_list_lines(tables)[i],
            "- "@ + tables[i].name@ + " ("@ + tables[i].table_type@ + ")"@,
        ),
        table_list_lines(tables)[i].take(("- "@ + tables[i].name@ + " ("@ + tables[i].table_type@
            + ")"@).len() as int) == "- "@ + tables[i].name@ + " ("@ + tables[i].table_type@ + ")"@,
        seq_contains(
            table_list_text(tables),
            "- "@ + tables[i].name@ + " ("@ + tables[i].table_type@ + ")"@,
        ),
        tables.len() > 200 ==> table_list_lines(tables)[200] == "... (showing 200 of "@ + decimal(
            tables.len(),
        ) + " tables)"@,
{
    let t = tables[i];
    let p = "- "@ + t.name@ + " ("@ + t.table_type@ + ")"@;
    let lines = table_list_lines(tables);
    assert(lines[i] == crate::tool_output::table_line(t));
    assert(lines[i].take(p.len() as int) =~= p);
    lemma_contains_prefix(lines[i], p);
    lemma_join_contains(lines, "\n"@, i, p);
}

// ---------------------------------------------------------------------------
// Markdown rows
// ---------------------------------------------------------------------------

/// The Markdown rendering keeps the rows in the result's order: after the
/// header and the separator, line `2 + k` is row `k`, its cells rendered
/// in order between `| ` and ` |`.
pub proof fn law_markdown_rows_keep_their_order(r: QueryResult, limit: usize, k: int)
    requires
        0 <= k < r.rows@.len(),
    ensures
        markdown_lines(r, limit).len() >= 3 + r.rows@.len(),
        markdown_lines(r, limit)[2 + k] == "| "@ + join_seqs(
            Seq::new(r.rows@[k]@.len(), |j: int| markdown_cell(r.rows@[k]@[j])),
            " | "@,
        ) + " |"@,
{
}

/// The Markdown rendering of a result with rows: the header names the
/// columns in order, a `|---|` rule follows, then one line per row (see
/// `law_markdown_rows_keep_their_order`), a notice when the result was cut
/// or reached the limit, and the count of rows and the time taken; each of
/// these lines is in the text. A result without rows says so.
pub proof fn law_markdown_shape(r: QueryResult, limit: usize, k: int)
    ensures
        r.rows@.len() == 0 ==> markdown_text(r, limit) == "Query returned 0 rows."@,
        r.rows@.len() > 0 ==> {
            let n = r.rows@.len();
            let ls = markdown_lines(r, limit);
            let cut = r.truncated || n >= limit;
            &&& ls.len() == n + 3 + (if cut {
                1int
            } else {
                0int
            })
            &&& ls[0] == "| "@ + join_seqs(
                Seq::new(r.columns@.len(), |i: int| r.columns@[i]@),
                " | "@,
            ) + " |"@
            &&& ls[1] == "|"@ + join_seqs(Seq::new(r.columns@.len(), |i: int| "---"@), "|"@)
                + "|"@
            &&& cut ==> ls[n as int + 2] == "... (showing "@ + decimal(n) + " rows, result may be truncated)"@
            &&& ls[ls.len() - 1] == "("@ + decimal(n) + " rows, "@ + decimal(
                r.execution_time_ms as nat,
            ) + "ms)"@
            &&& 0 <= k < ls.len() ==> seq_contains(markdown_text(r, limit), ls[k])
        },
{
    let n = r.rows@.len();
    if n > 0 {
        let ls = markdown_lines(r, limit);
        assert(crate::tool_output::column_names(r.columns@) =~= Seq::new(
            r.columns@.len(),
            |i: int| r.columns@[i]@,
        ));
        if 0 <= k < ls.len() {
            lemma_contains_self(ls[k]);
            lemma_join_contains(ls, "\n"@, k, ls[k]);
        }
    }
}

/// A Markdown cell shows SQL `NULL` as `NULL`, any other non-string value
/// by its JSON text, a string of at most 200 bytes as it is, and a longer
/// string by a leading part of it followed by `...`.
pub proof fn law_markdown_cells(c: CellValue)
    ensures
        c is Null ==> markdown_cell(c) == "NULL"@,
        c matches CellValue::Json(t) ==> markdown_cell(c) == t@,
        c is Text && str_len(c->Text_0@) <= 200 ==> markdown_cell(c) == c->Text_0@,
        c is Text && str_len(c->Text_0@) > 200 ==> {
            let m = markdown_cell(c);
            &&& m.len() >= 3
            &&& m.subrange(m.len() - 3, m.len() as int) == "..."@
            &&& m.len() - 3 <= c->Text_0@.len()
            &&& m.take(m.len() - 3) == c->Text_0@.take(m.len() - 3)
        },
{
    if let CellValue::Text(s) = c {
        if str_len(s@) > 200 {
            reveal_strlit("...");
            let p = prefix_below(s@, 200);
            lemma_prefix_of(s@, 200);
            let m = p + "..."@;
            assert(m.subrange(m.len() - 3, m.len() as int) =~= "..."@);
            assert(m.take(m.len() - 3) =~= p);
            assert(s@.take(p.len() as int) =~= p);
        }
    }
}

/// `prefix_below(s, budget)` is a leading part of `s`.
proof fn lemma_prefix_of(s: Seq<char>, budget: int)
    ensures
        prefix_below(s, budget).len() <= s.len(),
        forall|k: int| 0 <= k < prefix_below(s, budget).len() ==> #[trigger] prefix_below(s, budget)[k]
            == s[k],
    decreases s.len(),
{
    if s.len() > 0 && budget > 0 {
        lemma_prefix_of(s.drop_first(), budget - crate::text::utf8_len(s[0]));
    }
}

// ---------------------------------------------------------------------------
// Credential words
// ---------------------------------------------------------------------------

/// The credential words.
pub open spec fn is_credential_word(w: Seq<char>) -> bool {
    ||| w == "password"@
    ||| w == "passwd"@
    ||| w == "pwd"@
    ||| w == "secret"@
    ||| w == "token"@
    ||| w == "api_key"@
    ||| w == "apikey"@
    ||| w == "access_key"@
    ||| w == "private_key"@
    ||| w == "credential"@
    ||| w == "authorization"@
    ||| w == "bearer"@
}

/// A non-empty word of lower-case letters and underscores is its own
/// lower-case form and its own trimmed key.
proof fn lemma_plain_key(w: Seq<char>)
    requires
        w.len() > 0,
        forall|i: int| 0 <= i < w.len() ==> ('a' <= #[trigger] w[i] <= 'z' || w[i] == '_'),
    ensures
        ascii_lower_seq(w) == w,
        trim_key(w) == w,
        seq_contains(w, w),
        forall|i: int| 0 <= i < w.len() ==> #[trigger] w[i] != '=' && !is_white_space(w[i]),
{
    assert(ascii_lower_seq(w) =~= w);
    assert(key_start(w, 0) == 0);
    assert(key_end(w, w.len() as int) == w.len());
    assert(w.subrange(0, w.len() as int) =~= w);
    lemma_contains_self(w);
}

/// Every credential word names a credential on its own, and an assignment
/// to it loses its value: `<word>=<value>` becomes `<word>=[REDACTED]`.
pub proof fn law_credential_words_are_redacted(w: Seq<char>, value: Seq<char>)
    requires
        is_credential_word(w),
        forall|i: int| 0 <= i < value.len() ==> !is_white_space(#[trigger] value[i]),
    ensures
        sensitive_key(w),
        redacted_assignments(w + "="@ + value) == w + "=[REDACTED]"@,
{
    reveal_strlit("password");
    reveal_strlit("passwd");
    reveal_strlit("pwd");
    reveal_strlit("secret");
    reveal_strlit("token");
    reveal_strlit("api_key");
    reveal_strlit("apikey");
    reveal_strlit("access_key");
    reveal_strlit("private_key");
    reveal_strlit("credential");
    reveal_strlit("authorization");
    reveal_strlit("bearer");
    assert(w.len() > 0);
    assert forall|i: int| 0 <= i < w.len() implies ('a' <= #[trigger] w[i] <= 'z' || w[i] == '_') by {}
    lemma_plain_key(w);
    law_sensitive_assignment_is_redacted(w, value);
}

// ---------------------------------------------------------------------------
// The tool set
// ---------------------------------------------------------------------------

/// The listing tools are always offered, and each optional tool exactly
/// when its own support flag holds, whatever the other flags are:
/// `execute_query` and `get_sample_data` with SQL queries, `explain_query`
/// with execution plans, the foreign-key and index tools with catalog
/// introspection.
pub proof fn law_each_tool_follows_its_flag(s: ToolSupport)
    ensures
        offered_tools(s).contains(BuiltinTool::ListTables),
        offered_tools(s).contains(BuiltinTool::GetColumns),
        offered_tools(s).contains(BuiltinTool::ExecuteQuery) <==> s.sql_query,
        offered_tools(s).contains(BuiltinTool::GetSampleData) <==> s.sql_query,
        offered_tools(s).contains(BuiltinTool::ExplainQuery) <==> s.explain_plan,
        offered_tools(s).contains(BuiltinTool::GetForeignKeys) <==> s.fk_introspection,
        offered_tools(s).contains(BuiltinTool::GetIndexes) <==> s.fk_introspection,
{
    let t = offered_tools(s);
    assert(t[0] == BuiltinTool::ListTables);
    assert(t[1] == BuiltinTool::GetColumns);
    let base = seq![BuiltinTool::ListTables, BuiltinTool::GetColumns];
    let with_sql = if s.sql_query {
        base + seq![BuiltinTool::ExecuteQuery, BuiltinTool::GetSampleData]
    } else {
        base
    };
    let with_explain = if s.explain_plan {
        with_sql.push(BuiltinTool::ExplainQuery)
    } else {
        with_sql
    };
    if s.sql_query {
        assert(t[2] == BuiltinTool::ExecuteQuery);
        assert(t[3] == BuiltinTool::GetSampleData);
    }
    if s.explain_plan {
        assert(t[with_sql.len() as int] == BuiltinTool::ExplainQuery);
    }
    if s.fk_introspection {
        assert(t[with_explain.len() as int] == BuiltinTool::GetForeignKeys);
        assert(t[with_explain.len() as int + 1] == BuiltinTool::GetIndexes);
    }
}

// ---------------------------------------------------------------------------
// Sampling query, warnings, truncation
// ---------------------------------------------------------------------------

/// The sampling query selects every column of the table that was asked
/// for, inside the schema when one is named, and limits the rows to the
/// limit asked for: it ends with `FROM ["<schema>".]"<table>" LIMIT <n>`.
pub proof fn law_sampling_query_names_table_and_limit(
    table: Seq<char>,
    schema: Option<Seq<char>>,
    limit: usize,
)
    ensures
        sample_sql(table, schema, limit).take(14) == "SELECT * FROM "@,
        schema matches Some(sc) && sc.len() > 0 ==> seq_contains(
            sample_sql(table, schema, limit),
            "\""@ + schema->Some_0 + "\".\""@ + table + "\" LIMIT "@ + decimal(limit as nat),
        ),
        !(schema matches Some(sc) && sc.len() > 0) ==> sample_sql(table, schema, limit) == "SELECT * FROM \""@
            + table + "\" LIMIT "@ + decimal(limit as nat),
{
    reveal_strlit("SELECT * FROM ");
    reveal_strlit("SELECT * FROM \"");
    reveal_strlit("\"");
    reveal_strlit("\".");
    reveal_strlit("\".\"");
    reveal_strlit("\" LIMIT ");
    let q = sample_sql(table, schema, limit);
    assert(q.take(14) =~= "SELECT * FROM "@);
    if let Some(sc) = schema {
        if sc.len() > 0 {
            let pat = "\""@ + sc + "\".\""@ + table + "\" LIMIT "@ + decimal(limit as nat);
            assert(q =~= "SELECT * FROM "@ + pat + Seq::<char>::empty());
            lemma_contains_self(pat);
            lemma_contains_in("SELECT * FROM "@, pat, seq![], pat);
        } else {
            assert(q =~= "SELECT * FROM \""@ + table + "\" LIMIT "@ + decimal(limit as nat));
        }
    } else {
        assert(q =~= "SELECT * FROM \""@ + table + "\" LIMIT "@ + decimal(limit as nat));
    }
}

/// The warnings come first in a result: nothing when there are none;
/// otherwise `[WARNING] ` and the first warning lead, every warning is
/// shown, and a blank line closes them.
pub proof fn law_warnings_lead_the_result(ws: Seq<Seq<char>>, i: int)
    ensures
        ws.len() == 0 ==> warning_prefix(ws) == Seq::<char>::empty(),
        ws.len() > 0 ==> warning_prefix(ws).take(10 + ws[0].len() as int) == "[WARNING] "@ + ws[0],
        ws.len() > 0 ==> warning_prefix(ws).len() >= 12 && warning_prefix(ws).subrange(
            warning_prefix(ws).len() - 2,
            warning_prefix(ws).len() as int,
        ) == "\n\n"@,
        0 <= i < ws.len() ==> seq_contains(warning_prefix(ws), ws[i]),
{
    reveal_strlit("[WARNING] ");
    reveal_strlit("\n\n");
    if ws.len() > 0 {
        let j = join_seqs(ws, "; "@);
        let p = warning_prefix(ws);
        lemma_join_starts(ws, "; "@);
        assert(p =~= "[WARNING] "@ + j + "\n\n"@);
        assert(p.take(10 + ws[0].len() as int) =~= "[WARNING] "@ + j.take(ws[0].len() as int));
        assert(p.subrange(p.len() - 2, p.len() as int) =~= "\n\n"@);
        if 0 <= i < ws.len() {
            lemma_contains_self(ws[i]);
            lemma_join_contains(ws, "; "@, i, ws[i]);
            lemma_contains_in("[WARNING] "@, j, "\n\n"@, ws[i]);
        }
    }
}

/// Truncation keeps a text that fits, and otherwise keeps exactly the
/// first `max` characters and then counts the omitted ones.
pub proof fn law_truncation_keeps_the_head(value: Seq<char>, max: nat)
    ensures
        value.len() <= max ==> truncated(value, max) == value,
        value.len() > max ==> truncated(value, max).take(max as int) == value.take(max as int),
        value.len() > max ==> seq_contains(
            truncated(value, max),
            "[truncated "@ + decimal((value.len() - max) as nat) + " chars]"@,
        ),
        value.len() > max ==> truncated(value, max).len() > max,
{
    if value.len() > max {
        let marker = "[truncated "@ + decimal((value.len() - max) as nat) + " chars]"@;
        let t = truncated(value, max);
        reveal_strlit("\u{2026}");
        reveal_strlit("\u{2026}[truncated ");
        reveal_strlit("[truncated ");
        reveal_strlit(" chars]");
        assert(t =~= value.take(max as int) + "\u{2026}"@ + marker);
        assert(t.take(max as int) =~= value.take(max as int));
        lemma_contains_self(marker);
        lemma_contains_in(value.take(max as int) + "\u{2026}"@, marker, seq![], marker);
        assert(t =~= value.take(max as int) + "\u{2026}"@ + marker + Seq::<char>::empty());
    }
}

// ---------------------------------------------------------------------------
// Argument checks
// ---------------------------------------------------------------------------

/// A table name is accepted exactly when, trimmed of whitespace, it is not
/// empty, holds at most 256 bytes (when lengths are checked) and none of
/// `; ' " \\` (when characters are checked); what is accepted is the
/// trimmed name. A missing name gives the given message.
pub proof fn law_table_name_acceptance(
    raw: Option<Seq<char>>,
    missing: Seq<char>,
    check_len: bool,
    check_chars: bool,
)
    ensures
        raw is None ==> check_table_name(raw, missing, check_len, check_chars) == Err::<
            Seq<char>,
            Seq<char>,
        >(missing),
        raw is Some ==> (check_table_name(raw, missing, check_len, check_chars) is Ok <==> {
            let t = trim_ws(raw->Some_0);
            &&& t.len() > 0
            &&& check_len ==> str_len(t) <= 256
            &&& check_chars ==> forall|i: int|
                0 <= i < t.len() ==> #[trigger] t[i] != ';' && t[i] != '\'' && t[i] != '"' && t[i]
                    != '\\'
        }),
        check_table_name(raw, missing, check_len, check_chars) matches Ok(t) ==> t == trim_ws(
            raw->Some_0,
        ),
{
    if let Some(r) = raw {
        let t = trim_ws(r);
        if check_chars && crate::agent_tools::has_forbidden_char(t) {
            let i = choose|i: int| 0 <= i < t.len() && #[trigger] crate::agent_tools::is_forbidden_char(t[i]);
            assert(t[i] == ';' || t[i] == '\'' || t[i] == '"' || t[i] == '\\');
        }
        if check_chars && !crate::agent_tools::has_forbidden_char(t) {
            assert forall|i: int| 0 <= i < t.len() implies #[trigger] t[i] != ';' && t[i] != '\''
                && t[i] != '"' && t[i] != '\\' by {
                assert(!crate::agent_tools::is_forbidden_char(t[i]));
            }
        }
    }
}

/// A query is accepted exactly when, trimmed of whitespace, it is not
/// empty; what is accepted is the trimmed query.
pub proof fn law_query_acceptance(raw: Option<Seq<char>>, missing: Seq<char>)
    ensures
        raw is None ==> check_sql(raw, missing) == Err::<Seq<char>, Seq<char>>(missing),
        raw is Some ==> (check_sql(raw, missing) is Ok <==> trim_ws(raw->Some_0).len() > 0),
        check_sql(raw, missing) matches Ok(q) ==> q == trim_ws(raw->Some_0),
{
}

} // verus!
