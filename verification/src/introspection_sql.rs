//! The catalog queries that list a table's foreign keys and indexes, for
//! each database family.
use vstd::prelude::*;
use crate::text::{push_str, string_from_chars};

verus! {

/// The database engines that the tools know. `Other` stands for an engine
/// that has no catalog query here, by the name that `{:?}` gives it.
#[derive(Clone, Debug)]
pub enum DatabaseType {
    Postgres,
    Redshift,
    OpenGauss,
    Gaussdb,
    Vastbase,
    Kingbase,
    Mysql,
    Doris,
    StarRocks,
    Sqlite,
    Rqlite,
    Turso,
    SqlServer,
    Oracle,
    Other(String),
}

/// Engines that speak the PostgreSQL catalog.
pub open spec fn is_postgres_family(db: DatabaseType) -> bool {
    db == DatabaseType::Postgres || db == DatabaseType::Redshift || db == DatabaseType::OpenGauss
        || db == DatabaseType::Gaussdb || db == DatabaseType::Vastbase || db
        == DatabaseType::Kingbase
}

/// Engines that speak the MySQL catalog.
pub open spec fn is_mysql_family(db: DatabaseType) -> bool {
    db == DatabaseType::Mysql || db == DatabaseType::Doris || db == DatabaseType::StarRocks
}

/// Engines that speak the SQLite pragmas.
pub open spec fn is_sqlite_family(db: DatabaseType) -> bool {
    db == DatabaseType::Sqlite || db == DatabaseType::Rqlite || db == DatabaseType::Turso
}

/// The Unicode upper-case mapping of `s` (`str::to_uppercase`).
pub uninterp spec fn unicode_upper(s: Seq<char>) -> Seq<char>;

/// `str::to_uppercase`: the string mapped to upper case by Unicode's rules.
/// The result is named by `unicode_upper`; nothing more of it is stated.
#[verifier::external_body]
fn to_uppercase(s: &str) -> (r: String)
    ensures
        r@ == unicode_upper(s@),
{
    s.to_uppercase()
}

/// The schema that the PostgreSQL-family queries look in: `public` when none
/// is given.
pub open spec fn pg_schema(schema: Seq<char>) -> Seq<char> {
    if schema.len() == 0 {
        "public"@
    } else {
        schema
    }
}

/// The owner that the Oracle queries look in: the upper-cased schema, or
/// the upper-cased database when no schema is given.
pub open spec fn oracle_owner(schema: Seq<char>, database: Seq<char>) -> Seq<char> {
    if schema.len() == 0 {
        unicode_upper(database)
    } else {
        unicode_upper(schema)
    }
}

/// The Oracle foreign-key catalog query for `table` in the schema of
/// `owner`.
pub open spec fn oracle_fk_text(table: Seq<char>, owner: Seq<char>) -> Seq<char> {
    "SELECT acc.column_name, ac2.table_name AS referenced_table, \
                 acc2.column_name AS referenced_column, ac.delete_rule \
                 FROM all_constraints ac \
                 JOIN all_cons_columns acc ON ac.constraint_name = acc.constraint_name AND ac.owner = acc.owner \
                 JOIN all_constraints ac2 ON ac.r_constraint_name = ac2.constraint_name AND ac.r_owner = ac2.owner \
                 JOIN all_cons_columns acc2 ON ac2.constraint_name = acc2.constraint_name AND ac2.owner = acc2.owner \
                 WHERE ac.constraint_type = 'R' \
                 AND ac.owner = '"@
                + owner + "' AND ac.table_name = UPPER('"@ + table
                + "')"@
}

/// The Oracle index catalog query for `table` in the schema of `owner`.
pub open spec fn oracle_index_text(table: Seq<char>, owner: Seq<char>) -> Seq<char> {
    "SELECT ai.index_name, aic.column_name, ai.uniqueness, \
                 CASE WHEN ac.constraint_type = 'P' THEN 'YES' ELSE 'NO' END AS is_primary, \
                 ai.index_type \
                 FROM all_indexes ai \
                 JOIN all_ind_columns aic ON ai.index_name = aic.index_name AND ai.owner = aic.index_owner \
                 LEFT JOIN all_constraints ac ON ai.index_name = ac.index_name AND ai.owner = ac.owner AND ac.constraint_type = 'P' \
                 WHERE ai.owner = '"@
                + owner + "' AND ai.table_name = UPPER('"@ + table
                + "') \
                 ORDER BY ai.index_name, aic.column_position"@
}

/// The foreign-key catalog query for `table`, or nothing for engines
/// without one.
pub open spec fn fk_sql(table: Seq<char>, schema: Seq<char>, database: Seq<char>, db: DatabaseType) -> Option<
    Seq<char>,
> {
    if is_postgres_family(db) {
        Some(
            "SELECT kcu.column_name, ccu.table_schema AS referenced_schema, \
                 ccu.table_name AS referenced_table, ccu.column_name AS referenced_column, \
                 rc.delete_rule, rc.update_rule \
                 FROM information_schema.table_constraints tc \
                 JOIN information_schema.key_column_usage kcu \
                 ON tc.constraint_name = kcu.constraint_name AND tc.table_schema = kcu.table_schema \
                 JOIN information_schema.referential_constraints rc \
                 ON tc.constraint_name = rc.constraint_name \
                 JOIN information_schema.constraint_column_usage ccu \
                 ON rc.unique_constraint_name = ccu.constraint_name \
                 WHERE tc.constraint_type = 'FOREIGN KEY' \
                 AND tc.table_schema = '"@
                + pg_schema(schema) + "' AND tc.table_name = '"@ + table + "'"@,
        )
    } else if is_mysql_family(db) {
        Some(
            "SELECT kcu.column_name, kcu.referenced_table_schema, kcu.referenced_table_name, \
             kcu.referenced_column_name, rc.delete_rule, rc.update_rule \
             FROM information_schema.key_column_usage kcu \
             JOIN information_schema.referential_constraints rc \
             ON kcu.constraint_name = rc.constraint_name \
             AND kcu.constraint_schema = rc.constraint_schema \
             WHERE kcu.table_schema = '"@
                + database + "' AND kcu.table_name = '"@ + table
                + "' \
             AND kcu.referenced_table_name IS NOT NULL"@,
        )
    } else if is_sqlite_family(db) {
        Some("PRAGMA foreign_key_list('"@ + table + "')"@)
    } else if db == DatabaseType::SqlServer {
        Some(
            "SELECT fkc.name AS column_name, rt.name AS referenced_table, \
             rc.name AS referenced_column, \
             fk.delete_referential_action_desc AS delete_rule, \
             fk.update_referential_action_desc AS update_rule \
             FROM sys.foreign_keys fk \
             JOIN sys.foreign_key_columns fkcc ON fk.object_id = fkcc.constraint_object_id \
             JOIN sys.columns fkc ON fkcc.parent_column_id = fkc.column_id AND fkcc.parent_object_id = fkc.object_id \
             JOIN sys.tables rt ON fkcc.referenced_object_id = rt.object_id \
             JOIN sys.columns rc ON fkcc.referenced_column_id = rc.column_id AND fkcc.referenced_object_id = rc.object_id \
             WHERE OBJECT_NAME(fk.parent_object_id) = '"@
                + table + "'"@,
        )
    } else if db == DatabaseType::Oracle {
        Some(oracle_fk_text(table, oracle_owner(schema, database)))
    } else {
        None
    }
}

/// The index catalog query for `table`, or nothing for engines without one.
pub open spec fn index_sql(table: Seq<char>, schema: Seq<char>, database: Seq<char>, db: DatabaseType) -> Option<
    Seq<char>,
> {
    if is_postgres_family(db) {
        Some(
            "SELECT pi.indexname, pi.indexdef, \
                 CASE WHEN ix.indisunique THEN 'YES' ELSE 'NO' END AS is_unique, \
                 CASE WHEN ix.indisprimary THEN 'YES' ELSE 'NO' END AS is_primary \
                 FROM pg_indexes pi \
                 JOIN pg_class c ON c.relname = pi.tablename \
                 JOIN pg_index ix ON c.oid = ix.indrelid \
                 JOIN pg_class ic ON ic.oid = ix.indexrelid AND ic.relname = pi.indexname \
                 WHERE pi.schemaname = '"@
                + pg_schema(schema) + "' AND pi.tablename = '"@ + table + "'"@,
        )
    } else if is_mysql_family(db) {
        Some(
            "SELECT index_name, GROUP_CONCAT(column_name ORDER BY seq_in_index) AS columns, \
             IF(non_unique=0,'YES','NO') AS is_unique, index_type \
             FROM information_schema.statistics \
             WHERE table_schema = '"@
                + database + "' AND table_name = '"@ + table
                + "' \
             GROUP BY index_name, non_unique, index_type"@,
        )
    } else if is_sqlite_family(db) {
        Some("PRAGMA index_list('"@ + table + "')"@)
    } else if db == DatabaseType::SqlServer {
        Some(
            "SELECT i.name AS index_name, \
             STRING_AGG(c.name, ', ') WITHIN GROUP (ORDER BY ic.key_ordinal) AS columns, \
             CASE WHEN i.is_unique = 1 THEN 'YES' ELSE 'NO' END AS is_unique, \
             CASE WHEN i.is_primary_key = 1 THEN 'YES' ELSE 'NO' END AS is_primary, \
             i.type_desc AS index_type \
             FROM sys.indexes i \
             JOIN sys.index_columns ic ON i.object_id = ic.object_id AND i.index_id = ic.index_id \
             JOIN sys.columns c ON ic.object_id = c.object_id AND ic.column_id = c.column_id \
             WHERE OBJECT_NAME(i.object_id) = '"@
                + table
                + "' AND i.is_hypothetical = 0 \
             GROUP BY i.name, i.is_unique, i.is_primary_key, i.type_desc"@,
        )
    } else if db == DatabaseType::Oracle {
        Some(oracle_index_text(table, oracle_owner(schema, database)))
    } else {
        None
    }
}

/// Exec form of `pg_schema`, appended to `out`.
fn push_pg_schema(out: &mut Vec<char>, schema: &str)
    ensures
        final(out)@ == old(out)@ + pg_schema(schema@),
{
    if schema.is_empty() {
        push_str(out, "public");
    } else {
        push_str(out, schema);
    }
}

/// The owner that the Oracle queries look in (see `oracle_owner`).
fn oracle_owner_of(schema: &str, database: &str) -> (owner: String)
    ensures
        owner@ == oracle_owner(schema@, database@),
{
    if schema.is_empty() {
        to_uppercase(database)
    } else {
        to_uppercase(schema)
    }
}

/// The Oracle foreign-key query for `table` in the schema of `owner` (see
/// `oracle_fk_text`).
pub fn build_oracle_fk_sql(table: &str, owner: &str) -> (sql: String)
    ensures
        sql@ == oracle_fk_text(table@, owner@),
{
    let mut out: Vec<char> = Vec::new();
    push_str(
        &mut out,
        "SELECT acc.column_name, ac2.table_name AS referenced_table, \
                 acc2.column_name AS referenced_column, ac.delete_rule \
                 FROM all_constraints ac \
                 JOIN all_cons_columns acc ON ac.constraint_name = acc.constraint_name AND ac.owner = acc.owner \
                 JOIN all_constraints ac2 ON ac.r_constraint_name = ac2.constraint_name AND ac.r_owner = ac2.owner \
                 JOIN all_cons_columns acc2 ON ac2.constraint_name = acc2.constraint_name AND ac2.owner = acc2.owner \
                 WHERE ac.constraint_type = 'R' \
                 AND ac.owner = '",
    );
    push_str(&mut out, owner);
    push_str(&mut out, "' AND ac.table_name = UPPER('");
    push_str(&mut out, table);
    push_str(&mut out, "')");
    string_from_chars(&out)
}

/// The Oracle index query for `table` in the schema of `owner` (see
/// `oracle_index_text`).
pub fn build_oracle_index_sql(table: &str, owner: &str) -> (sql: String)
    ensures
        sql@ == oracle_index_text(table@, owner@),
{
    let mut out: Vec<char> = Vec::new();
    push_str(
        &mut out,
        "SELECT ai.index_name, aic.column_name, ai.uniqueness, \
                 CASE WHEN ac.constraint_type = 'P' THEN 'YES' ELSE 'NO' END AS is_primary, \
                 ai.index_type \
                 FROM all_indexes ai \
                 JOIN all_ind_columns aic ON ai.index_name = aic.index_name AND ai.owner = aic.index_owner \
                 LEFT JOIN all_constraints ac ON ai.index_name = ac.index_name AND ai.owner = ac.owner AND ac.constraint_type = 'P' \
                 WHERE ai.owner = '",
    );
    push_str(&mut out, owner);
    push_str(&mut out, "' AND ai.table_name = UPPER('");
    push_str(&mut out, table);
    push_str(
        &mut out,
        "') \
                 ORDER BY ai.index_name, aic.column_position",
    );
    string_from_chars(&out)
}

/// The SQL that lists the foreign keys of `table` (see `fk_sql`).
pub fn build_fk_sql(table: &str, schema: &str, database: &str, db_type: &DatabaseType) -> (r: Option<
    String,
>)
    ensures
        match r {
            Some(s) => fk_sql(table@, schema@, database@, *db_type) == Some(s@),
            None => fk_sql(table@, schema@, database@, *db_type) is None,
        },
{
    let mut out: Vec<char> = Vec::new();
    match db_type {
        DatabaseType::Postgres | DatabaseType::Redshift | DatabaseType::OpenGauss
        | DatabaseType::Gaussdb | DatabaseType::Vastbase | DatabaseType::Kingbase => {
            push_str(
                &mut out,
                "SELECT kcu.column_name, ccu.table_schema AS referenced_schema, \
                 ccu.table_name AS referenced_table, ccu.column_name AS referenced_column, \
                 rc.delete_rule, rc.update_rule \
                 FROM information_schema.table_constraints tc \
                 JOIN information_schema.key_column_usage kcu \
                 ON tc.constraint_name = kcu.constraint_name AND tc.table_schema = kcu.table_schema \
                 JOIN information_schema.referential_constraints rc \
                 ON tc.constraint_name = rc.constraint_name \
                 JOIN information_schema.constraint_column_usage ccu \
                 ON rc.unique_constraint_name = ccu.constraint_name \
                 WHERE tc.constraint_type = 'FOREIGN KEY' \
                 AND tc.table_schema = '",
            );
            push_pg_schema(&mut out, schema);
            push_str(&mut out, "' AND tc.table_name = '");
            push_str(&mut out, table);
            push_str(&mut out, "'");
        },
        DatabaseType::Mysql | DatabaseType::Doris | DatabaseType::StarRocks => {
            push_str(
                &mut out,
                "SELECT kcu.column_name, kcu.referenced_table_schema, kcu.referenced_table_name, \
             kcu.referenced_column_name, rc.delete_rule, rc.update_rule \
             FROM information_schema.key_column_usage kcu \
             JOIN information_schema.referential_constraints rc \
             ON kcu.constraint_name = rc.constraint_name \
             AND kcu.constraint_schema = rc.constraint_schema \
             WHERE kcu.table_schema = '",
            );
            push_str(&mut out, database);
            push_str(&mut out, "' AND kcu.table_name = '");
            push_str(&mut out, table);
            push_str(
                &mut out,
                "' \
             AND kcu.referenced_table_name IS NOT NULL",
            );
        },
        DatabaseType::Sqlite | DatabaseType::Rqlite | DatabaseType::Turso => {
            push_str(&mut out, "PRAGMA foreign_key_list('");
            push_str(&mut out, table);
            push_str(&mut out, "')");
        },
        DatabaseType::SqlServer => {
            push_str(
                &mut out,
                "SELECT fkc.name AS column_name, rt.name AS referenced_table, \
             rc.name AS referenced_column, \
             fk.delete_referential_action_desc AS delete_rule, \
             fk.update_referential_action_desc AS update_rule \
             FROM sys.foreign_keys fk \
             JOIN sys.foreign_key_columns fkcc ON fk.object_id = fkcc.constraint_object_id \
             JOIN sys.columns fkc ON fkcc.parent_column_id = fkc.column_id AND fkcc.parent_object_id = fkc.object_id \
             JOIN sys.tables rt ON fkcc.referenced_object_id = rt.object_id \
             JOIN sys.columns rc ON fkcc.referenced_column_id = rc.column_id AND fkcc.referenced_object_id = rc.object_id \
             WHERE OBJECT_NAME(fk.parent_object_id) = '",
            );
            push_str(&mut out, table);
            push_str(&mut out, "'");
        },
        DatabaseType::Oracle => {
            let owner = oracle_owner_of(schema, database);
            return Some(build_oracle_fk_sql(table, owner.as_str()));
        },
        DatabaseType::Other(_) => {
            return None;
        },
    }
    Some(string_from_chars(&out))
}

/// The SQL that lists the indexes of `table` (see `index_sql`).
pub fn build_index_sql(table: &str, schema: &str, database: &str, db_type: &DatabaseType) -> (r: Option<
    String,
>)
    ensures
        match r {
            Some(s) => index_sql(table@, schema@, database@, *db_type) == Some(s@),
            None => index_sql(table@, schema@, database@, *db_type) is None,
        },
{
    let mut out: Vec<char> = Vec::new();
    match db_type {
        DatabaseType::Postgres | DatabaseType::Redshift | DatabaseType::OpenGauss
        | DatabaseType::Gaussdb | DatabaseType::Vastbase | DatabaseType::Kingbase => {
            push_str(
                &mut out,
                "SELECT pi.indexname, pi.indexdef, \
                 CASE WHEN ix.indisunique THEN 'YES' ELSE 'NO' END AS is_unique, \
                 CASE WHEN ix.indisprimary THEN 'YES' ELSE 'NO' END AS is_primary \
                 FROM pg_indexes pi \
                 JOIN pg_class c ON c.relname = pi.tablename \
                 JOIN pg_index ix ON c.oid = ix.indrelid \
                 JOIN pg_class ic ON ic.oid = ix.indexrelid AND ic.relname = pi.indexname \
                 WHERE pi.schemaname = '",
            );
            push_pg_schema(&mut out, schema);
            push_str(&mut out, "' AND pi.tablename = '");
            push_str(&mut out, table);
            push_str(&mut out, "'");
        },
        DatabaseType::Mysql | DatabaseType::Doris | DatabaseType::StarRocks => {
            push_str(
                &mut out,
                "SELECT index_name, GROUP_CONCAT(column_name ORDER BY seq_in_index) AS columns, \
             IF(non_unique=0,'YES','NO') AS is_unique, index_type \
             FROM information_schema.statistics \
             WHERE table_schema = '",
            );
            push_str(&mut out, database);
            push_str(&mut out, "' AND table_name = '");
            push_str(&mut out, table);
            push_str(
                &mut out,
                "' \
             GROUP BY index_name, non_unique, index_type",
            );
        },
        DatabaseType::Sqlite | DatabaseType::Rqlite | DatabaseType::Turso => {
            push_str(&mut out, "PRAGMA index_list('");
            push_str(&mut out, table);
            push_str(&mut out, "')");
        },
        DatabaseType::SqlServer => {
            push_str(
                &mut out,
                "SELECT i.name AS index_name, \
             STRING_AGG(c.name, ', ') WITHIN GROUP (ORDER BY ic.key_ordinal) AS columns, \
             CASE WHEN i.is_unique = 1 THEN 'YES' ELSE 'NO' END AS is_unique, \
             CASE WHEN i.is_primary_key = 1 THEN 'YES' ELSE 'NO' END AS is_primary, \
             i.type_desc AS index_type \
             FROM sys.indexes i \
             JOIN sys.index_columns ic ON i.object_id = ic.object_id AND i.index_id = ic.index_id \
             JOIN sys.columns c ON ic.object_id = c.object_id AND ic.column_id = c.column_id \
             WHERE OBJECT_NAME(i.object_id) = '",
            );
            push_str(&mut out, table);
            push_str(
                &mut out,
                "' AND i.is_hypothetical = 0 \
             GROUP BY i.name, i.is_unique, i.is_primary_key, i.type_desc",
            );
        },
        DatabaseType::Oracle => {
            let owner = oracle_owner_of(schema, database);
            return Some(build_oracle_index_sql(table, owner.as_str()));
        },
        DatabaseType::Other(_) => {
            return None;
        },
    }
    Some(string_from_chars(&out))
}

} // verus!
