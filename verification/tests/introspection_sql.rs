use dbx_core::introspection_sql::{build_fk_sql, build_index_sql, build_oracle_fk_sql, build_oracle_index_sql, DatabaseType};

fn expected_pg_fk(schema: &str, table: &str) -> String {
    format!(
        "SELECT kcu.column_name, ccu.table_schema AS referenced_schema, \
         ccu.table_name AS referenced_table, ccu.column_name AS referenced_column, \
         rc.delete_rule, rc.update_rule \
         FROM information_schema.table_constraints tc \
         JOIN information_schema.key_column_usage kcu \
         ON tc.constraint_name = kcu.constraint_name AND tc.table_schema = kcu.table_schema \
         JOIN information_schema.referential_constraints rc \
         ON tc.constraint_name = rc.constraint_name \
         JOIN information_schema.constraint_column_usage ccu \
         ON rc.unique_constraint_name = ccu.constraint_name \
         WHERE tc.constraint_type = 'FOREIGN KEY' \
         AND tc.table_schema = '{schema}' AND tc.table_name = '{table}'"
    )
}

#[test]
fn fk_sql_postgres_family_defaults_to_public() {
    for db in [DatabaseType::Postgres, DatabaseType::Redshift, DatabaseType::OpenGauss, DatabaseType::Gaussdb, DatabaseType::Vastbase, DatabaseType::Kingbase] {
        assert_eq!(build_fk_sql("orders", "", "shop", &db), Some(expected_pg_fk("public", "orders")));
        assert_eq!(build_fk_sql("orders", "sales", "shop", &db), Some(expected_pg_fk("sales", "orders")));
    }
}

#[test]
fn fk_sql_mysql_family_uses_database() {
    let expected = format!(
        "SELECT kcu.column_name, kcu.referenced_table_schema, kcu.referenced_table_name, \
         kcu.referenced_column_name, rc.delete_rule, rc.update_rule \
         FROM information_schema.key_column_usage kcu \
         JOIN information_schema.referential_constraints rc \
         ON kcu.constraint_name = rc.constraint_name \
         AND kcu.constraint_schema = rc.constraint_schema \
         WHERE kcu.table_schema = '{database}' AND kcu.table_name = '{table}' \
         AND kcu.referenced_table_name IS NOT NULL",
        database = "shop",
        table = "orders"
    );
    for db in [DatabaseType::Mysql, DatabaseType::Doris, DatabaseType::StarRocks] {
        assert_eq!(build_fk_sql("orders", "ignored", "shop", &db), Some(expected.clone()));
    }
}

#[test]
fn fk_and_index_sql_sqlite_family_use_pragmas() {
    for db in [DatabaseType::Sqlite, DatabaseType::Rqlite, DatabaseType::Turso] {
        assert_eq!(build_fk_sql("orders", "", "", &db), Some("PRAGMA foreign_key_list('orders')".to_string()));
        assert_eq!(build_index_sql("orders", "", "", &db), Some("PRAGMA index_list('orders')".to_string()));
    }
}

#[test]
fn fk_sql_sql_server() {
    let table = "orders";
    let expected = format!(
        "SELECT fkc.name AS column_name, rt.name AS referenced_table, \
         rc.name AS referenced_column, \
         fk.delete_referential_action_desc AS delete_rule, \
         fk.update_referential_action_desc AS update_rule \
         FROM sys.foreign_keys fk \
         JOIN sys.foreign_key_columns fkcc ON fk.object_id = fkcc.constraint_object_id \
         JOIN sys.columns fkc ON fkcc.parent_column_id = fkc.column_id AND fkcc.parent_object_id = fkc.object_id \
         JOIN sys.tables rt ON fkcc.referenced_object_id = rt.object_id \
         JOIN sys.columns rc ON fkcc.referenced_column_id = rc.column_id AND fkcc.referenced_object_id = rc.object_id \
         WHERE OBJECT_NAME(fk.parent_object_id) = '{table}'"
    );
    assert_eq!(build_fk_sql(table, "", "", &DatabaseType::SqlServer), Some(expected));
}

#[test]
fn fk_sql_oracle_upper_cases_owner() {
    let expected = |schema_upper: &str, table: &str| {
        format!(
            "SELECT acc.column_name, ac2.table_name AS referenced_table, \
             acc2.column_name AS referenced_column, ac.delete_rule \
             FROM all_constraints ac \
             JOIN all_cons_columns acc ON ac.constraint_name = acc.constraint_name AND ac.owner = acc.owner \
             JOIN all_constraints ac2 ON ac.r_constraint_name = ac2.constraint_name AND ac.r_owner = ac2.owner \
             JOIN all_cons_columns acc2 ON ac2.constraint_name = acc2.constraint_name AND ac2.owner = acc2.owner \
             WHERE ac.constraint_type = 'R' \
             AND ac.owner = '{schema_upper}' AND ac.table_name = UPPER('{table}')"
        )
    };
    assert_eq!(build_fk_sql("orders", "", "hr", &DatabaseType::Oracle), Some(expected("HR", "orders")));
    assert_eq!(build_fk_sql("orders", "scott", "hr", &DatabaseType::Oracle), Some(expected("SCOTT", "orders")));
    assert_eq!(build_fk_sql("orders", "stra\u{df}e", "hr", &DatabaseType::Oracle), Some(expected("STRASSE", "orders")));
    // the owner is used as given once it is upper-cased
    assert_eq!(build_oracle_fk_sql("orders", "Hr"), expected("Hr", "orders"));
}

#[test]
fn index_sql_per_family() {
    let table = "users";
    let schema = "public";
    let pg = format!(
        "SELECT pi.indexname, pi.indexdef, \
         CASE WHEN ix.indisunique THEN 'YES' ELSE 'NO' END AS is_unique, \
         CASE WHEN ix.indisprimary THEN 'YES' ELSE 'NO' END AS is_primary \
         FROM pg_indexes pi \
         JOIN pg_class c ON c.relname = pi.tablename \
         JOIN pg_index ix ON c.oid = ix.indrelid \
         JOIN pg_class ic ON ic.oid = ix.indexrelid AND ic.relname = pi.indexname \
         WHERE pi.schemaname = '{schema}' AND pi.tablename = '{table}'"
    );
    assert_eq!(build_index_sql(table, "", "app", &DatabaseType::Postgres), Some(pg));
    let database = "app";
    let my = format!(
        "SELECT index_name, GROUP_CONCAT(column_name ORDER BY seq_in_index) AS columns, \
         IF(non_unique=0,'YES','NO') AS is_unique, index_type \
         FROM information_schema.statistics \
         WHERE table_schema = '{database}' AND table_name = '{table}' \
         GROUP BY index_name, non_unique, index_type"
    );
    assert_eq!(build_index_sql(table, "", database, &DatabaseType::Doris), Some(my));
    let ms = format!(
        "SELECT i.name AS index_name, \
         STRING_AGG(c.name, ', ') WITHIN GROUP (ORDER BY ic.key_ordinal) AS columns, \
         CASE WHEN i.is_unique = 1 THEN 'YES' ELSE 'NO' END AS is_unique, \
         CASE WHEN i.is_primary_key = 1 THEN 'YES' ELSE 'NO' END AS is_primary, \
         i.type_desc AS index_type \
         FROM sys.indexes i \
         JOIN sys.index_columns ic ON i.object_id = ic.object_id AND i.index_id = ic.index_id \
         JOIN sys.columns c ON ic.object_id = c.object_id AND ic.column_id = c.column_id \
         WHERE OBJECT_NAME(i.object_id) = '{table}' AND i.is_hypothetical = 0 \
         GROUP BY i.name, i.is_unique, i.is_primary_key, i.type_desc"
    );
    assert_eq!(build_index_sql(table, "", database, &DatabaseType::SqlServer), Some(ms));
    let schema_upper = "APP";
    let ora = format!(
        "SELECT ai.index_name, aic.column_name, ai.uniqueness, \
         CASE WHEN ac.constraint_type = 'P' THEN 'YES' ELSE 'NO' END AS is_primary, \
         ai.index_type \
         FROM all_indexes ai \
         JOIN all_ind_columns aic ON ai.index_name = aic.index_name AND ai.owner = aic.index_owner \
         LEFT JOIN all_constraints ac ON ai.index_name = ac.index_name AND ai.owner = ac.owner AND ac.constraint_type = 'P' \
         WHERE ai.owner = '{schema_upper}' AND ai.table_name = UPPER('{table}') \
         ORDER BY ai.index_name, aic.column_position"
    );
    assert_eq!(build_index_sql(table, "", database, &DatabaseType::Oracle), Some(ora.clone()));
    assert_eq!(build_oracle_index_sql(table, "APP"), ora);
}

#[test]
fn unsupported_database_has_no_catalog_query() {
    assert_eq!(build_fk_sql("t", "", "", &DatabaseType::Other("ClickHouse".to_string())), None);
    assert_eq!(build_index_sql("t", "", "", &DatabaseType::Other("ClickHouse".to_string())), None);
}
