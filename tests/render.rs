use quack_prototype::duck::{df_name_of, DuckConnection, DuckTableRef};
use quack_prototype::error::Error;
use quack_prototype::query::{col, column_query, Expr, Literal, Query};
use std::collections::HashSet;

#[test]
fn literals_render() {
    assert_eq!(Literal::Null.to_sql(), "NULL");
    assert_eq!(Literal::Bool(true).to_sql(), "true");
    assert_eq!(Literal::Bool(false).to_sql(), "false");
    assert_eq!(Literal::Int(0).to_sql(), "0");
    assert_eq!(Literal::Int(1).to_sql(), "1");
    assert_eq!(Literal::Int(-42).to_sql(), "-42");
    assert_eq!(Literal::Int(1234567890).to_sql(), "1234567890");
    assert_eq!(Literal::Int(i64::MAX).to_sql(), i64::MAX.to_string());
    assert_eq!(Literal::Int(i64::MIN).to_sql(), i64::MIN.to_string());
    assert_eq!(Literal::Float(1.5f64.to_string()).to_sql(), "1.5");
    assert_eq!(Literal::String("it's".to_string()).to_sql(), "'it's'");
}

#[test]
fn expressions_render() {
    assert_eq!(col("select").to_sql(), "\"select\"");
    let sum = Expr::Add(Box::new(col("price")), Box::new(Expr::Literal(Literal::Int(1))));
    assert_eq!(sum.to_sql(), "(\"price\" + 1)");
    let nested = Expr::Add(
        Box::new(sum),
        Box::new(Expr::Add(Box::new(col("a")), Box::new(col("b")))),
    );
    assert_eq!(nested.to_sql(), "((\"price\" + 1) + (\"a\" + \"b\"))");
    let alias = Expr::Alias(Box::new(nested), "total".to_string());
    assert_eq!(alias.to_sql(), "((\"price\" + 1) + (\"a\" + \"b\")) AS total");
}

#[test]
fn queries_render() {
    let q = Query::default().select(vec![col("a"), col("b")]);
    assert_eq!(q.to_sql("src"), "SELECT \"a\", \"b\" FROM src");
    let q = q.select(vec![Expr::Literal(Literal::Null)]);
    assert_eq!(q.to_sql("\"df_3\""), "SELECT NULL FROM \"df_3\"");
    assert_eq!(Query::default().to_sql("t"), "SELECT  FROM t");
    assert_eq!(column_query(&["x", "y", "z"]).to_sql("t"), "SELECT \"x\", \"y\", \"z\" FROM t");
    assert_eq!(column_query(&["b"]).selection, vec![col("b")]);
}

#[test]
fn table_refs_render() {
    assert_eq!(DuckTableRef::InMemory("df_7".to_string()).to_sql(), "\"df_7\"");
    assert_eq!(DuckTableRef::Parquet("/d/p.parquet".to_string()).to_sql(), "'/d/p.parquet'");
}

#[test]
fn names_count_up() {
    assert_eq!(df_name_of(0), "df_0");
    assert_eq!(df_name_of(10), "df_10");
    assert_eq!(df_name_of(u64::MAX), format!("df_{}", u64::MAX));
    let c = DuckConnection::open_in_memory();
    assert_eq!(c.next_df_name(), "df_0");
    assert_eq!(c.next_df_name(), "df_1");
    assert_eq!(c.in_memory_ref(), DuckTableRef::InMemory("df_2".to_string()));
}

#[test]
fn names_are_pairwise_distinct() {
    let c = DuckConnection::open_in_memory();
    let mut seen = HashSet::new();
    for _ in 0..1000 {
        assert!(seen.insert(c.next_df_name()));
    }
    assert_eq!(seen.len(), 1000);
}

#[test]
fn statements_have_their_shapes() {
    let c = DuckConnection::open_in_memory();
    let file = c.parquet_ref("prices.parquet".to_string());
    assert_eq!(file, DuckTableRef::Parquet("prices.parquet".to_string()));
    assert_eq!(c.describe_statement(&file), "DESCRIBE TABLE 'prices.parquet'");
    assert_eq!(c.drop_statement(&file), None);
    assert_eq!(c.clone_plan(&file), (file.clone(), None));

    let q = Query::default().select(vec![col("when"), col("price")]);
    let (name, sql) = c.exec_plan(&q, &file);
    assert_eq!(name, "df_0");
    assert_eq!(sql, "CREATE TABLE df_0 AS SELECT \"when\", \"price\" FROM 'prices.parquet'");

    let table = DuckTableRef::InMemory(name);
    assert_eq!(c.describe_statement(&table), "DESCRIBE TABLE \"df_0\"");
    assert_eq!(c.drop_statement(&table), Some("DROP TABLE df_0".to_string()));
    assert_eq!(
        c.clone_plan(&table),
        (
            DuckTableRef::InMemory("df_1".to_string()),
            Some("CREATE TABLE df_1 AS SELECT * FROM df_0".to_string())
        )
    );
    let (_, sql) = c.exec_plan(&Query::default().select(vec![col("when")]), &table);
    assert_eq!(sql, "CREATE TABLE df_2 AS SELECT \"when\" FROM \"df_0\"");
}

#[test]
fn engine_outcomes_map() {
    assert_eq!(
        DuckConnection::exec_outcome("df_4".to_string(), Ok(3)),
        Ok(DuckTableRef::InMemory("df_4".to_string()))
    );
    assert_eq!(
        DuckConnection::exec_outcome("df_4".to_string(), Err("bad".to_string())),
        Err(Error::DuckDB("bad".to_string()))
    );
    let cols = vec![("a".to_string(), "INTEGER".to_string())];
    assert_eq!(DuckConnection::metadata_outcome(Ok(cols.clone())), Ok(cols));
    assert_eq!(
        DuckConnection::metadata_outcome(Err("gone".to_string())),
        Err(Error::DuckDB("gone".to_string()))
    );
}
