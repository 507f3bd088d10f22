use njord::sqlite::order::OrderBy;
use njord::sqlite::query::QueryBuilder;
use njord::sqlite::{Condition, Operator};
use njord::table::Table;
use njord::value::Value;

#[derive(Default)]
struct User;

impl Table for User {
    fn get_name(&self) -> &str {
        "users"
    }

    fn get_column_fields(&self) -> Vec<String> {
        vec!["id".to_string(), "name".to_string()]
    }

    fn get_column_values(&self) -> Vec<Value> {
        vec![Value::Null, Value::Null]
    }

    fn set_column_value(&mut self, _column: &str, _value: Value) {}
}

fn strings(parts: &[&str]) -> Vec<String> {
    parts.iter().map(|part| part.to_string()).collect()
}

fn users(columns: &[&str]) -> QueryBuilder {
    QueryBuilder::new(strings(columns)).from(&User)
}

fn id_is(id: i64) -> Condition {
    Condition::compare("id", Operator::Eq, Value::Integer(id))
}

#[test]
fn select_with_one_filter() {
    let sql = QueryBuilder::new(Vec::new())
        .select(strings(&["id", "name"]))
        .from(&User)
        .where_clause(id_is(5))
        .build();
    assert_eq!(sql, "SELECT id, name FROM users WHERE id = 5");
}

#[test]
fn select_without_any_option() {
    assert_eq!(users(&["id", "name"]).build(), "SELECT id, name FROM users");
}

#[test]
fn select_replaces_the_columns() {
    assert_eq!(users(&["id"]).select(strings(&["name"])).build(), "SELECT name FROM users");
}

#[test]
fn from_takes_a_trait_object_or_a_name() {
    let table: &dyn Table = &User;
    assert_eq!(QueryBuilder::new(strings(&["id"])).from(table).build(), "SELECT id FROM users");
    assert_eq!(
        QueryBuilder::new(strings(&["id"])).from_name("people").build(),
        "SELECT id FROM people"
    );
}

#[test]
fn distinct_stands_before_the_columns() {
    assert_eq!(users(&["name"]).distinct().build(), "SELECT DISTINCT name FROM users");
}

#[test]
fn every_clause_in_its_place() {
    let mut order = OrderBy::new();
    order.insert(strings(&["name"]), "ASC".to_string());
    order.insert(strings(&["id", "age"]), "DESC".to_string());
    let sql = users(&["id", "name"])
        .offset(20)
        .limit(10)
        .order_by(order)
        .having(Condition::compare("age", Operator::Gt, Value::Integer(18)))
        .group_by(strings(&["name", "age"]))
        .where_clause(id_is(1).or(id_is(2)))
        .distinct()
        .build();
    assert_eq!(
        sql,
        "SELECT DISTINCT id, name FROM users WHERE (id = 1 OR id = 2) GROUP BY name, age \
         HAVING age > 18 ORDER BY name ASC, id, age DESC LIMIT 10 OFFSET 20"
    );
}

#[test]
fn having_without_group_by_is_dropped() {
    let with_having = users(&["id"]).having(id_is(1)).build();
    assert_eq!(with_having, "SELECT id FROM users");
    assert_eq!(with_having, users(&["id"]).build());
    assert!(!with_having.contains("HAVING"));
}

#[test]
fn having_with_group_by_is_compiled() {
    let sql = users(&["id"]).having(id_is(1)).group_by(strings(&["id"])).build();
    assert_eq!(sql, "SELECT id FROM users GROUP BY id HAVING id = 1");
}

#[test]
fn group_by_without_having() {
    assert_eq!(
        users(&["id"]).group_by(strings(&["a", "b"])).build(),
        "SELECT id FROM users GROUP BY a, b"
    );
}

#[test]
fn one_condition_serves_where_and_having() {
    let condition = id_is(7);
    let sql = users(&["id"])
        .where_clause(condition.clone())
        .group_by(strings(&["id"]))
        .having(condition)
        .build();
    assert_eq!(sql, "SELECT id FROM users WHERE id = 7 GROUP BY id HAVING id = 7");
}

#[test]
fn limit_and_offset_only_when_configured() {
    assert_eq!(users(&["id"]).build(), "SELECT id FROM users");
    assert_eq!(users(&["id"]).limit(3).build(), "SELECT id FROM users LIMIT 3");
    assert_eq!(users(&["id"]).offset(4).build(), "SELECT id FROM users OFFSET 4");
    assert_eq!(users(&["id"]).limit(3).offset(4).build(), "SELECT id FROM users LIMIT 3 OFFSET 4");
}

#[test]
fn limit_and_offset_of_zero_are_configured() {
    assert_eq!(users(&["id"]).limit(0).offset(0).build(), "SELECT id FROM users LIMIT 0 OFFSET 0");
}

#[test]
fn limit_at_the_end_of_the_range() {
    let sql = users(&["id"]).limit(usize::MAX).build();
    assert_eq!(sql, format!("SELECT id FROM users LIMIT {}", usize::MAX));
}

#[test]
fn the_last_limit_counts() {
    assert_eq!(users(&["id"]).limit(3).limit(5).build(), "SELECT id FROM users LIMIT 5");
}

#[test]
fn empty_order_by_is_no_clause() {
    let sql = users(&["id"]).order_by(OrderBy::new()).build();
    assert_eq!(sql, "SELECT id FROM users");
}

#[test]
fn order_by_lists_its_entries_in_insertion_order() {
    let mut order = OrderBy::new();
    assert!(order.is_empty());
    order.insert(strings(&["b"]), "DESC".to_string());
    order.insert(strings(&["a"]), "ASC".to_string());
    order.insert(strings(&["c", "d"]), "ASC".to_string());
    assert_eq!(order.len(), 3);
    assert!(!order.is_empty());
    assert_eq!(order.build(), "b DESC, a ASC, c, d ASC");
    assert_eq!(
        users(&["id"]).order_by(order).build(),
        "SELECT id FROM users ORDER BY b DESC, a ASC, c, d ASC"
    );
}

#[test]
fn order_by_maps_a_group_to_one_direction() {
    let mut order = OrderBy::new();
    order.insert(strings(&["a"]), "ASC".to_string());
    order.insert(strings(&["b"]), "ASC".to_string());
    order.insert(strings(&["a"]), "DESC".to_string());
    assert_eq!(order.len(), 2);
    assert_eq!(order.build(), "a DESC, b ASC");
    order.insert(strings(&["a", "b"]), "ASC".to_string());
    order.insert(strings(&["b", "a"]), "ASC".to_string());
    assert_eq!(order.len(), 4);
    assert_eq!(order.build(), "a DESC, b ASC, a, b ASC, b, a ASC");
}

#[test]
fn missing_table_and_columns_are_compiled_as_they_are() {
    assert_eq!(QueryBuilder::new(strings(&["id"])).build(), "SELECT id FROM ");
    assert_eq!(QueryBuilder::new(Vec::new()).from(&User).build(), "SELECT  FROM users");
}
