use njord::error::{Error, GenerationFault};
use njord::sqlite::insert::{generate_statement, insert_statement};
use njord::table::Table;
use njord::value::Value;

#[derive(Default)]
struct User {
    id: i64,
    name: String,
}

impl Table for User {
    fn get_name(&self) -> &str {
        "users"
    }

    fn get_column_fields(&self) -> Vec<String> {
        vec!["id".to_string(), "name".to_string()]
    }

    fn get_column_values(&self) -> Vec<Value> {
        vec![Value::Integer(self.id), Value::Text(self.name.clone())]
    }

    fn set_column_value(&mut self, column: &str, value: Value) {
        match (column, value) {
            ("id", Value::Integer(id)) => self.id = id,
            ("name", Value::Text(name)) => self.name = name,
            _ => {}
        }
    }
}

/// A record that reports whatever lists it was given.
struct Loose {
    fields: Vec<String>,
    values: Vec<Value>,
}

impl Table for Loose {
    fn get_name(&self) -> &str {
        "loose"
    }

    fn get_column_fields(&self) -> Vec<String> {
        self.fields.clone()
    }

    fn get_column_values(&self) -> Vec<Value> {
        self.values.clone()
    }

    fn set_column_value(&mut self, _column: &str, _value: Value) {}
}

fn strings(parts: &[&str]) -> Vec<String> {
    parts.iter().map(|part| part.to_string()).collect()
}

#[test]
fn insert_statement_of_a_user() {
    let user = User { id: 1, name: "O'Brien".to_string() };
    assert_eq!(
        generate_statement(&user),
        Ok("INSERT INTO users (id, name) VALUES (1, 'O''Brien');".to_string())
    );
}

#[test]
fn insert_statement_through_a_trait_object() {
    let user = User { id: 1, name: "O'Brien".to_string() };
    let row: &dyn Table = &user;
    assert_eq!(
        generate_statement(row),
        Ok("INSERT INTO users (id, name) VALUES (1, 'O''Brien');".to_string())
    );
}

#[test]
fn insert_statement_from_plain_values() {
    assert_eq!(
        insert_statement(
            "users",
            &strings(&["id", "name"]),
            vec![Value::Integer(1), Value::Text("O'Brien".to_string())]
        ),
        Ok("INSERT INTO users (id, name) VALUES (1, 'O''Brien');".to_string())
    );
}

#[test]
fn insert_statement_of_one_column() {
    assert_eq!(
        insert_statement("t", &strings(&["only"]), vec![Value::Null]),
        Ok("INSERT INTO t (only) VALUES (NULL);".to_string())
    );
}

#[test]
fn insert_statement_lists_as_many_literals_as_columns() {
    let fields = strings(&["a", "b", "c", "d"]);
    let values = vec![
        Value::Integer(-1),
        Value::Boolean(false),
        Value::Blob(vec![0xab]),
        Value::Real { mantissa: 25, exponent: -2 },
    ];
    let sql = insert_statement("t", &fields, values).unwrap();
    assert_eq!(sql, "INSERT INTO t (a, b, c, d) VALUES (-1, FALSE, X'AB', 25e-2);");
    let columns = &sql["INSERT INTO t (".len()..sql.find(") VALUES (").unwrap()];
    let literals = &sql[sql.find(") VALUES (").unwrap() + ") VALUES (".len()..sql.len() - 2];
    assert_eq!(columns.split(", ").collect::<Vec<_>>(), vec!["a", "b", "c", "d"]);
    assert_eq!(literals.split(", ").collect::<Vec<_>>(), vec!["-1", "FALSE", "X'AB'", "25e-2"]);
}

#[test]
fn a_record_without_fields_has_no_statement() {
    assert_eq!(
        insert_statement("t", &Vec::new(), Vec::new()),
        Err(Error::StatementGeneration(GenerationFault::NoColumns))
    );
    assert_eq!(
        insert_statement("t", &Vec::new(), vec![Value::Null]),
        Err(Error::StatementGeneration(GenerationFault::NoColumns))
    );
    let record = Loose { fields: Vec::new(), values: Vec::new() };
    assert_eq!(
        generate_statement(&record),
        Err(Error::StatementGeneration(GenerationFault::NoColumns))
    );
}

#[test]
fn a_record_with_misaligned_values_has_no_statement() {
    assert_eq!(
        insert_statement("t", &strings(&["a", "b"]), vec![Value::Integer(1)]),
        Err(Error::StatementGeneration(GenerationFault::Misaligned { fields: 2, values: 1 }))
    );
    assert_eq!(
        insert_statement("t", &strings(&["a"]), vec![Value::Integer(1), Value::Integer(2)]),
        Err(Error::StatementGeneration(GenerationFault::Misaligned { fields: 1, values: 2 }))
    );
    let record = Loose { fields: strings(&["a", "b", "c"]), values: Vec::new() };
    assert_eq!(
        generate_statement(&record),
        Err(Error::StatementGeneration(GenerationFault::Misaligned { fields: 3, values: 0 }))
    );
}
