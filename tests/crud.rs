use crud_derive::decimal::decimal;
use crud_derive::derive::{crud_operations_derive, DeriveError};
use crud_derive::entity::{render_user_repr, User};
use crud_derive::generate::{crud_ops, render_impl, render_method, render_signature, CrudOp};
use crud_derive::messages::{create_line, delete_line, read_line, update_line};

fn alice() -> User {
    User::new(1, "Alice".to_string(), "alice@example.com".to_string())
}

const USER_IMPL: &str = "impl User {
    pub fn create(&self) {
        println!(\"Creating {:?}\", self);
    }
    pub fn read(id: u32) {
        println!(\"Reading entity with id: {}\", id);
    }
    pub fn update(&self) {
        println!(\"Updating {:?}\", self);
    }
    pub fn delete(id: u32) {
        println!(\"Deleting entity with id: {}\", id);
    }
}
";

#[test]
fn decimal_renders_digits() {
    assert_eq!(decimal(0), "0");
    assert_eq!(decimal(7), "7");
    assert_eq!(decimal(10), "10");
    assert_eq!(decimal(1200), "1200");
    assert_eq!(decimal(u32::MAX), "4294967295");
}

#[test]
fn id_lines_show_the_id() {
    assert_eq!(read_line(1), "Reading entity with id: 1");
    assert_eq!(delete_line(1), "Deleting entity with id: 1");
    assert_eq!(read_line(0), "Reading entity with id: 0");
    assert_eq!(delete_line(98765), "Deleting entity with id: 98765");
    assert!(User::read(4242).contains("4242"));
    assert!(User::delete(u32::MAX).contains("4294967295"));
}

#[test]
fn repr_lines_prefix_the_repr() {
    assert_eq!(create_line("X { a: 1 }"), "Creating X { a: 1 }");
    assert_eq!(update_line(""), "Updating ");
}

#[test]
fn user_repr_matches_derived_debug() {
    let u = alice();
    assert_eq!(
        u.debug_repr(),
        "User { id: 1, name: \"Alice\", email: \"alice@example.com\" }"
    );
    assert_eq!(u.debug_repr(), format!("{:?}", u));
    let odd = User::new(7, "a\"b\\c".to_string(), "line\nbreak\té".to_string());
    assert_eq!(odd.debug_repr(), format!("{:?}", odd));
    assert!(odd.debug_repr().contains("a\\\"b\\\\c"));
    assert!(odd.debug_repr().contains("line\\nbreak\\t"));
}

#[test]
fn render_user_repr_takes_debug_forms() {
    assert_eq!(
        render_user_repr(3, "\"n\"", "\"e\""),
        "User { id: 3, name: \"n\", email: \"e\" }"
    );
}

#[test]
fn create_and_update_show_fields() {
    let u = User::new(31, "Bob Smith".to_string(), "bob@x.org".to_string());
    for line in [u.create(), u.update()] {
        assert!(line.contains("31"));
        assert!(line.contains("Bob Smith"));
        assert!(line.contains("bob@x.org"));
    }
    assert!(u.create().starts_with("Creating "));
    assert!(u.update().starts_with("Updating "));
}

#[test]
fn demo_scenario_prints_in_order() {
    let u = alice();
    let lines = [u.create(), User::read(1), u.update(), User::delete(1)];
    assert_eq!(
        lines[0],
        "Creating User { id: 1, name: \"Alice\", email: \"alice@example.com\" }"
    );
    assert_eq!(lines[1], "Reading entity with id: 1");
    assert_eq!(
        lines[2],
        "Updating User { id: 1, name: \"Alice\", email: \"alice@example.com\" }"
    );
    assert_eq!(lines[3], "Deleting entity with id: 1");
    assert!(lines[0].contains("1") && lines[0].contains("Alice"));
    assert!(lines[2].contains("1") && lines[2].contains("Alice"));
}

#[test]
fn same_inputs_same_output() {
    let u = alice();
    assert_eq!(u.create(), u.create());
    assert_eq!(u.update(), u.update());
    assert_eq!(User::read(9), User::read(9));
    assert_eq!(User::delete(9), User::delete(9));
    assert_eq!(render_impl("Order"), render_impl("Order"));
}

#[test]
fn op_attributes() {
    let ops = crud_ops();
    assert_eq!(ops, vec![CrudOp::Create, CrudOp::Read, CrudOp::Update, CrudOp::Delete]);
    let names: Vec<&str> = ops.iter().map(|o| o.name()).collect();
    assert_eq!(names, vec!["create", "read", "update", "delete"]);
    let selfs: Vec<bool> = ops.iter().map(|o| o.takes_self()).collect();
    assert_eq!(selfs, vec![true, false, true, false]);
    assert_eq!(CrudOp::Read.prefix(), "Reading entity with id: ");
}

#[test]
fn four_signatures() {
    assert_eq!(render_signature(CrudOp::Create), "pub fn create(&self)");
    assert_eq!(render_signature(CrudOp::Read), "pub fn read(id: u32)");
    assert_eq!(render_signature(CrudOp::Update), "pub fn update(&self)");
    assert_eq!(render_signature(CrudOp::Delete), "pub fn delete(id: u32)");
    assert_eq!(
        render_method(CrudOp::Read),
        "    pub fn read(id: u32) {\n        println!(\"Reading entity with id: {}\", id);\n    }\n"
    );
}

#[test]
fn impl_for_user_is_exact() {
    assert_eq!(render_impl("User"), USER_IMPL);
}

#[test]
fn impl_has_four_methods_for_any_name() {
    for name in ["User", "Order", "r#type", "X"] {
        let text = render_impl(name);
        assert!(text.starts_with(&format!("impl {} {{\n", name)));
        assert_eq!(text.matches("pub fn ").count(), 4);
        let item: syn::ItemImpl = syn::parse_str(&text).unwrap();
        assert_eq!(item.items.len(), 4);
    }
}

#[test]
fn derive_reads_the_struct_name() {
    let out = crud_operations_derive("struct User { id: u32, name: String, email: String }");
    assert_eq!(out, Ok(USER_IMPL.to_string()));
    let order = crud_operations_derive("#[derive(Debug)] pub struct Order<T> { items: Vec<T> }");
    assert_eq!(order, Ok(render_impl("Order")));
    assert_eq!(crud_operations_derive("enum Color { Red, Green }"), Ok(render_impl("Color")));
    assert_eq!(crud_operations_derive("struct Unit;"), Ok(render_impl("Unit")));
}

#[test]
fn derive_rejects_non_definitions() {
    assert_eq!(crud_operations_derive("fn main() {}"), Err(DeriveError::Syntax));
    assert_eq!(crud_operations_derive(""), Err(DeriveError::Syntax));
    assert_eq!(crud_operations_derive("struct"), Err(DeriveError::Syntax));
    assert_eq!(crud_operations_derive("struct A { x: }"), Err(DeriveError::Syntax));
}
