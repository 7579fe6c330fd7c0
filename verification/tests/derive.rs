use monkey::derive::{expression, statement, Capability, Data, DeriveInput, Field};

fn named(ident: &str, path: &[&str]) -> Field {
    Field {
        ident: Some(ident.to_owned()),
        path: Some(path.iter().map(|segment| segment.to_string()).collect()),
    }
}

fn unnamed(path: &[&str]) -> Field {
    Field { ident: None, path: Some(path.iter().map(|segment| segment.to_string()).collect()) }
}

fn other_type(ident: &str) -> Field {
    Field { ident: Some(ident.to_owned()), path: None }
}

fn of_struct(ident: &str, fields: Vec<Field>) -> DeriveInput {
    DeriveInput { ident: ident.to_owned(), data: Data::Struct(fields) }
}

#[test]
fn capability_and_type_are_kept() {
    let written = expression(of_struct("Identifier", vec![]));
    assert_eq!(written.capability, Capability::Expression);
    assert_eq!(written.ident, "Identifier");
    let written = statement(of_struct("LetStatement", vec![]));
    assert_eq!(written.capability, Capability::Statement);
    assert_eq!(written.ident, "LetStatement");
}

#[test]
fn token_field_gives_the_node_its_text() {
    let written = expression(of_struct(
        "Identifier",
        vec![named("token", &["Token"]), named("value", &["String"])],
    ));
    assert_eq!(written.token_field.as_deref(), Some("token"));

    let written = statement(of_struct(
        "LetStatement",
        vec![
            named("name", &["Identifier"]),
            named("value", &["Option"]),
            named("tok", &["crate", "token", "Token"]),
        ],
    ));
    assert_eq!(written.token_field.as_deref(), Some("tok"));
}

#[test]
fn first_token_field_is_taken() {
    let written = statement(of_struct(
        "Pair",
        vec![named("left", &["Token"]), named("right", &["Token"])],
    ));
    assert_eq!(written.token_field.as_deref(), Some("left"));
}

#[test]
fn first_token_field_without_name_gives_nothing() {
    let written = expression(of_struct("Wrapper", vec![unnamed(&["Token"])]));
    assert_eq!(written.token_field, None);
    let written =
        expression(of_struct("Odd", vec![unnamed(&["Token"]), named("token", &["Token"])]));
    assert_eq!(written.token_field, None);
}

#[test]
fn type_without_token_field_gets_the_capability_alone() {
    assert_eq!(expression(of_struct("Empty", vec![])).token_field, None);
    let written = expression(of_struct(
        "Plain",
        vec![named("value", &["String"]), named("tokens", &["Tokens"]), other_type("token")],
    ));
    assert_eq!(written.token_field, None);
    let written = statement(of_struct("Lower", vec![named("token", &["token"])]));
    assert_eq!(written.token_field, None);
    let written = statement(of_struct("NoSegments", vec![named("token", &[])]));
    assert_eq!(written.token_field, None);
}

#[test]
fn only_structs_have_fields_to_look_at() {
    let written = expression(DeriveInput { ident: "Choice".to_owned(), data: Data::Enum });
    assert_eq!(written.capability, Capability::Expression);
    assert_eq!(written.ident, "Choice");
    assert_eq!(written.token_field, None);
    let written = statement(DeriveInput { ident: "Raw".to_owned(), data: Data::Union });
    assert_eq!(written.capability, Capability::Statement);
    assert_eq!(written.token_field, None);
}
