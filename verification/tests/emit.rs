use strict_builder::collect::parse_fields;
use strict_builder::decl::{DeclBody, FieldDescriptor, TypeDeclaration, TypeExpr};
use strict_builder::emit::{
    derive_strict_builder, emit_joined, emit_piece, expand, missing_field_message, Piece,
};
use strict_builder::player::Player;

fn record(name: &str, fields: Vec<FieldDescriptor>) -> TypeDeclaration {
    TypeDeclaration { name: name.to_string(), body: DeclBody::Record { fields } }
}

fn sample() -> TypeDeclaration {
    record(
        "Player",
        vec![
            FieldDescriptor::named("name", TypeExpr::plain("String")),
            FieldDescriptor::repeated(
                "friends",
                TypeExpr::wrapper("Vec", TypeExpr::plain("String")),
                "friend",
            ),
            FieldDescriptor::named("nick", TypeExpr::wrapper("Option", TypeExpr::plain("String"))),
            FieldDescriptor::repeated("tags", TypeExpr::wrapper("Vec", TypeExpr::plain("u8")), "tags"),
        ],
    )
}

#[test]
fn storage_has_one_slot_per_field_in_order() {
    let parts = expand(&sample()).unwrap();
    assert_eq!(
        parts.storage,
        "struct PlayerBuilder { name: std::option::Option<String>, \
         friends: std::vec::Vec<String>, nick: std::option::Option<String>, \
         tags: std::vec::Vec<u8> }"
    );
}

#[test]
fn factory_starts_absent_and_empty() {
    let parts = expand(&sample()).unwrap();
    assert_eq!(
        parts.factory,
        "impl Player { fn builder() -> PlayerBuilder { PlayerBuilder { \
         name: std::option::Option::None, friends: std::vec::Vec::new(), \
         nick: std::option::Option::None, tags: std::vec::Vec::new() } } }"
    );
}

#[test]
fn implementation_holds_assembly_and_methods() {
    let parts = expand(&sample()).unwrap();
    let expected = String::new()
        + "impl PlayerBuilder { pub fn build(&mut self) -> "
        + "std::result::Result<Player, std::boxed::Box<dyn std::error::Error>> { Ok(Player { "
        + "name: self.name.clone().ok_or(\"missing required field: name\")?, "
        + "friends: self.friends.clone(), nick: self.nick.clone(), tags: self.tags.clone()"
        + " }) } "
        + "pub fn name(&mut self, name: String) -> &mut Self "
        + "{ self.name = std::option::Option::Some(name); self } "
        + "pub fn friend(&mut self, friend: String) -> &mut Self "
        + "{ self.friends.push(friend); self } "
        + "pub fn friends(&mut self, friends: std::vec::Vec<String>) -> &mut Self "
        + "{ self.friends = friends; self } "
        + "pub fn nick(&mut self, nick: String) -> &mut Self "
        + "{ self.nick = std::option::Option::Some(nick); self } "
        + "pub fn tags(&mut self, tags: u8) -> &mut Self { self.tags.push(tags); self }"
        + " }";
    assert_eq!(parts.methods, expected);
}

#[test]
fn whole_text_is_the_three_parts() {
    let parts = expand(&sample()).unwrap();
    let text = derive_strict_builder(&sample()).unwrap();
    assert_eq!(text, format!("{} {} {}", parts.factory, parts.storage, parts.methods));
}

#[test]
fn shared_name_emits_no_bulk_setter() {
    let decl = sample();
    let fields = parse_fields(&decl).unwrap();
    assert_eq!(
        emit_piece(Piece::Methods, &fields[3]),
        "pub fn tags(&mut self, tags: u8) -> &mut Self { self.tags.push(tags); self }"
    );
    let text = derive_strict_builder(&decl).unwrap();
    assert_eq!(text.matches("pub fn tags(").count(), 1);
    assert_eq!(text.matches("pub fn friend(").count(), 1);
    assert_eq!(text.matches("pub fn friends(").count(), 1);
}

#[test]
fn pieces_of_one_field() {
    let decl = sample();
    let fields = parse_fields(&decl).unwrap();
    assert_eq!(emit_piece(Piece::Slot, &fields[0]), "name: std::option::Option<String>");
    assert_eq!(emit_piece(Piece::Slot, &fields[2]), "nick: std::option::Option<String>");
    assert_eq!(emit_piece(Piece::Initial, &fields[1]), "friends: std::vec::Vec::new()");
    assert_eq!(emit_piece(Piece::Assembly, &fields[2]), "nick: self.nick.clone()");
    assert_eq!(
        emit_joined(Piece::Initial, &fields),
        "name: std::option::Option::None, friends: std::vec::Vec::new(), \
         nick: std::option::Option::None, tags: std::vec::Vec::new()"
    );
}

#[test]
fn record_without_fields() {
    let text = derive_strict_builder(&record("Unit", vec![])).unwrap();
    assert_eq!(
        text,
        "impl Unit { fn builder() -> UnitBuilder { UnitBuilder {  } } } \
         struct UnitBuilder {  } \
         impl UnitBuilder { pub fn build(&mut self) -> \
         std::result::Result<Unit, std::boxed::Box<dyn std::error::Error>> \
         { Ok(Unit {  }) }  }"
    );
}

#[test]
fn fault_gives_no_text() {
    let decl = record(
        "Player",
        vec![
            FieldDescriptor::named("name", TypeExpr::plain("String")),
            FieldDescriptor::repeated("friends", TypeExpr::plain("String"), "friend"),
        ],
    );
    let diags = derive_strict_builder(&decl).unwrap_err();
    assert_eq!(diags.len(), 1);
    assert_eq!(diags[0].field, Some(1));
    assert_eq!(diags[0].error.message, "expected sequence wrapper for repeated field friends");
    assert!(expand(&decl).is_err());
}

#[test]
fn missing_message_names_the_field() {
    assert_eq!(missing_field_message("name"), "missing required field: name");
}

#[test]
fn sample_record_expands() {
    let decl = Player::declaration();
    assert_eq!(decl.name, "Player");
    let fields = parse_fields(&decl).unwrap();
    let names: Vec<&str> = fields.iter().map(|f| f.ident().as_str()).collect();
    assert_eq!(names, vec!["name", "age", "friends", "siblings", "swimming", "running"]);
    let text = derive_strict_builder(&decl).unwrap();
    assert!(text.starts_with("impl Player { fn builder() -> PlayerBuilder {"));
    assert_eq!(text.matches("pub fn siblings(").count(), 1);
    assert_eq!(text.matches("pub fn friends(").count(), 1);
    assert_eq!(text.matches("pub fn friend(").count(), 1);
}
