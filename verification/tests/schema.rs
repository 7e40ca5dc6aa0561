use typed_schema::property::{EntityProperty, PropertyValue, SchemaProperty, Type};
use typed_schema::schema::SchemaBuilder;

#[test]
fn schema_create_entity_same_properties_as_expected() {
    let schema = SchemaBuilder::named("test_schema")
        .with_property("prop1", Type::Toggle)
        .build();

    let x = schema.create_entity(vec![]);

    assert!(x.is_ok(), "entity creation failed");
}

#[test]
fn missing_keys_reports_the_absent_name() {
    // Schema {"age": Integer, "active": Toggle}; entity supplies only "age".
    let schema = SchemaBuilder::named("person")
        .with_property("age", Type::Integer)
        .with_property("active", Type::Toggle)
        .build();
    let entity_props = vec![EntityProperty::new("age", PropertyValue::Integer(30))];

    let missing = schema.find_missing_keys(&entity_props);
    assert_eq!(missing, vec!["active".to_string()]);

    // Report-only policy: construction still succeeds.
    let result = schema.create_entity(entity_props);
    assert!(result.is_ok());
}

#[test]
fn empty_schema_reports_nothing_missing() {
    let schema = SchemaBuilder::named("anything").build();

    let no_props: Vec<EntityProperty> = vec![];
    assert_eq!(schema.find_missing_keys(&no_props), Vec::<String>::new());

    let some_props = vec![
        EntityProperty::new("extra", PropertyValue::Text("x".to_string())),
        EntityProperty::new("more", PropertyValue::Toggle(false)),
    ];
    assert_eq!(schema.find_missing_keys(&some_props), Vec::<String>::new());

    assert!(schema.create_entity(some_props).is_ok());
    assert!(schema.create_entity(vec![]).is_ok());
}

#[test]
fn missing_keys_ignore_entity_order_and_values() {
    let schema = SchemaBuilder::named("s")
        .with_property("a", Type::String)
        .with_property("b", Type::Integer)
        .with_property("c", Type::Double)
        .build();

    let one_order = vec![
        EntityProperty::new("c", PropertyValue::Toggle(true)),
        EntityProperty::new("a", PropertyValue::Text("hi".to_string())),
    ];
    let other_order = vec![
        EntityProperty::new("a", PropertyValue::Integer(7)),
        EntityProperty::new("c", PropertyValue::Double(1.25f32.to_bits())),
    ];

    assert_eq!(schema.find_missing_keys(&one_order), vec!["b".to_string()]);
    assert_eq!(schema.find_missing_keys(&other_order), vec!["b".to_string()]);
}

#[test]
fn duplicate_schema_names_are_reported_once() {
    let schema = SchemaBuilder::named("dup")
        .with_property("x", Type::String)
        .with_property("y", Type::Integer)
        .with_property("x", Type::Toggle)
        .build();

    let missing = schema.find_missing_keys(&[]);
    assert_eq!(missing, vec!["x".to_string(), "y".to_string()]);
}

#[test]
fn builder_preserves_declaration_order() {
    let schema = SchemaBuilder::named("ordered")
        .with_property("first", Type::String)
        .with_property("second", Type::Integer)
        .with_property("third", Type::Toggle)
        .build();

    assert_eq!(schema.name, "ordered");
    let names: Vec<&str> = schema.properties.iter().map(|p| p.name.as_str()).collect();
    assert_eq!(names, vec!["first", "second", "third"]);
    assert!(matches!(schema.properties[0].prop_type, Type::String));
    assert!(matches!(schema.properties[1].prop_type, Type::Integer));
    assert!(matches!(schema.properties[2].prop_type, Type::Toggle));
}

#[test]
fn missing_keys_computation_is_idempotent() {
    let schema = SchemaBuilder::named("twice")
        .with_property("k1", Type::String)
        .with_property("k2", Type::Toggle)
        .build();
    let entity_props = vec![EntityProperty::new("k2", PropertyValue::Toggle(true))];

    let first = schema.find_missing_keys(&entity_props);
    let second = schema.find_missing_keys(&entity_props);
    assert_eq!(first, second);
    assert_eq!(first, vec!["k1".to_string()]);
}

#[test]
fn created_entity_is_empty() {
    let schema = SchemaBuilder::named("s")
        .with_property("p", Type::String)
        .build();
    let supplied = vec![EntityProperty::new("p", PropertyValue::Text("v".to_string()))];

    let entity = schema.create_entity(supplied).unwrap();
    assert_eq!(entity.id, "");
    assert!(entity.props.is_empty());
}

#[test]
fn props_map_keeps_last_declaration_of_a_name() {
    let schema = SchemaBuilder::named("shadow")
        .with_property("a", Type::String)
        .with_property("b", Type::Integer)
        .with_property("a", Type::Toggle)
        .build();

    let mapping = schema.props_map();
    assert_eq!(mapping.len(), 2);
    assert_eq!(mapping[0].name, "a");
    assert!(matches!(mapping[0].prop_type, Type::Toggle));
    assert_eq!(mapping[1].name, "b");
    assert!(matches!(mapping[1].prop_type, Type::Integer));
}

#[test]
fn entity_property_accessors_return_the_pair() {
    let p = EntityProperty::new("age", PropertyValue::Integer(30));
    assert_eq!(p.name().as_str(), "age");
    assert!(matches!(p.value(), PropertyValue::Integer(30)));
}

#[test]
fn double_values_round_trip_through_bits() {
    let p = EntityProperty::new("ratio", PropertyValue::Double(1.5f32.to_bits()));
    match p.value() {
        PropertyValue::Double(bits) => assert_eq!(f32::from_bits(*bits), 1.5f32),
        _ => panic!("expected a double"),
    }
}

#[test]
fn schema_property_new_pairs_name_and_type() {
    let p = SchemaProperty::new("flag", Type::Toggle);
    assert_eq!(p.name, "flag");
    assert!(matches!(p.prop_type, Type::Toggle));
    let q = p.clone();
    assert_eq!(q.name, "flag");
    assert!(matches!(q.prop_type, Type::Toggle));
}
