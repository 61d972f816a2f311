use migration_engine::datetime::UtcDateTime;
use migration_engine::dml::{self, FieldArity, JsonNumber, OnDeleteStrategy, PrismaType, ScalarValue};
use migration_engine::dmmf::{
    check_field, check_schema, enum_from_dmmf, get_field_arity, get_on_delete_strategy, schema_from_dmmf,
    try_schema_from_dmmf, type_from_string, Datamodel, DmmfError, Enum, Field, Function, JsonDefault, Model,
};

fn field(name: &str, kind: &str, field_type: &str) -> Field {
    Field {
        name: name.to_string(),
        kind: kind.to_string(),
        db_name: None,
        is_list: false,
        is_required: true,
        is_unique: false,
        is_id: false,
        field_type: field_type.to_string(),
        default: None,
        relation_name: None,
        relation_to_fields: None,
        relation_on_delete: None,
        is_generated: None,
        is_updated_at: None,
        documentation: None,
    }
}

fn model(name: &str, fields: Vec<Field>) -> Model {
    Model {
        name: name.to_string(),
        is_embedded: false,
        db_name: None,
        fields,
        is_generated: None,
        documentation: None,
        id_fields: vec![],
    }
}

fn number(i: Option<i64>, text: &str) -> JsonNumber {
    JsonNumber { as_i64: i, text: text.to_string() }
}

#[test]
fn arity_follows_flags() {
    assert_eq!(get_field_arity(true, true), FieldArity::List);
    assert_eq!(get_field_arity(false, true), FieldArity::List);
    assert_eq!(get_field_arity(true, false), FieldArity::Required);
    assert_eq!(get_field_arity(false, false), FieldArity::Optional);
}

#[test]
fn scalar_types_parse() {
    assert_eq!(type_from_string("Int"), PrismaType::Int);
    assert_eq!(type_from_string("DateTime"), PrismaType::DateTime);
    assert_eq!(PrismaType::parse("Decimal"), Some(PrismaType::Decimal));
    assert_eq!(PrismaType::parse("int"), None);
    assert_eq!(PrismaType::Boolean.name(), "Boolean");
}

#[test]
fn on_delete_strategies() {
    assert_eq!(get_on_delete_strategy(&Some("CASCADE".to_string())), OnDeleteStrategy::Cascade);
    assert_eq!(get_on_delete_strategy(&Some("NONE".to_string())), OnDeleteStrategy::Unset);
    assert_eq!(get_on_delete_strategy(&None), OnDeleteStrategy::Unset);
}

#[test]
fn enum_converts_field_by_field() {
    let e = Enum {
        name: "Role".to_string(),
        values: vec!["ADMIN".to_string(), "USER".to_string()],
        db_name: Some("role".to_string()),
        documentation: None,
    };
    let r = enum_from_dmmf(&e);
    assert_eq!(r.name, "Role");
    assert_eq!(r.values, vec!["ADMIN".to_string(), "USER".to_string()]);
    assert_eq!(r.database_name, Some("role".to_string()));
    assert_eq!(r.documentation, None);
}

#[test]
fn schema_converts_models_fields_and_defaults() {
    let mut id = field("id", "scalar", "Int");
    id.is_id = true;
    id.default = Some(JsonDefault::Function(Function {
        name: "autoincrement".to_string(),
        return_type: "Int".to_string(),
        args: vec![],
    }));
    let mut count = field("count", "scalar", "Int");
    count.default = Some(JsonDefault::Number(number(Some(4_294_967_297), "4294967297")));
    let mut score = field("score", "scalar", "Float");
    score.default = Some(JsonDefault::Number(number(None, "1.5")));
    let mut created = field("created", "scalar", "DateTime");
    created.default = Some(JsonDefault::String("2019-07-01T10:00:00.250Z".to_string()));
    let mut role = field("role", "enum", "Role");
    role.default = Some(JsonDefault::String("USER".to_string()));
    let mut posts = field("posts", "object", "Post");
    posts.is_list = true;
    posts.relation_name = Some("UserPosts".to_string());
    posts.relation_on_delete = Some("CASCADE".to_string());
    let mut tags = field("tags", "scalar", "String");
    tags.is_required = false;
    tags.is_generated = Some(true);
    let doc = Datamodel {
        enums: vec![Enum { name: "Role".to_string(), values: vec!["USER".to_string()], db_name: None, documentation: None }],
        models: vec![model("User", vec![id, count, score, created, role, posts, tags])],
    };
    assert!(check_schema(&doc).is_ok());
    let dm = schema_from_dmmf(&doc);
    assert_eq!(dm.models.len(), 1);
    assert_eq!(dm.enums.len(), 1);
    assert!(dm.models[0].indexes.is_empty());
    let fields = &dm.models[0].fields;
    assert_eq!(fields.len(), 7);
    assert!(fields[0].id_info.is_some());
    match &fields[0].default_value {
        Some(ScalarValue::Expression(name, t, args)) => {
            assert_eq!(name, "autoincrement");
            assert_eq!(*t, PrismaType::Int);
            assert!(args.is_empty());
        }
        other => panic!("unexpected default {:?}", other),
    }
    // 4294967297 = 2^32 + 1 truncates to 1 as an i32.
    assert!(matches!(fields[1].default_value, Some(ScalarValue::Int(1))));
    match &fields[2].default_value {
        Some(ScalarValue::Float(n)) => assert_eq!(n.text, "1.5"),
        other => panic!("unexpected default {:?}", other),
    }
    match &fields[3].default_value {
        Some(ScalarValue::DateTime(d)) => assert_eq!(*d, UtcDateTime { secs: 1_561_975_200, nanos: 250_000_000 }),
        other => panic!("unexpected default {:?}", other),
    }
    match &fields[4].default_value {
        Some(ScalarValue::ConstantLiteral(s)) => assert_eq!(s, "USER"),
        other => panic!("unexpected default {:?}", other),
    }
    match &fields[5].field_type {
        dml::FieldType::Relation(ri) => {
            assert_eq!(ri.to, "Post");
            assert_eq!(ri.name, "UserPosts");
            assert!(ri.to_fields.is_empty());
            assert_eq!(ri.on_delete, OnDeleteStrategy::Cascade);
        }
        other => panic!("unexpected type {:?}", other),
    }
    assert_eq!(fields[5].arity, FieldArity::List);
    assert_eq!(fields[6].arity, FieldArity::Optional);
    assert!(fields[6].is_generated);
    assert!(!fields[6].is_updated_at);
}

#[test]
fn relation_without_name_gets_empty_name() {
    let doc = Datamodel { enums: vec![], models: vec![model("A", vec![field("b", "object", "B")])] };
    let dm = schema_from_dmmf(&doc);
    match &dm.models[0].fields[0].field_type {
        dml::FieldType::Relation(ri) => {
            assert_eq!(ri.name, "");
            assert_eq!(ri.on_delete, OnDeleteStrategy::Unset);
        }
        other => panic!("unexpected type {:?}", other),
    }
}

#[test]
fn each_problem_is_reported() {
    let check = |f: Field| check_field(&f);
    assert!(matches!(check(field("a", "weird", "Int")), Some(DmmfError::UnknownFieldKind(k)) if k == "weird"));
    assert!(matches!(check(field("a", "scalar", "Integer")), Some(DmmfError::UnknownScalarType(t)) if t == "Integer"));
    let mut f = field("a", "object", "B");
    f.relation_on_delete = Some("SET NULL".to_string());
    assert!(matches!(check(f), Some(DmmfError::UnknownOnDeleteStrategy(s)) if s == "SET NULL"));
    let mut f = field("a", "scalar", "Int");
    f.default = Some(JsonDefault::Bool(true));
    assert!(matches!(check(f), Some(DmmfError::InvalidDefaultValue)));
    let mut f = field("a", "scalar", "Int");
    f.default = Some(JsonDefault::Null);
    assert!(matches!(check(f), Some(DmmfError::InvalidDefaultValue)));
    let mut f = field("a", "object", "B");
    f.default = Some(JsonDefault::String("x".to_string()));
    assert!(matches!(check(f), Some(DmmfError::DefaultOnNonScalar)));
    let mut f = field("a", "enum", "E");
    f.default = Some(JsonDefault::Bool(false));
    assert!(matches!(check(f), Some(DmmfError::EnumDefaultNotString)));
    let mut f = field("a", "scalar", "Int");
    f.default = Some(JsonDefault::Number(number(None, "1.5")));
    assert!(matches!(check(f), Some(DmmfError::IntDefaultNotI64)));
    let mut f = field("a", "scalar", "DateTime");
    f.default = Some(JsonDefault::String("yesterday".to_string()));
    assert!(matches!(check(f), Some(DmmfError::InvalidDateTime(s)) if s == "yesterday"));
    let mut f = field("a", "scalar", "DateTime");
    f.default = Some(JsonDefault::Function(Function {
        name: "now".to_string(),
        return_type: "DateTime".to_string(),
        args: vec!["1".to_string()],
    }));
    assert!(matches!(check(f), Some(DmmfError::FunctionArguments)));
    let mut f = field("a", "scalar", "DateTime");
    f.default = Some(JsonDefault::Function(Function {
        name: "now".to_string(),
        return_type: "String".to_string(),
        args: vec![],
    }));
    assert!(matches!(check(f), Some(DmmfError::FunctionTypeMismatch { expected: PrismaType::DateTime, got }) if got == "String"));
}

#[test]
fn first_problem_stops_conversion() {
    let doc = Datamodel {
        enums: vec![],
        models: vec![
            model("A", vec![field("x", "scalar", "Int"), field("y", "scalar", "Nope")]),
            model("B", vec![field("z", "strange", "Int")]),
        ],
    };
    match try_schema_from_dmmf(&doc) {
        Err(DmmfError::UnknownScalarType(t)) => assert_eq!(t, "Nope"),
        _ => panic!("expected the first problem"),
    }
    let ok = Datamodel { enums: vec![], models: vec![model("A", vec![field("x", "scalar", "Int")])] };
    assert!(try_schema_from_dmmf(&ok).is_ok());
}
