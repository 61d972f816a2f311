//! DMMF documents (the JSON description of a datamodel that the Prisma
//! tooling exchanges) and their conversion into a `dml::Datamodel`.
//!
//! The conversion is partial: an unknown field kind, an unknown scalar type or
//! on-delete strategy, or a default value that does not fit its field has no
//! datamodel. `schema_from_dmmf` requires a document without such a problem;
//! `try_schema_from_dmmf` reports the first problem instead.

use vstd::prelude::*;
use crate::datetime::{chrono_utc_from_str, parse_utc_datetime};
use crate::dml::{self, FieldArity, IdInfo, IdStrategy, JsonNumber, OnDeleteStrategy, PrismaType};
use crate::text::str_eq;

verus! {

/// A function call used as a default value, such as `now()` or `autoincrement()`.
/// `args` holds the JSON text of each argument.
#[derive(Debug)]
pub struct Function {
    pub name: String,
    pub return_type: String,
    pub args: Vec<String>,
}

/// The JSON value given as the default of a DMMF field. A JSON object is read
/// as a function description; an array is kept as its JSON text.
#[derive(Debug)]
pub enum JsonDefault {
    Null,
    Bool(bool),
    Number(JsonNumber),
    String(String),
    Array(String),
    Function(Function),
}

/// A field as a DMMF document describes it.
#[derive(Debug)]
pub struct Field {
    pub name: String,
    pub kind: String,
    pub db_name: Option<String>,
    pub is_list: bool,
    pub is_required: bool,
    pub is_unique: bool,
    pub is_id: bool,
    pub field_type: String,
    pub default: Option<JsonDefault>,
    pub relation_name: Option<String>,
    pub relation_to_fields: Option<Vec<String>>,
    pub relation_on_delete: Option<String>,
    pub is_generated: Option<bool>,
    pub is_updated_at: Option<bool>,
    pub documentation: Option<String>,
}

/// A model as a DMMF document describes it.
#[derive(Debug)]
pub struct Model {
    pub name: String,
    pub is_embedded: bool,
    pub db_name: Option<String>,
    pub fields: Vec<Field>,
    pub is_generated: Option<bool>,
    pub documentation: Option<String>,
    pub id_fields: Vec<String>,
}

/// An enum as a DMMF document describes it.
#[derive(Debug)]
pub struct Enum {
    pub name: String,
    pub values: Vec<String>,
    pub db_name: Option<String>,
    pub documentation: Option<String>,
}

/// A DMMF document.
#[derive(Debug)]
pub struct Datamodel {
    pub enums: Vec<Enum>,
    pub models: Vec<Model>,
}

/// Why a DMMF document has no datamodel.
#[derive(Debug)]
pub enum DmmfError {
    /// A field kind other than `object`, `enum` and `scalar`.
    UnknownFieldKind(String),
    /// A scalar field whose type is not a scalar type.
    UnknownScalarType(String),
    /// A relation whose on-delete strategy is neither `CASCADE` nor `NONE`.
    UnknownOnDeleteStrategy(String),
    /// A scalar default whose JSON value does not fit the scalar type.
    InvalidDefaultValue,
    /// A default on a relation field.
    DefaultOnNonScalar,
    /// An enum default that is not a JSON string.
    EnumDefaultNotString,
    /// An `Int` default that is not an integer in the range of `i64`.
    IntDefaultNotI64,
    /// A `DateTime` default that chrono does not parse.
    InvalidDateTime(String),
    /// A function default with arguments.
    FunctionArguments,
    /// A function default whose return type is not the field's type.
    FunctionTypeMismatch { expected: PrismaType, got: String },
}

// ---------------------------------------------------------------------------
// What a document means.

/// The arity of a field from its `isRequired` and `isList` flags.
pub open spec fn spec_field_arity(is_required: bool, is_list: bool) -> FieldArity {
    match (is_required, is_list) {
        (true, true) => FieldArity::List,
        (false, true) => FieldArity::List,
        (true, false) => FieldArity::Required,
        (false, false) => FieldArity::Optional,
    }
}

/// `o.unwrap_or(false)`.
pub open spec fn flag(o: Option<bool>) -> bool {
    match o {
        Some(b) => b,
        None => false,
    }
}

/// The problem, if any, with the kind and type of a field.
pub open spec fn field_type_error(f: Field) -> Option<DmmfError> {
    if f.kind@ == "object"@ {
        match f.relation_on_delete {
            Some(s) => if OnDeleteStrategy::spec_parse(s@) is None {
                Some(DmmfError::UnknownOnDeleteStrategy(s))
            } else {
                None
            },
            None => None,
        }
    } else if f.kind@ == "enum"@ {
        None
    } else if f.kind@ == "scalar"@ {
        if PrismaType::spec_parse(f.field_type@) is None {
            Some(DmmfError::UnknownScalarType(f.field_type))
        } else {
            None
        }
    } else {
        Some(DmmfError::UnknownFieldKind(f.kind))
    }
}

/// `t` is the type that the DMMF field `f` describes.
pub open spec fn field_type_converts(f: Field, t: dml::FieldType) -> bool {
    match t {
        dml::FieldType::Relation(ri) => {
            &&& f.kind@ == "object"@
            &&& ri.to == f.field_type
            &&& ri.to_fields@ == match f.relation_to_fields {
                Some(v) => v@,
                None => Seq::<String>::empty(),
            }
            &&& match f.relation_name {
                Some(n) => ri.name == n,
                None => ri.name@ == Seq::<char>::empty(),
            }
            &&& ri.on_delete == match f.relation_on_delete {
                Some(s) => OnDeleteStrategy::spec_parse(s@).unwrap(),
                None => OnDeleteStrategy::Unset,
            }
        },
        dml::FieldType::Enum(n) => f.kind@ == "enum"@ && n == f.field_type,
        dml::FieldType::Base(p) => f.kind@ == "scalar"@ && Some(p) == PrismaType::spec_parse(
            f.field_type@,
        ),
    }
}

/// The problem, if any, with a function default of type `t`.
pub open spec fn function_error(func: Function, t: PrismaType) -> Option<DmmfError> {
    if func.args@.len() != 0 {
        Some(DmmfError::FunctionArguments)
    } else if func.return_type@ != t.spec_name() {
        Some(DmmfError::FunctionTypeMismatch { expected: t, got: func.return_type })
    } else {
        None
    }
}

/// The problem, if any, with the default `v` of a field of scalar type `t`.
pub open spec fn base_default_error(v: JsonDefault, t: PrismaType) -> Option<DmmfError> {
    match v {
        JsonDefault::Bool(_) => if t == PrismaType::Boolean {
            None
        } else {
            Some(DmmfError::InvalidDefaultValue)
        },
        JsonDefault::String(s) => if t == PrismaType::String {
            None
        } else if t == PrismaType::DateTime {
            if chrono_utc_from_str(s@) is Some {
                None
            } else {
                Some(DmmfError::InvalidDateTime(s))
            }
        } else {
            Some(DmmfError::InvalidDefaultValue)
        },
        JsonDefault::Number(n) => if t == PrismaType::Float || t == PrismaType::Decimal {
            None
        } else if t == PrismaType::Int {
            if n.as_i64 is Some {
                None
            } else {
                Some(DmmfError::IntDefaultNotI64)
            }
        } else {
            Some(DmmfError::InvalidDefaultValue)
        },
        JsonDefault::Function(func) => function_error(func, t),
        _ => Some(DmmfError::InvalidDefaultValue),
    }
}

/// The problem, if any, with the default `d` of a field of type `t`.
pub open spec fn default_value_error(d: Option<JsonDefault>, t: dml::FieldType) -> Option<DmmfError> {
    match d {
        None => None,
        Some(v) => match t {
            dml::FieldType::Base(p) => base_default_error(v, p),
            dml::FieldType::Enum(_) => match v {
                JsonDefault::String(_) => None,
                _ => Some(DmmfError::EnumDefaultNotString),
            },
            dml::FieldType::Relation(_) => Some(DmmfError::DefaultOnNonScalar),
        },
    }
}

/// The problem, if any, with the default of field `f`, whose kind and type are sound.
pub open spec fn field_default_error(f: Field) -> Option<DmmfError> {
    match f.default {
        None => None,
        Some(v) => if f.kind@ == "scalar"@ {
            base_default_error(v, PrismaType::spec_parse(f.field_type@).unwrap())
        } else if f.kind@ == "enum"@ {
            match v {
                JsonDefault::String(_) => None,
                _ => Some(DmmfError::EnumDefaultNotString),
            }
        } else {
            Some(DmmfError::DefaultOnNonScalar)
        },
    }
}

/// The first problem with a field: its kind and type first, then its default.
pub open spec fn field_error(f: Field) -> Option<DmmfError> {
    match field_type_error(f) {
        Some(e) => Some(e),
        None => field_default_error(f),
    }
}

/// The first problem with a sequence of fields, in order.
pub open spec fn first_field_error(fields: Seq<Field>) -> Option<DmmfError>
    decreases fields.len(),
{
    if fields.len() == 0 {
        None
    } else {
        match field_error(fields[0]) {
            Some(e) => Some(e),
            None => first_field_error(fields.drop_first()),
        }
    }
}

/// The first problem with a sequence of models, in order.
pub open spec fn first_model_error(models: Seq<Model>) -> Option<DmmfError>
    decreases models.len(),
{
    if models.len() == 0 {
        None
    } else {
        match first_field_error(models[0].fields@) {
            Some(e) => Some(e),
            None => first_model_error(models.drop_first()),
        }
    }
}

/// The first problem with a document: models are read before enums, and
/// enums have none.
pub open spec fn datamodel_error(d: Datamodel) -> Option<DmmfError> {
    first_model_error(d.models@)
}

/// `r` is the datamodel value of the default `v` of a field of scalar type `t`.
pub open spec fn base_default_converts(v: JsonDefault, t: PrismaType, r: dml::ScalarValue) -> bool {
    match v {
        JsonDefault::Bool(b) => r == dml::ScalarValue::Boolean(b),
        JsonDefault::String(s) => if t == PrismaType::String {
            r == dml::ScalarValue::String(s)
        } else {
            r == dml::ScalarValue::DateTime(chrono_utc_from_str(s@).unwrap())
        },
        JsonDefault::Number(n) => if t == PrismaType::Float {
            r == dml::ScalarValue::Float(n)
        } else if t == PrismaType::Int {
            r == dml::ScalarValue::Int(n.as_i64.unwrap() as i32)
        } else {
            r == dml::ScalarValue::Decimal(n)
        },
        JsonDefault::Function(func) => match r {
            dml::ScalarValue::Expression(name, p, args) => name == func.name && p == t && args@.len()
                == 0,
            _ => false,
        },
        _ => false,
    }
}

/// `r` is the default value that the DMMF default `d` gives a field of type `t`.
pub open spec fn default_converts(d: Option<JsonDefault>, t: dml::FieldType, r: Option<dml::ScalarValue>) -> bool {
    match d {
        None => r is None,
        Some(v) => match (t, r) {
            (dml::FieldType::Base(p), Some(rv)) => base_default_converts(v, p, rv),
            (dml::FieldType::Enum(_), Some(rv)) => match v {
                JsonDefault::String(s) => rv == dml::ScalarValue::ConstantLiteral(s),
                _ => false,
            },
            _ => false,
        },
    }
}

/// `r` is the datamodel field that the DMMF field `f` describes.
pub open spec fn field_converts(f: Field, r: dml::Field) -> bool {
    &&& r.name == f.name
    &&& r.arity == spec_field_arity(f.is_required, f.is_list)
    &&& r.database_name == f.db_name
    &&& field_type_converts(f, r.field_type)
    &&& default_converts(f.default, r.field_type, r.default_value)
    &&& r.id_info == if f.is_id {
        Some(IdInfo { strategy: IdStrategy::Auto, sequence: None })
    } else {
        None
    }
    &&& r.is_unique == f.is_unique
    &&& r.scalar_list_strategy is None
    &&& r.is_generated == flag(f.is_generated)
    &&& r.is_updated_at == flag(f.is_updated_at)
    &&& r.documentation == f.documentation
}

/// A numeric default of a scalar field becomes the value of the field's own
/// scalar type: a `Decimal` on a decimal field, a `Float` on a float field,
/// and an `Int` (the number as an integer) on an integer field; a field of
/// any other type has no numeric default.
pub proof fn lemma_numeric_default_follows_field_type(
    f: Field,
    r: dml::Field,
    n: JsonNumber,
    p: PrismaType,
)
    requires
        field_error(f) is None,
        field_converts(f, r),
        f.default == Some(JsonDefault::Number(n)),
        r.field_type == dml::FieldType::Base(p),
    ensures
        p == PrismaType::Decimal || p == PrismaType::Float || p == PrismaType::Int,
        p == PrismaType::Decimal ==> r.default_value == Some(dml::ScalarValue::Decimal(n)),
        p == PrismaType::Float ==> r.default_value == Some(dml::ScalarValue::Float(n)),
        p == PrismaType::Int ==> n.as_i64 is Some && r.default_value == Some(
            dml::ScalarValue::Int(n.as_i64.unwrap() as i32),
        ),
{
}

/// `r` is the datamodel model that the DMMF model `m` describes.
pub open spec fn model_converts(m: Model, r: dml::Model) -> bool {
    &&& r.name == m.name
    &&& r.database_name == m.db_name
    &&& r.is_embedded == m.is_embedded
    &&& r.fields@.len() == m.fields@.len()
    &&& forall|i: int| 0 <= i < m.fields@.len() ==> field_converts(m.fields@[i], #[trigger] r.fields@[i])
    &&& r.indexes@.len() == 0
    &&& r.id_fields@ == m.id_fields@
    &&& r.documentation == m.documentation
    &&& r.is_generated == flag(m.is_generated)
}

/// `r` is the datamodel enum that the DMMF enum `e` describes.
pub open spec fn enum_converts(e: Enum, r: dml::Enum) -> bool {
    &&& r.name == e.name
    &&& r.values@ == e.values@
    &&& r.database_name == e.db_name
    &&& r.documentation == e.documentation
}

/// `r` is the datamodel that the DMMF document `d` describes: its models and
/// enums, each converted, in the same order.
pub open spec fn schema_converts(d: Datamodel, r: dml::Datamodel) -> bool {
    &&& r.models@.len() == d.models@.len()
    &&& forall|i: int| 0 <= i < d.models@.len() ==> model_converts(d.models@[i], #[trigger] r.models@[i])
    &&& r.enums@.len() == d.enums@.len()
    &&& forall|i: int| 0 <= i < d.enums@.len() ==> enum_converts(d.enums@[i], #[trigger] r.enums@[i])
}

// ---------------------------------------------------------------------------
// Lemmas on the first problem of a sequence.

proof fn lemma_first_field_error_none(s: Seq<Field>)
    requires
        first_field_error(s) is None,
    ensures
        forall|i: int| 0 <= i < s.len() ==> field_error(#[trigger] s[i]) is None,
    decreases s.len(),
{
    if s.len() > 0 {
        lemma_first_field_error_none(s.drop_first());
        assert forall|i: int| 0 <= i < s.len() implies field_error(#[trigger] s[i]) is None by {
            if i > 0 {
                assert(s[i] == s.drop_first()[i - 1]);
            }
        }
    }
}

proof fn lemma_first_model_error_none(s: Seq<Model>)
    requires
        first_model_error(s) is None,
    ensures
        forall|i: int| 0 <= i < s.len() ==> first_field_error(#[trigger] s[i].fields@) is None,
    decreases s.len(),
{
    if s.len() > 0 {
        lemma_first_model_error_none(s.drop_first());
        assert forall|i: int| 0 <= i < s.len() implies first_field_error(
            #[trigger] s[i].fields@,
        ) is None by {
            if i > 0 {
                assert(s[i] == s.drop_first()[i - 1]);
            }
        }
    }
}

proof fn lemma_skip_unfold<A>(s: Seq<A>, i: int)
    requires
        0 <= i < s.len(),
    ensures
        s.skip(i).len() > 0,
        s.skip(i)[0] == s[i],
        s.skip(i).drop_first() == s.skip(i + 1),
{
    assert(s.skip(i).drop_first() =~= s.skip(i + 1));
}

/// Once the type of a field is known, the problem with its default is the
/// problem of the default with that type.
proof fn lemma_default_error_by_type(f: Field, t: dml::FieldType)
    requires
        field_type_converts(f, t),
    ensures
        default_value_error(f.default, t) == field_default_error(f),
{
    lemma_field_kinds_distinct();
}

/// The three field kinds are distinct strings.
proof fn lemma_field_kinds_distinct()
    ensures
        "object"@ != "scalar"@,
        "enum"@ != "scalar"@,
        "object"@ != "enum"@,
{
    reveal_strlit("object");
    reveal_strlit("enum");
    reveal_strlit("scalar");
    assert("object"@[0] != "scalar"@[0]);
    assert("enum"@.len() != "scalar"@.len());
    assert("object"@.len() != "enum"@.len());
}

// ---------------------------------------------------------------------------
// Conversion.

/// The arity of a field from its `isRequired` and `isList` flags: a list
/// whenever `is_list`, else required or optional.
pub fn get_field_arity(is_required: bool, is_list: bool) -> (res: FieldArity)
    ensures
        res == spec_field_arity(is_required, is_list),
        res == FieldArity::List <==> is_list,
        res == FieldArity::Required <==> (is_required && !is_list),
        res == FieldArity::Optional <==> (!is_required && !is_list),
{
    match (is_required, is_list) {
        (true, true) => FieldArity::List,
        (false, true) => FieldArity::List,
        (true, false) => FieldArity::Required,
        (false, false) => FieldArity::Optional,
    }
}

/// The scalar type named `scalar`, which must be one.
pub fn type_from_string(scalar: &str) -> (res: PrismaType)
    requires
        PrismaType::spec_parse(scalar@) is Some,
    ensures
        Some(res) == PrismaType::spec_parse(scalar@),
{
    PrismaType::parse(scalar).unwrap()
}

/// The on-delete strategy of a relation: the one written, or `Unset` when
/// none is written.
pub fn get_on_delete_strategy(strategy: &Option<String>) -> (res: OnDeleteStrategy)
    requires
        strategy matches Some(s) ==> OnDeleteStrategy::spec_parse(s@) is Some,
    ensures
        res == match strategy {
            Some(s) => OnDeleteStrategy::spec_parse(s@).unwrap(),
            None => OnDeleteStrategy::Unset,
        },
{
    match strategy {
        Some(val) => OnDeleteStrategy::parse(val.as_str()).unwrap(),
        None => OnDeleteStrategy::Unset,
    }
}

/// The datamodel enum of a DMMF enum: the same name, values, database name
/// and documentation.
pub fn enum_from_dmmf(en: &Enum) -> (res: dml::Enum)
    ensures
        enum_converts(*en, res),
{
    dml::Enum {
        name: en.name.clone(),
        values: en.values.clone(),
        database_name: en.db_name.clone(),
        documentation: en.documentation.clone(),
    }
}

/// The expression value of a function default of type `expected_type`.
fn function_from_dmmf(func: &Function, expected_type: PrismaType) -> (res: dml::ScalarValue)
    requires
        function_error(*func, expected_type) is None,
    ensures
        base_default_converts(JsonDefault::Function(*func), expected_type, res),
{
    dml::ScalarValue::Expression(func.name.clone(), expected_type, Vec::new())
}

/// The type of a DMMF field.
fn get_field_type(field: &Field) -> (res: dml::FieldType)
    requires
        field_type_error(*field) is None,
    ensures
        field_type_converts(*field, res),
{
    let kind = field.kind.as_str();
    if str_eq(kind, "object") {
        let to_fields = match &field.relation_to_fields {
            Some(v) => v.clone(),
            None => Vec::new(),
        };
        let name = match &field.relation_name {
            Some(n) => n.clone(),
            None => String::new(),
        };
        dml::FieldType::Relation(
            dml::RelationInfo {
                to: field.field_type.clone(),
                to_fields,
                name,
                on_delete: get_on_delete_strategy(&field.relation_on_delete),
            },
        )
    } else if str_eq(kind, "enum") {
        dml::FieldType::Enum(field.field_type.clone())
    } else {
        dml::FieldType::Base(type_from_string(field.field_type.as_str()))
    }
}

/// The datamodel value of a DMMF default for a field of type `field_type`.
fn default_value_from_serde(container: &Option<JsonDefault>, field_type: &dml::FieldType) -> (res:
    Option<dml::ScalarValue>)
    requires
        default_value_error(*container, *field_type) is None,
    ensures
        default_converts(*container, *field_type, res),
{
    match (container, field_type) {
        (Some(value), dml::FieldType::Base(scalar_type)) => {
            let scalar_type = *scalar_type;
            let v = match value {
                JsonDefault::Bool(b) => dml::ScalarValue::Boolean(*b),
                JsonDefault::String(s) => {
                    if scalar_type == PrismaType::String {
                        dml::ScalarValue::String(s.clone())
                    } else {
                        dml::ScalarValue::DateTime(parse_utc_datetime(s.as_str()).unwrap())
                    }
                },
                JsonDefault::Number(n) => {
                    if scalar_type == PrismaType::Float {
                        dml::ScalarValue::Float(n.copy_number())
                    } else if scalar_type == PrismaType::Int {
                        let i: i64 = n.as_i64.unwrap();
                        dml::ScalarValue::Int(i as i32)
                    } else {
                        dml::ScalarValue::Decimal(n.copy_number())
                    }
                },
                JsonDefault::Function(func) => function_from_dmmf(func, scalar_type),
                _ => {
                    proof {
                        assert(false);
                    }
                    dml::ScalarValue::Boolean(false)
                },
            };
            Some(v)
        },
        (Some(value), dml::FieldType::Enum(_)) => {
            match value {
                JsonDefault::String(s) => Some(dml::ScalarValue::ConstantLiteral(s.clone())),
                _ => {
                    proof {
                        assert(false);
                    }
                    None
                },
            }
        },
        (Some(_), _) => {
            proof {
                assert(false);
            }
            None
        },
        _ => None,
    }
}

/// The datamodel field of a DMMF field.
fn field_from_dmmf(field: &Field) -> (res: dml::Field)
    requires
        field_error(*field) is None,
    ensures
        field_converts(*field, res),
{
    let field_type = get_field_type(field);
    proof {
        lemma_default_error_by_type(*field, field_type);
    }
    let default_value = default_value_from_serde(&field.default, &field_type);
    let id_info = if field.is_id {
        Some(IdInfo { strategy: IdStrategy::Auto, sequence: None })
    } else {
        None
    };
    dml::Field {
        name: field.name.clone(),
        arity: get_field_arity(field.is_required, field.is_list),
        database_name: field.db_name.clone(),
        field_type,
        default_value,
        id_info,
        is_unique: field.is_unique,
        scalar_list_strategy: None,
        is_generated: match field.is_generated {
            Some(b) => b,
            None => false,
        },
        is_updated_at: match field.is_updated_at {
            Some(b) => b,
            None => false,
        },
        documentation: field.documentation.clone(),
    }
}

/// The datamodel model of a DMMF model.
fn model_from_dmmf(model: &Model) -> (res: dml::Model)
    requires
        first_field_error(model.fields@) is None,
    ensures
        model_converts(*model, res),
{
    proof {
        lemma_first_field_error_none(model.fields@);
    }
    let mut fields: Vec<dml::Field> = Vec::new();
    let n = model.fields.len();
    for i in 0..n
        invariant
            n == model.fields@.len(),
            fields@.len() == i,
            forall|j: int| 0 <= j < model.fields@.len() ==> field_error(#[trigger] model.fields@[j]) is None,
            forall|j: int| 0 <= j < i ==> field_converts(model.fields@[j], #[trigger] fields@[j]),
    {
        fields.push(field_from_dmmf(&model.fields[i]));
    }
    dml::Model {
        name: model.name.clone(),
        database_name: model.db_name.clone(),
        is_embedded: model.is_embedded,
        fields,
        indexes: Vec::new(),
        id_fields: model.id_fields.clone(),
        documentation: model.documentation.clone(),
        is_generated: match model.is_generated {
            Some(b) => b,
            None => false,
        },
    }
}

/// The datamodel of a DMMF document whose fields all have a kind, a type and
/// a default that fit: each model and each enum converted, in order.
pub fn schema_from_dmmf(schema: &Datamodel) -> (res: dml::Datamodel)
    requires
        datamodel_error(*schema) is None,
    ensures
        schema_converts(*schema, res),
{
    proof {
        lemma_first_model_error_none(schema.models@);
    }
    let mut datamodel = dml::Datamodel::new();
    let n = schema.models.len();
    for i in 0..n
        invariant
            n == schema.models@.len(),
            datamodel.models@.len() == i,
            datamodel.enums@.len() == 0,
            forall|j: int| 0 <= j < schema.models@.len() ==> first_field_error(#[trigger] schema.models@[j].fields@) is None,
            forall|j: int| 0 <= j < i ==> model_converts(schema.models@[j], #[trigger] datamodel.models@[j]),
    {
        datamodel.add_model(model_from_dmmf(&schema.models[i]));
    }
    let m = schema.enums.len();
    for i in 0..m
        invariant
            m == schema.enums@.len(),
            datamodel.models@.len() == n,
            n == schema.models@.len(),
            datamodel.enums@.len() == i,
            forall|j: int| 0 <= j < n ==> model_converts(schema.models@[j], #[trigger] datamodel.models@[j]),
            forall|j: int| 0 <= j < i ==> enum_converts(schema.enums@[j], #[trigger] datamodel.enums@[j]),
    {
        datamodel.add_enum(enum_from_dmmf(&schema.enums[i]));
    }
    datamodel
}


// ---------------------------------------------------------------------------
// Checking a document.

/// The problem, if any, with the kind and type of a field.
fn field_type_problem(f: &Field) -> (res: Option<DmmfError>)
    ensures
        res == field_type_error(*f),
{
    let kind = f.kind.as_str();
    if str_eq(kind, "object") {
        match &f.relation_on_delete {
            Some(s) => if OnDeleteStrategy::parse(s.as_str()).is_none() {
                Some(DmmfError::UnknownOnDeleteStrategy(s.clone()))
            } else {
                None
            },
            None => None,
        }
    } else if str_eq(kind, "enum") {
        None
    } else if str_eq(kind, "scalar") {
        if PrismaType::parse(f.field_type.as_str()).is_none() {
            Some(DmmfError::UnknownScalarType(f.field_type.clone()))
        } else {
            None
        }
    } else {
        Some(DmmfError::UnknownFieldKind(f.kind.clone()))
    }
}

/// The problem, if any, with a function default of type `t`.
fn function_problem(func: &Function, t: PrismaType) -> (res: Option<DmmfError>)
    ensures
        res == function_error(*func, t),
{
    if func.args.len() != 0 {
        Some(DmmfError::FunctionArguments)
    } else if !str_eq(func.return_type.as_str(), t.name()) {
        Some(DmmfError::FunctionTypeMismatch { expected: t, got: func.return_type.clone() })
    } else {
        None
    }
}

/// The problem, if any, with the default `v` of a field of scalar type `t`.
fn base_default_problem(v: &JsonDefault, t: PrismaType) -> (res: Option<DmmfError>)
    ensures
        res == base_default_error(*v, t),
{
    match v {
        JsonDefault::Bool(_) => if t == PrismaType::Boolean {
            None
        } else {
            Some(DmmfError::InvalidDefaultValue)
        },
        JsonDefault::String(s) => if t == PrismaType::String {
            None
        } else if t == PrismaType::DateTime {
            if parse_utc_datetime(s.as_str()).is_some() {
                None
            } else {
                Some(DmmfError::InvalidDateTime(s.clone()))
            }
        } else {
            Some(DmmfError::InvalidDefaultValue)
        },
        JsonDefault::Number(n) => if t == PrismaType::Float || t == PrismaType::Decimal {
            None
        } else if t == PrismaType::Int {
            if n.as_i64.is_some() {
                None
            } else {
                Some(DmmfError::IntDefaultNotI64)
            }
        } else {
            Some(DmmfError::InvalidDefaultValue)
        },
        JsonDefault::Function(func) => function_problem(func, t),
        _ => Some(DmmfError::InvalidDefaultValue),
    }
}

/// The first problem, if any, with a DMMF field: its kind and type first,
/// then its default.
pub fn check_field(f: &Field) -> (res: Option<DmmfError>)
    ensures
        res == field_error(*f),
{
    proof {
        lemma_field_kinds_distinct();
    }
    let type_problem = field_type_problem(f);
    if type_problem.is_some() {
        return type_problem;
    }
    match &f.default {
        None => None,
        Some(v) => {
            let kind = f.kind.as_str();
            if str_eq(kind, "scalar") {
                let t = PrismaType::parse(f.field_type.as_str()).unwrap();
                base_default_problem(v, t)
            } else if str_eq(kind, "enum") {
                match v {
                    JsonDefault::String(_) => None,
                    _ => Some(DmmfError::EnumDefaultNotString),
                }
            } else {
                Some(DmmfError::DefaultOnNonScalar)
            }
        },
    }
}

/// The first problem, if any, with the fields of a DMMF model, in order.
pub fn check_model(m: &Model) -> (res: Option<DmmfError>)
    ensures
        res == first_field_error(m.fields@),
{
    let n = m.fields.len();
    assert(m.fields@.skip(0) =~= m.fields@);
    for i in 0..n
        invariant
            n == m.fields@.len(),
            first_field_error(m.fields@) == first_field_error(m.fields@.skip(i as int)),
    {
        proof {
            lemma_skip_unfold(m.fields@, i as int);
        }
        let problem = check_field(&m.fields[i]);
        if problem.is_some() {
            return problem;
        }
    }
    assert(m.fields@.skip(n as int).len() == 0);
    None
}

/// The first problem, if any, with a DMMF document: `Ok` exactly when
/// `schema_from_dmmf` accepts it, else the first problem, in the order in
/// which the conversion meets it.
pub fn check_schema(schema: &Datamodel) -> (res: Result<(), DmmfError>)
    ensures
        res is Ok <==> datamodel_error(*schema) is None,
        res matches Err(e) ==> datamodel_error(*schema) == Some(e),
{
    let n = schema.models.len();
    assert(schema.models@.skip(0) =~= schema.models@);
    for i in 0..n
        invariant
            n == schema.models@.len(),
            first_model_error(schema.models@) == first_model_error(schema.models@.skip(i as int)),
    {
        proof {
            lemma_skip_unfold(schema.models@, i as int);
        }
        match check_model(&schema.models[i]) {
            Some(e) => {
                return Err(e);
            },
            None => {},
        }
    }
    assert(schema.models@.skip(n as int).len() == 0);
    Ok(())
}

/// The datamodel of a DMMF document, or the first problem that stops the
/// conversion.
pub fn try_schema_from_dmmf(schema: &Datamodel) -> (res: Result<dml::Datamodel, DmmfError>)
    ensures
        match res {
            Ok(d) => datamodel_error(*schema) is None && schema_converts(*schema, d),
            Err(e) => datamodel_error(*schema) == Some(e),
        },
{
    match check_schema(schema) {
        Ok(()) => Ok(schema_from_dmmf(schema)),
        Err(e) => Err(e),
    }
}

} // verus!
