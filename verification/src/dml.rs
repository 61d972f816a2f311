//! The datamodel that DMMF documents are converted into.

use vstd::prelude::*;
use crate::text::str_eq;
use crate::datetime::UtcDateTime;

verus! {

/// The scalar types of the datamodel.
#[derive(Debug, Clone, Copy, PartialEq, Eq, Structural)]
pub enum PrismaType {
    Int,
    Float,
    Decimal,
    Boolean,
    String,
    DateTime,
}

impl PrismaType {
    /// The name under which a scalar type is written in a schema.
    pub open spec fn spec_name(self) -> Seq<char> {
        match self {
            PrismaType::Int => "Int"@,
            PrismaType::Float => "Float"@,
            PrismaType::Decimal => "Decimal"@,
            PrismaType::Boolean => "Boolean"@,
            PrismaType::String => "String"@,
            PrismaType::DateTime => "DateTime"@,
        }
    }

    /// The scalar type written as `s`, if any.
    pub open spec fn spec_parse(s: Seq<char>) -> Option<PrismaType> {
        if s == "Int"@ {
            Some(PrismaType::Int)
        } else if s == "Float"@ {
            Some(PrismaType::Float)
        } else if s == "Decimal"@ {
            Some(PrismaType::Decimal)
        } else if s == "Boolean"@ {
            Some(PrismaType::Boolean)
        } else if s == "String"@ {
            Some(PrismaType::String)
        } else if s == "DateTime"@ {
            Some(PrismaType::DateTime)
        } else {
            None
        }
    }

    /// Parses the name of a scalar type.
    pub fn parse(s: &str) -> (res: Option<PrismaType>)
        ensures
            res == PrismaType::spec_parse(s@),
    {
        if str_eq(s, "Int") {
            Some(PrismaType::Int)
        } else if str_eq(s, "Float") {
            Some(PrismaType::Float)
        } else if str_eq(s, "Decimal") {
            Some(PrismaType::Decimal)
        } else if str_eq(s, "Boolean") {
            Some(PrismaType::Boolean)
        } else if str_eq(s, "String") {
            Some(PrismaType::String)
        } else if str_eq(s, "DateTime") {
            Some(PrismaType::DateTime)
        } else {
            None
        }
    }

    /// The name of the scalar type, as written in a schema.
    pub fn name(&self) -> (res: &'static str)
        ensures
            res@ == self.spec_name(),
    {
        proof {
            reveal_strlit("Int");
            reveal_strlit("Float");
            reveal_strlit("Decimal");
            reveal_strlit("Boolean");
            reveal_strlit("String");
            reveal_strlit("DateTime");
        }
        match self {
            PrismaType::Int => "Int",
            PrismaType::Float => "Float",
            PrismaType::Decimal => "Decimal",
            PrismaType::Boolean => "Boolean",
            PrismaType::String => "String",
            PrismaType::DateTime => "DateTime",
        }
    }
}

/// Parsing the name of a scalar type gives the type back.
pub proof fn lemma_prisma_type_name_parses(t: PrismaType)
    ensures
        PrismaType::spec_parse(t.spec_name()) == Some(t),
{
    reveal_strlit("Int");
    reveal_strlit("Float");
    reveal_strlit("Decimal");
    reveal_strlit("Boolean");
    reveal_strlit("String");
    reveal_strlit("DateTime");
    let n = t.spec_name();
    if n != "Int"@ && n != "Float"@ {
        assert("Decimal"@[0] != "Boolean"@[0]);
        assert("Decimal"@[1] != "DateTime"@[1]);
        assert("String"@[0] != "Decimal"@[0]);
        assert("Boolean"@[0] != "DateTime"@[0]);
    }
    if t != PrismaType::Int {
        assert(n.len() != 3);
    }
}

/// What happens to related records when a record is deleted.
#[derive(Debug, Clone, Copy, PartialEq, Eq, Structural)]
pub enum OnDeleteStrategy {
    Cascade,
    Unset,
}

impl OnDeleteStrategy {
    /// The strategy written as `s` (`CASCADE` or `NONE`), if any.
    pub open spec fn spec_parse(s: Seq<char>) -> Option<OnDeleteStrategy> {
        if s == "CASCADE"@ {
            Some(OnDeleteStrategy::Cascade)
        } else if s == "NONE"@ {
            Some(OnDeleteStrategy::Unset)
        } else {
            None
        }
    }

    /// Parses an on-delete strategy.
    pub fn parse(s: &str) -> (res: Option<OnDeleteStrategy>)
        ensures
            res == OnDeleteStrategy::spec_parse(s@),
    {
        if str_eq(s, "CASCADE") {
            Some(OnDeleteStrategy::Cascade)
        } else if str_eq(s, "NONE") {
            Some(OnDeleteStrategy::Unset)
        } else {
            None
        }
    }
}

/// How many values a field holds.
#[derive(Debug, Clone, Copy, PartialEq, Eq, Structural)]
pub enum FieldArity {
    Required,
    Optional,
    List,
}

/// The target of a relation field.
#[derive(Debug)]
pub struct RelationInfo {
    pub to: String,
    pub to_fields: Vec<String>,
    pub name: String,
    pub on_delete: OnDeleteStrategy,
}

/// The type of a field: a relation, an enum or a scalar type.
#[derive(Debug)]
pub enum FieldType {
    Relation(RelationInfo),
    Enum(String),
    Base(PrismaType),
}

/// How the value of an id field is generated.
#[derive(Debug, Clone, Copy, PartialEq, Eq, Structural)]
pub enum IdStrategy {
    Auto,
    Unset,
}

/// A database sequence that backs an id field.
#[derive(Debug)]
pub struct Sequence {
    pub name: String,
    pub initial_value: i32,
    pub allocation_size: i32,
}

/// The id settings of a field.
#[derive(Debug)]
pub struct IdInfo {
    pub strategy: IdStrategy,
    pub sequence: Option<Sequence>,
}

/// How a list of scalars is stored.
#[derive(Debug, Clone, Copy, PartialEq, Eq, Structural)]
pub enum ScalarListStrategy {
    Embedded,
    Relation,
}

/// A JSON number: the value as an `i64` where it is one, and its JSON text.
/// Floating-point values are carried by their text.
#[derive(Debug, Clone)]
pub struct JsonNumber {
    pub as_i64: Option<i64>,
    pub text: String,
}

impl JsonNumber {
    /// A copy of the number.
    pub fn copy_number(&self) -> (res: JsonNumber)
        ensures
            res == *self,
    {
        JsonNumber { as_i64: self.as_i64, text: self.text.clone() }
    }
}

/// A value of the datamodel (default values of fields).
#[derive(Debug)]
pub enum ScalarValue {
    Int(i32),
    Float(JsonNumber),
    Decimal(JsonNumber),
    Boolean(bool),
    String(String),
    DateTime(UtcDateTime),
    ConstantLiteral(String),
    Expression(String, PrismaType, Vec<String>),
}

/// A field of a model.
#[derive(Debug)]
pub struct Field {
    pub name: String,
    pub arity: FieldArity,
    pub field_type: FieldType,
    pub database_name: Option<String>,
    pub default_value: Option<ScalarValue>,
    pub is_unique: bool,
    pub id_info: Option<IdInfo>,
    pub scalar_list_strategy: Option<ScalarListStrategy>,
    pub documentation: Option<String>,
    pub is_generated: bool,
    pub is_updated_at: bool,
}

/// The kind of an index.
#[derive(Debug, Clone, Copy, PartialEq, Eq, Structural)]
pub enum IndexType {
    Unique,
    Normal,
}

/// An index over fields of a model.
#[derive(Debug)]
pub struct IndexDefinition {
    pub name: Option<String>,
    pub fields: Vec<String>,
    pub tpe: IndexType,
}

/// A model: a named collection of fields.
#[derive(Debug)]
pub struct Model {
    pub name: String,
    pub fields: Vec<Field>,
    pub indexes: Vec<IndexDefinition>,
    pub documentation: Option<String>,
    pub database_name: Option<String>,
    pub is_embedded: bool,
    pub id_fields: Vec<String>,
    pub is_generated: bool,
}

/// An enum: a named list of values.
#[derive(Debug)]
pub struct Enum {
    pub name: String,
    pub values: Vec<String>,
    pub database_name: Option<String>,
    pub documentation: Option<String>,
}

/// A datamodel: its models and enums, in order.
#[derive(Debug)]
pub struct Datamodel {
    pub enums: Vec<Enum>,
    pub models: Vec<Model>,
}

impl Datamodel {
    /// An empty datamodel.
    pub fn new() -> (res: Datamodel)
        ensures
            res.enums@.len() == 0,
            res.models@.len() == 0,
    {
        Datamodel { enums: Vec::new(), models: Vec::new() }
    }

    /// Appends a model.
    pub fn add_model(&mut self, model: Model)
        ensures
            final(self).models@ == old(self).models@.push(model),
            final(self).enums@ == old(self).enums@,
    {
        self.models.push(model);
    }

    /// Appends an enum.
    pub fn add_enum(&mut self, en: Enum)
        ensures
            final(self).enums@ == old(self).enums@.push(en),
            final(self).models@ == old(self).models@,
    {
        self.enums.push(en);
    }
}

} // verus!
