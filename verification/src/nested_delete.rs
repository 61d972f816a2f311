//! Nested deletes in write queries: deleting related records through a
//! relation field of a parent record.
//!
//! A nested delete adds two nodes to the query graph: a read of the parent's
//! related records (filtered) and the delete itself, with an edge between
//! them. The edge carries a rule that rewrites the delete once the ids of the
//! related records are known. Here the delete, the filter of the read, and the
//! rule are computed; the rule is applied by `apply_parent_ids_rule`.

use vstd::prelude::*;
use vstd::string::*;

verus! {

/// A value of a record field.
#[derive(Debug)]
pub enum GraphValue {
    Null,
    Boolean(bool),
    Int(i64),
    String(String),
}

impl GraphValue {
    /// A copy of the value.
    pub fn copy_value(&self) -> (res: GraphValue)
        ensures
            res == *self,
    {
        match self {
            GraphValue::Null => GraphValue::Null,
            GraphValue::Boolean(b) => GraphValue::Boolean(*b),
            GraphValue::Int(i) => GraphValue::Int(*i),
            GraphValue::String(s) => GraphValue::String(s.clone()),
        }
    }
}

/// Selects one record: the one whose `field` holds `value`.
#[derive(Debug)]
pub struct RecordFinder {
    pub field: String,
    pub value: GraphValue,
}

/// A filter on records.
#[derive(Debug)]
pub enum Filter {
    /// Every record.
    Empty,
    /// The records whose `field` holds `value`.
    Equals { field: String, value: GraphValue },
    /// The records whose `field` holds one of `values`.
    In { field: String, values: Vec<GraphValue> },
    /// The records that pass every filter.
    And(Vec<Filter>),
    /// The records that pass some filter.
    Or(Vec<Filter>),
}

/// `a` and `b` are the same filter: the same kind, fields and values, and
/// the same sub-filters in the same order.
pub open spec fn same_filter(a: Filter, b: Filter) -> bool
    decreases a,
{
    match (a, b) {
        (Filter::Empty, Filter::Empty) => true,
        (Filter::Equals { field: f1, value: v1 }, Filter::Equals { field: f2, value: v2 }) => f1 == f2
            && v1 == v2,
        (Filter::In { field: f1, values: v1 }, Filter::In { field: f2, values: v2 }) => f1 == f2
            && v1@ == v2@,
        (Filter::And(x), Filter::And(y)) => x@.len() == y@.len() && forall|i: int|
            0 <= i < x@.len() ==> same_filter(#[trigger] x@[i], y@[i]),
        (Filter::Or(x), Filter::Or(y)) => x@.len() == y@.len() && forall|i: int|
            0 <= i < x@.len() ==> same_filter(#[trigger] x@[i], y@[i]),
        _ => false,
    }
}

/// A copy of a list of values.
fn copy_values(v: &Vec<GraphValue>) -> (res: Vec<GraphValue>)
    ensures
        res@ == v@,
{
    let mut out: Vec<GraphValue> = Vec::new();
    for i in 0..v.len()
        invariant
            out@ == v@.take(i as int),
    {
        out.push(v[i].copy_value());
        proof {
            assert(v@.take(i + 1) =~= v@.take(i as int).push(v@[i as int]));
        }
    }
    assert(v@.take(v@.len() as int) =~= v@);
    out
}

/// A copy of a filter.
pub fn copy_filter(f: &Filter) -> (res: Filter)
    ensures
        same_filter(res, *f),
    decreases f,
{
    match f {
        Filter::Empty => Filter::Empty,
        Filter::Equals { field, value } => Filter::Equals { field: field.clone(), value: value.copy_value() },
        Filter::In { field, values } => Filter::In { field: field.clone(), values: copy_values(values) },
        Filter::And(v) => Filter::And(copy_filters(v)),
        Filter::Or(v) => Filter::Or(copy_filters(v)),
    }
}

/// Copies of a list of filters.
fn copy_filters(v: &Vec<Filter>) -> (res: Vec<Filter>)
    ensures
        res@.len() == v@.len(),
        forall|i: int| 0 <= i < v@.len() ==> same_filter(#[trigger] res@[i], v@[i]),
    decreases v,
{
    let mut out: Vec<Filter> = Vec::new();
    for i in 0..v.len()
        invariant
            out@.len() == i,
            forall|j: int| 0 <= j < i ==> same_filter(#[trigger] out@[j], v@[j]),
    {
        proof {
            assert(decreases_to!(v => v@[i as int]));
        }
        out.push(copy_filter(&v[i]));
    }
    out
}

/// The filter of a record finder: its field holds its value.
pub open spec fn finder_filter(f: RecordFinder) -> Filter {
    Filter::Equals { field: f.field, value: f.value }
}

/// Deletes the records of `model` that pass `filter`.
#[derive(Debug)]
pub struct DeleteManyRecords {
    pub model: String,
    pub filter: Filter,
}

/// Deletes the record of `model` that `where_` selects.
#[derive(Debug)]
pub struct DeleteRecord {
    pub model: String,
    pub where_: Option<RecordFinder>,
}

/// A write query of the graph.
#[derive(Debug)]
pub enum WriteQuery {
    DeleteManyRecords(DeleteManyRecords),
    DeleteRecord(DeleteRecord),
}

/// Errors while building a query graph.
#[derive(Debug)]
pub enum QueryGraphBuilderError {
    /// The records to delete are not all connected to the parent.
    RecordsNotConnected { relation_name: String, parent_name: String, child_name: String },
    /// An internal expectation failed.
    AssertionError(String),
    /// The input of the nested write is not what the relation needs.
    InputError(String),
}

/// The parent's relation field: whether it is a list, the name of its
/// relation, and the name of the parent model.
#[derive(Debug)]
pub struct RelationFieldInfo {
    pub is_list: bool,
    pub relation_name: String,
    pub model_name: String,
}

/// The related (child) model: its name and its id field.
#[derive(Debug)]
pub struct ModelInfo {
    pub name: String,
    pub id_field: String,
}

/// How the ids of the related records found by the read rewrite the delete.
#[derive(Debug)]
pub enum ParentIdsRule {
    /// Exactly `expected` ids must be found, else the records were not all
    /// connected; the delete-many is then restricted to those ids.
    CheckedRestrict {
        expected: usize,
        relation_name: String,
        parent_name: String,
        child_name: String,
        id_field: String,
    },
    /// The delete-many is restricted to the ids found.
    Restrict { id_field: String },
    /// The delete targets the last id found, which must exist.
    InjectLast { id_field: String },
}

/// One nested delete: the filter of the read of related records, the
/// delete, and the rule on the edge from the read to the delete.
#[derive(Debug)]
pub struct NestedDelete {
    pub find_children_filter: Filter,
    pub delete: WriteQuery,
    pub rule: ParentIdsRule,
}

/// The input of a nested delete: for a list relation, the record finders
/// read from each value (or the error of reading one); for a single
/// relation, the value (or the error of reading it).
#[derive(Debug)]
pub enum NestedDeleteInput {
    Finders(Vec<Result<RecordFinder, QueryGraphBuilderError>>),
    Value(Result<GraphValue, QueryGraphBuilderError>),
}

/// The first error among read record finders, if any.
pub open spec fn first_finder_error(finders: Seq<Result<RecordFinder, QueryGraphBuilderError>>) -> Option<
    QueryGraphBuilderError,
>
    decreases finders.len(),
{
    if finders.len() == 0 {
        None
    } else {
        match finders[0] {
            Err(e) => Some(e),
            Ok(_) => first_finder_error(finders.drop_first()),
        }
    }
}

/// `f` is the disjunction of the filters of the record finders.
pub open spec fn or_of_finders(f: Filter, finders: Seq<Result<RecordFinder, QueryGraphBuilderError>>) -> bool {
    match f {
        Filter::Or(v) => v@.len() == finders.len() && forall|i: int|
            0 <= i < finders.len() ==> #[trigger] v@[i] == finder_filter(finders[i].unwrap()),
        _ => false,
    }
}

proof fn lemma_skip_first<A>(s: Seq<A>, i: int)
    requires
        0 <= i < s.len(),
    ensures
        s.skip(i)[0] == s[i],
        s.skip(i).drop_first() =~= s.skip(i + 1),
{
}

/// The disjunction of the filters of the record finders, twice (once for
/// the read, once for the delete), or the first error among them.
fn or_filters(finders: &Vec<Result<RecordFinder, QueryGraphBuilderError>>) -> (res: Result<
    (Filter, Filter),
    QueryGraphBuilderError,
>)
    ensures
        match res {
            Ok((a, b)) => first_finder_error(finders@) is None && or_of_finders(a, finders@)
                && or_of_finders(b, finders@),
            Err(e) => first_finder_error(finders@) == Some(e),
        },
{
    let n = finders.len();
    let mut a: Vec<Filter> = Vec::new();
    let mut b: Vec<Filter> = Vec::new();
    assert(finders@.skip(0) =~= finders@);
    for i in 0..n
        invariant
            n == finders@.len(),
            first_finder_error(finders@) == first_finder_error(finders@.skip(i as int)),
            a@.len() == i,
            b@.len() == i,
            forall|j: int| 0 <= j < i ==> (#[trigger] finders@[j]) is Ok,
            forall|j: int| 0 <= j < i ==> #[trigger] a@[j] == finder_filter(finders@[j].unwrap()),
            forall|j: int| 0 <= j < i ==> #[trigger] b@[j] == finder_filter(finders@[j].unwrap()),
    {
        proof {
            lemma_skip_first(finders@, i as int);
        }
        match &finders[i] {
            Err(e) => {
                return Err(clone_error(e));
            },
            Ok(f) => {
                a.push(Filter::Equals { field: f.field.clone(), value: f.value.copy_value() });
                b.push(Filter::Equals { field: f.field.clone(), value: f.value.copy_value() });
            },
        }
    }
    assert(finders@.skip(n as int).len() == 0);
    Ok((Filter::Or(a), Filter::Or(b)))
}

/// A copy of an error.
pub fn clone_error(e: &QueryGraphBuilderError) -> (res: QueryGraphBuilderError)
    ensures
        res == *e,
{
    match e {
        QueryGraphBuilderError::RecordsNotConnected { relation_name, parent_name, child_name } =>
            QueryGraphBuilderError::RecordsNotConnected {
            relation_name: relation_name.clone(),
            parent_name: parent_name.clone(),
            child_name: child_name.clone(),
        },
        QueryGraphBuilderError::AssertionError(m) => QueryGraphBuilderError::AssertionError(m.clone()),
        QueryGraphBuilderError::InputError(m) => QueryGraphBuilderError::InputError(m.clone()),
    }
}

/// The nested delete through `parent_relation_field`.
///
/// On a list relation: every record finder must read; the read and the
/// delete-many both use the disjunction of the finders, and the edge checks
/// that as many related records as finders were found. On a single relation:
/// only the value `true` deletes; the read takes every related record, and
/// the delete targets the one found.
pub fn connect_nested_delete(
    parent_relation_field: &RelationFieldInfo,
    input: NestedDeleteInput,
    child_model: &ModelInfo,
) -> (res: Result<Option<NestedDelete>, QueryGraphBuilderError>)
    requires
        parent_relation_field.is_list <==> input is Finders,
    ensures
        match input {
            NestedDeleteInput::Finders(finders) => match res {
                Err(e) => first_finder_error(finders@) == Some(e),
                Ok(None) => false,
                Ok(Some(nd)) => {
                    &&& first_finder_error(finders@) is None
                    &&& or_of_finders(nd.find_children_filter, finders@)
                    &&& nd.delete matches WriteQuery::DeleteManyRecords(dm) && dm.model
                        == child_model.name && or_of_finders(dm.filter, finders@)
                    &&& nd.rule == ParentIdsRule::CheckedRestrict {
                        expected: finders@.len() as usize,
                        relation_name: parent_relation_field.relation_name,
                        parent_name: parent_relation_field.model_name,
                        child_name: child_model.name,
                        id_field: child_model.id_field,
                    }
                },
            },
            NestedDeleteInput::Value(v) => match v {
                Err(e) => res == Err::<Option<NestedDelete>, QueryGraphBuilderError>(e),
                Ok(val) => if val == GraphValue::Boolean(true) {
                    res matches Ok(Some(nd)) && nd.find_children_filter is Empty && nd.delete
                        == WriteQuery::DeleteRecord(
                        DeleteRecord { model: child_model.name, where_: None },
                    ) && nd.rule == ParentIdsRule::InjectLast { id_field: child_model.id_field }
                } else {
                    res matches Ok(None)
                },
            },
        },
{
    match input {
        NestedDeleteInput::Finders(finders) => {
            let (or_filter, delete_filter) = match or_filters(&finders) {
                Ok(pair) => pair,
                Err(e) => {
                    return Err(e);
                },
            };
            let filter_len = finders.len();
            Ok(
                Some(
                    NestedDelete {
                        find_children_filter: or_filter,
                        delete: WriteQuery::DeleteManyRecords(
                            DeleteManyRecords { model: child_model.name.clone(), filter: delete_filter },
                        ),
                        rule: ParentIdsRule::CheckedRestrict {
                            expected: filter_len,
                            relation_name: parent_relation_field.relation_name.clone(),
                            parent_name: parent_relation_field.model_name.clone(),
                            child_name: child_model.name.clone(),
                            id_field: child_model.id_field.clone(),
                        },
                    },
                ),
            )
        },
        NestedDeleteInput::Value(v) => {
            let val = match v {
                Ok(val) => val,
                Err(e) => {
                    return Err(e);
                },
            };
            let should_delete = match val {
                GraphValue::Boolean(b) => b,
                _ => false,
            };
            if should_delete {
                Ok(
                    Some(
                        NestedDelete {
                            find_children_filter: Filter::Empty,
                            delete: WriteQuery::DeleteRecord(
                                DeleteRecord { model: child_model.name.clone(), where_: None },
                            ),
                            rule: ParentIdsRule::InjectLast { id_field: child_model.id_field.clone() },
                        },
                    ),
                )
            } else {
                Ok(None)
            }
        },
    }
}

/// The first error among read filters, if any.
pub open spec fn first_filter_error(filters: Seq<Result<Filter, QueryGraphBuilderError>>) -> Option<
    QueryGraphBuilderError,
>
    decreases filters.len(),
{
    if filters.len() == 0 {
        None
    } else {
        match filters[0] {
            Err(e) => Some(e),
            Ok(_) => first_filter_error(filters.drop_first()),
        }
    }
}

/// `nd` reads the related records that pass `filter` and deletes, among the
/// records of `child_model` that pass `filter`, those found.
pub open spec fn delete_many_node(nd: NestedDelete, filter: Filter, child_model: ModelInfo) -> bool {
    &&& same_filter(nd.find_children_filter, filter)
    &&& nd.delete matches WriteQuery::DeleteManyRecords(dm) && dm.model == child_model.name
        && same_filter(dm.filter, filter)
    &&& nd.rule == ParentIdsRule::Restrict { id_field: child_model.id_field }
}

/// The nested delete-many through a relation field. For each filter read
/// from the input values, in order, one delete-many is added to `graph`,
/// reading the related records that pass the filter and restricted to the
/// ids found. At the first filter that could not be read, its error is
/// returned, and the nodes added for the filters before it stay in `graph`.
pub fn connect_nested_delete_many(
    graph: &mut Vec<NestedDelete>,
    filters: &Vec<Result<Filter, QueryGraphBuilderError>>,
    child_model: &ModelInfo,
) -> (res: Result<(), QueryGraphBuilderError>)
    ensures
        old(graph)@.len() <= final(graph)@.len() <= old(graph)@.len() + filters@.len(),
        final(graph)@.subrange(0, old(graph)@.len() as int) == old(graph)@,
        forall|i: int|
            0 <= i < final(graph)@.len() - old(graph)@.len() ==> {
                &&& (#[trigger] filters@[i]) is Ok
                &&& delete_many_node(final(graph)@[old(graph)@.len() + i], filters@[i].unwrap(), *child_model)
            },
        match res {
            Ok(_) => {
                &&& first_filter_error(filters@) is None
                &&& final(graph)@.len() == old(graph)@.len() + filters@.len()
            },
            Err(e) => {
                &&& first_filter_error(filters@) == Some(e)
                &&& final(graph)@.len() < old(graph)@.len() + filters@.len()
                &&& filters@[final(graph)@.len() - old(graph)@.len()] == Err::<Filter, QueryGraphBuilderError>(e)
            },
        },
{
    let n = filters.len();
    let ghost start = graph@;
    assert(filters@.skip(0) =~= filters@);
    for i in 0..n
        invariant
            n == filters@.len(),
            start == old(graph)@,
            first_filter_error(filters@) == first_filter_error(filters@.skip(i as int)),
            graph@.len() == start.len() + i,
            graph@.subrange(0, start.len() as int) == start,
            forall|j: int|
                0 <= j < i ==> {
                    &&& (#[trigger] filters@[j]) is Ok
                    &&& delete_many_node(graph@[start.len() + j], filters@[j].unwrap(), *child_model)
                },
    {
        proof {
            lemma_skip_first(filters@, i as int);
        }
        match &filters[i] {
            Err(e) => {
                return Err(clone_error(e));
            },
            Ok(filter) => {
                let ghost before = graph@;
                graph.push(
                    NestedDelete {
                        find_children_filter: copy_filter(filter),
                        delete: WriteQuery::DeleteManyRecords(
                            DeleteManyRecords {
                                model: child_model.name.clone(),
                                filter: copy_filter(filter),
                            },
                        ),
                        rule: ParentIdsRule::Restrict { id_field: child_model.id_field.clone() },
                    },
                );
                proof {
                    assert(graph@.subrange(0, start.len() as int) =~= before.subrange(0, start.len() as int));
                    assert forall|j: int| 0 <= j < i implies #[trigger] graph@[start.len() + j] == before[start.len() + j] by {}
                }
            },
        }
    }
    assert(filters@.skip(n as int).len() == 0);
    Ok(())
}

/// The message of a missing parent id.
pub open spec fn missing_parent_id_message() -> Seq<char> {
    "[Query Graph] Expected a valid parent ID to be present for a nested connect on a one-to-many relation."@
}

/// `res` is `node` restricted to the records whose `id_field` holds one of
/// `ids`: a delete-many's filter becomes the conjunction of its filter and
/// that restriction; other queries are unchanged.
pub open spec fn restricted(
    node: WriteQuery,
    id_field: String,
    ids: Seq<GraphValue>,
    res: Result<WriteQuery, QueryGraphBuilderError>,
) -> bool {
    match node {
        WriteQuery::DeleteManyRecords(dm) => res matches Ok(WriteQuery::DeleteManyRecords(dm2)) && {
            &&& dm2.model == dm.model
            &&& dm2.filter matches Filter::And(v) && v@.len() == 2 && v@[0] == dm.filter && (
            v@[1] matches Filter::In { field, values } && field == id_field && values@ == ids)
        },
        _ => res == Ok::<WriteQuery, QueryGraphBuilderError>(node),
    }
}

/// `res` is `node` targeting the record whose `id_field` holds `id`: a
/// single delete gets that record finder; other queries are unchanged.
pub open spec fn injected(
    node: WriteQuery,
    id_field: String,
    id: GraphValue,
    res: Result<WriteQuery, QueryGraphBuilderError>,
) -> bool {
    match node {
        WriteQuery::DeleteRecord(dr) => res == Ok::<WriteQuery, QueryGraphBuilderError>(
            WriteQuery::DeleteRecord(
                DeleteRecord { model: dr.model, where_: Some(RecordFinder { field: id_field, value: id }) },
            ),
        ),
        _ => res == Ok::<WriteQuery, QueryGraphBuilderError>(node),
    }
}

fn restrict_to_ids(node: WriteQuery, id_field: &String, parent_ids: Vec<GraphValue>) -> (res: Result<
    WriteQuery,
    QueryGraphBuilderError,
>)
    ensures
        restricted(node, *id_field, parent_ids@, res),
{
    match node {
        WriteQuery::DeleteManyRecords(dm) => {
            let ids_filter = Filter::In { field: id_field.clone(), values: parent_ids };
            let mut parts: Vec<Filter> = Vec::new();
            parts.push(dm.filter);
            parts.push(ids_filter);
            Ok(WriteQuery::DeleteManyRecords(DeleteManyRecords { model: dm.model, filter: Filter::And(parts) }))
        },
        other => Ok(other),
    }
}

/// Applies the rule of a nested delete's edge to the delete, given the ids
/// of the related records that the read found.
pub fn apply_parent_ids_rule(rule: &ParentIdsRule, node: WriteQuery, parent_ids: Vec<GraphValue>) -> (res:
    Result<WriteQuery, QueryGraphBuilderError>)
    ensures
        match *rule {
            ParentIdsRule::CheckedRestrict { expected, relation_name, parent_name, child_name, id_field } =>
                if parent_ids@.len() != expected {
                res == Err::<WriteQuery, QueryGraphBuilderError>(
                    QueryGraphBuilderError::RecordsNotConnected { relation_name, parent_name, child_name },
                )
            } else {
                restricted(node, id_field, parent_ids@, res)
            },
            ParentIdsRule::Restrict { id_field } => restricted(node, id_field, parent_ids@, res),
            ParentIdsRule::InjectLast { id_field } => if parent_ids@.len() == 0 {
                res matches Err(QueryGraphBuilderError::AssertionError(m)) && m@
                    == missing_parent_id_message()
            } else {
                injected(node, id_field, parent_ids@.last(), res)
            },
        },
{
    match rule {
        ParentIdsRule::CheckedRestrict { expected, relation_name, parent_name, child_name, id_field } => {
            if parent_ids.len() != *expected {
                return Err(
                    QueryGraphBuilderError::RecordsNotConnected {
                        relation_name: relation_name.clone(),
                        parent_name: parent_name.clone(),
                        child_name: child_name.clone(),
                    },
                );
            }
            restrict_to_ids(node, id_field, parent_ids)
        },
        ParentIdsRule::Restrict { id_field } => restrict_to_ids(node, id_field, parent_ids),
        ParentIdsRule::InjectLast { id_field } => {
            let mut ids = parent_ids;
            let parent_id = match ids.pop() {
                Some(pid) => pid,
                None => {
                    return Err(
                        QueryGraphBuilderError::AssertionError(
                            String::from_str(
                                "[Query Graph] Expected a valid parent ID to be present for a nested connect on a one-to-many relation.",
                            ),
                        ),
                    );
                },
            };
            match node {
                WriteQuery::DeleteRecord(dr) => Ok(
                    WriteQuery::DeleteRecord(
                        DeleteRecord {
                            model: dr.model,
                            where_: Some(RecordFinder { field: id_field.clone(), value: parent_id }),
                        },
                    ),
                ),
                other => Ok(other),
            }
        },
    }
}

} // verus!
