//! Query gateway: what goes to the engine with a statement and what comes
//! back to the caller.
//!
//! Parameters are bound by position, each converted to a native value. A
//! row comes back as an object with one member for each column, in column
//! order; a statement that writes comes back as a count and a row id.

use crate::codec::{external_of, json_to_libsql_value, libsql_value_to_json, native_of};
use crate::values::{JsonModel, JsonValue, SqlModel, SqlValue};
use vstd::prelude::*;

verus! {

/// The name given to a column that the engine reports without a name.
pub const UNNAMED_COLUMN: &'static str = "unknown";

/// What a statement that writes reports.
#[derive(Debug, Clone, Copy, PartialEq, Eq)]
pub struct ExecuteResult {
    /// How many rows the statement changed.
    pub rows_affected: u64,
    /// The row id of the last insert on the connection.
    pub last_insert_id: i64,
}

/// A column of a fetched row: its name, if the engine gave one, and its
/// value.
pub type Column = (Option<String>, SqlValue);

/// The native values bound to a statement for a list of JSON parameters,
/// position by position.
pub open spec fn bound_params(params: Seq<JsonValue>) -> Seq<SqlModel> {
    params.map_values(|p: JsonValue| native_of(p@))
}

/// The member that a column contributes to the object of its row.
pub open spec fn member_of(column: Column) -> (Seq<char>, JsonModel) {
    (
        match column.0 {
            Some(name) => name@,
            None => UNNAMED_COLUMN@,
        },
        external_of(column.1@),
    )
}

/// A member of an object: its name and its value.
pub type Member = (Seq<char>, JsonModel);

/// Member `i` of `members` bears the name `name`.
pub open spec fn named(members: Seq<Member>, i: int, name: Seq<char>) -> bool {
    0 <= i < members.len() && members[i].0 == name
}

/// Some member bears the name `name`.
pub open spec fn has_name(members: Seq<Member>, name: Seq<char>) -> bool {
    exists|i: int| named(members, i, name)
}

/// No two members bear the same name.
pub open spec fn names_distinct(members: Seq<Member>) -> bool {
    forall|i: int, j: int|
        0 <= i < j < members.len() ==> (#[trigger] members[i]).0 != (#[trigger] members[j]).0
}

/// The place of the member that bears the name `name`.
pub open spec fn place_of(members: Seq<Member>, name: Seq<char>) -> int {
    choose|i: int| named(members, i, name)
}

/// The members after `member` was put in: a member of that name keeps its
/// place and takes the new value; a new name goes to the end.
pub open spec fn with_member(members: Seq<Member>, member: Member) -> Seq<Member> {
    if has_name(members, member.0) {
        members.update(place_of(members, member.0), member)
    } else {
        members.push(member)
    }
}

/// The members of the object of a row: the columns put in one after the
/// other, in column order.
pub open spec fn row_members(columns: Seq<Column>) -> Seq<Member>
    decreases columns.len(),
{
    if columns.len() == 0 {
        Seq::empty()
    } else {
        with_member(row_members(columns.drop_last()), member_of(columns.last()))
    }
}

/// The object that stands for a row: a mapping from column name to value,
/// in column order. Where two columns bear one name, the name keeps the
/// place of the first and the value of the last.
pub open spec fn row_object(columns: Seq<Column>) -> JsonModel {
    JsonModel::Object(row_members(columns))
}

/// The models of the members of an object under construction.
pub open spec fn member_models(members: Seq<(String, JsonValue)>) -> Seq<Member> {
    members.map_values(|m: (String, JsonValue)| (m.0@, m.1@))
}

/// The objects that stand for the rows of a result, in the order in which
/// the rows were fetched.
pub open spec fn row_objects(rows: Seq<Vec<Column>>) -> Seq<JsonModel> {
    rows.map_values(|r: Vec<Column>| row_object(r@))
}

/// The models of a list of native values.
pub open spec fn native_models(values: Seq<SqlValue>) -> Seq<SqlModel> {
    values.map_values(|v: SqlValue| v@)
}

/// The models of a list of JSON values.
pub open spec fn external_models(values: Seq<JsonValue>) -> Seq<JsonModel> {
    values.map_values(|v: JsonValue| v@)
}

/// Converts the parameters of a request to the values to bind, keeping
/// their number and order.
pub fn bind_params(params: Vec<JsonValue>) -> (bound: Vec<SqlValue>)
    ensures
        native_models(bound@) == bound_params(params@),
{
    let mut bound: Vec<SqlValue> = Vec::new();
    let ghost all = params@;
    for param in it: params.into_iter()
        invariant
            it.seq() == all,
            bound@.len() == it.index(),
            forall|j: int| 0 <= j < bound@.len() ==> bound@[j]@ == native_of(all[j]@),
    {
        bound.push(json_to_libsql_value(param));
    }
    assert(native_models(bound@) =~= bound_params(all));
    bound
}

/// Where distinct names are, a name stands at one place only.
pub proof fn lemma_place_is_unique(members: Seq<Member>, i: int, name: Seq<char>)
    requires
        names_distinct(members),
        named(members, i, name),
    ensures
        place_of(members, name) == i,
        has_name(members, name),
{
    let p = place_of(members, name);
    assert(named(members, p, name));
    if p < i {
        assert(members[p].0 != members[i].0);
    } else if i < p {
        assert(members[i].0 != members[p].0);
    }
}

/// Putting a member in keeps the names distinct.
pub proof fn lemma_with_member_keeps_distinct(members: Seq<Member>, member: Member)
    requires
        names_distinct(members),
    ensures
        names_distinct(with_member(members, member)),
        has_name(with_member(members, member), member.0),
        with_member(members, member)[place_of(with_member(members, member), member.0)] == member,
{
    let after = with_member(members, member);
    if has_name(members, member.0) {
        let p = place_of(members, member.0);
        assert(named(members, p, member.0));
        assert forall|i: int, j: int| 0 <= i < j < after.len() implies (#[trigger] after[i]).0 != (
        #[trigger] after[j]).0 by {
            assert(after[i].0 == members[i].0);
            assert(after[j].0 == members[j].0);
        }
        assert(named(after, p, member.0));
        lemma_place_is_unique(after, p, member.0);
    } else {
        assert forall|i: int, j: int| 0 <= i < j < after.len() implies (#[trigger] after[i]).0 != (
        #[trigger] after[j]).0 by {
            if j == members.len() {
                assert(!named(members, i, member.0));
            } else {
                assert(after[i].0 == members[i].0);
                assert(after[j].0 == members[j].0);
            }
        }
        let p = members.len() as int;
        assert(named(after, p, member.0));
        lemma_place_is_unique(after, p, member.0);
    }
}

/// Finds the member that bears the name `name`.
fn find_name(members: &Vec<(String, JsonValue)>, name: &String) -> (place: Option<usize>)
    ensures
        match place {
            Some(i) => named(member_models(members@), i as int, name@),
            None => !has_name(member_models(members@), name@),
        },
{
    let mut i: usize = 0;
    while i < members.len()
        invariant
            i <= members@.len(),
            forall|j: int| 0 <= j < i ==> !named(member_models(members@), j, name@),
        decreases members@.len() - i,
    {
        if members[i].0 == *name {
            return Some(i);
        }
        i += 1;
    }
    None
}

/// Converts a fetched row to its object. A column without a name is given
/// the placeholder name; a name that occurs again keeps its place and
/// takes the later value, so that no name occurs twice.
pub fn row_to_json(columns: Vec<Column>) -> (object: JsonValue)
    ensures
        object@ == row_object(columns@),
        names_distinct(row_members(columns@)),
{
    let mut members: Vec<(String, JsonValue)> = Vec::new();
    let ghost all = columns@;
    assert(all.take(0) =~= Seq::<Column>::empty());
    assert(member_models(members@) =~= row_members(all.take(0)));
    for column in it: columns.into_iter()
        invariant
            it.seq() == all,
            it.index() <= all.len(),
            member_models(members@) == row_members(all.take(it.index() as int)),
            names_distinct(member_models(members@)),
    {
        let ghost k = it.index() as int;
        let ghost before = member_models(members@);
        let (name, value) = column;
        let name = match name {
            Some(name) => name,
            None => String::from_str(UNNAMED_COLUMN),
        };
        let value = libsql_value_to_json(value);
        let ghost member = (name@, value@);
        proof {
            assert(all.take(k + 1).drop_last() =~= all.take(k));
            assert(all.take(k + 1).last() == all[k]);
            assert(member == member_of(all[k]));
            lemma_with_member_keeps_distinct(before, member);
        }
        match find_name(&members, &name) {
            Some(i) => {
                proof {
                    lemma_place_is_unique(before, i as int, member.0);
                }
                members.set(i, (name, value));
                assert(member_models(members@) =~= before.update(i as int, member));
            },
            None => {
                members.push((name, value));
                assert(member_models(members@) =~= before.push(member));
            },
        }
    }
    assert(all.take(all.len() as int) =~= all);
    let ghost listed = member_models(members@);
    let object = JsonValue::Object(members);
    assert(object@->Object_0 =~= listed);
    object
}

/// Converts the rows of a result to their objects, in order.
pub fn rows_to_json(rows: Vec<Vec<Column>>) -> (objects: Vec<JsonValue>)
    ensures
        external_models(objects@) == row_objects(rows@),
{
    let mut objects: Vec<JsonValue> = Vec::new();
    let ghost all = rows@;
    for row in it: rows.into_iter()
        invariant
            it.seq() == all,
            objects@.len() == it.index(),
            forall|j: int| 0 <= j < objects@.len() ==> objects@[j]@ == row_object(all[j]@),
    {
        objects.push(row_to_json(row));
    }
    assert(external_models(objects@) =~= row_objects(all));
    objects
}

/// The report of a statement that writes: the count the engine returned
/// and the row id the connection holds after it.
pub fn statement_result(rows_affected: u64, last_insert_id: i64) -> (result: ExecuteResult)
    ensures
        result == (ExecuteResult { rows_affected, last_insert_id }),
{
    ExecuteResult { rows_affected, last_insert_id }
}

/// Binding keeps the number of parameters, and each bound value depends on
/// the parameter at its own position alone.
pub proof fn lemma_binding_is_positional(params: Seq<JsonValue>, k: int)
    requires
        0 <= k < params.len(),
    ensures
        bound_params(params).len() == params.len(),
        bound_params(params)[k] == native_of(params[k]@),
{
}

/// The object of a row is a mapping: no name occurs twice in it.
pub proof fn lemma_row_names_are_distinct(columns: Seq<Column>)
    ensures
        names_distinct(row_members(columns)),
    decreases columns.len(),
{
    if columns.len() > 0 {
        lemma_row_names_are_distinct(columns.drop_last());
        lemma_with_member_keeps_distinct(
            row_members(columns.drop_last()),
            member_of(columns.last()),
        );
    }
}

/// Every column is in the object of its row, under its own name or the
/// placeholder name; and where no later column bears the same name, the
/// member of that name holds the value of this column.
pub proof fn lemma_row_holds_every_column(columns: Seq<Column>, k: int)
    requires
        0 <= k < columns.len(),
    ensures
        has_name(row_members(columns), member_of(columns[k]).0),
        columns[k].0 is None ==> has_name(row_members(columns), UNNAMED_COLUMN@),
        (forall|j: int| k < j < columns.len() ==> member_of(#[trigger] columns[j]).0 != member_of(
            columns[k],
        ).0) ==> row_members(columns)[place_of(row_members(columns), member_of(columns[k]).0)]
            == member_of(columns[k]),
    decreases columns.len(),
{
    let shorter = columns.drop_last();
    let members = row_members(shorter);
    let last = member_of(columns.last());
    let name = member_of(columns[k]).0;
    lemma_row_names_are_distinct(shorter);
    lemma_row_names_are_distinct(columns);
    lemma_with_member_keeps_distinct(members, last);
    if k == columns.len() - 1 {
    } else {
        assert(shorter[k] == columns[k]);
        lemma_row_holds_every_column(shorter, k);
        let p = place_of(members, name);
        assert(named(members, p, name));
        let after = with_member(members, last);
        if has_name(members, last.0) {
            let q = place_of(members, last.0);
            assert(named(members, q, last.0));
            if last.0 == name {
                assert(named(after, q, name));
            } else {
                assert(named(after, p, name));
                lemma_place_is_unique(after, p, name);
            }
        } else {
            assert(named(after, p, name));
            lemma_place_is_unique(after, p, name);
        }
        if forall|j: int| k < j < columns.len() ==> member_of(#[trigger] columns[j]).0 != name {
            assert(member_of(columns[columns.len() - 1]).0 != name);
            assert forall|j: int| k < j < shorter.len() implies member_of(
                #[trigger] shorter[j],
            ).0 != name by {
                assert(shorter[j] == columns[j]);
            }
        }
    }
}

/// Where all columns bear different names, the object has exactly one
/// member for each column, in column order.
pub proof fn lemma_distinct_columns_keep_their_order(columns: Seq<Column>)
    requires
        forall|i: int, j: int|
            0 <= i < j < columns.len() ==> member_of(#[trigger] columns[i]).0 != member_of(
                #[trigger] columns[j],
            ).0,
    ensures
        row_members(columns) == columns.map_values(|c: Column| member_of(c)),
    decreases columns.len(),
{
    if columns.len() > 0 {
        let shorter = columns.drop_last();
        assert forall|i: int, j: int| 0 <= i < j < shorter.len() implies member_of(
            #[trigger] shorter[i],
        ).0 != member_of(#[trigger] shorter[j]).0 by {
            assert(shorter[i] == columns[i] && shorter[j] == columns[j]);
        }
        lemma_distinct_columns_keep_their_order(shorter);
        let members = row_members(shorter);
        let last = member_of(columns.last());
        assert(!has_name(members, last.0)) by {
            if has_name(members, last.0) {
                let p = place_of(members, last.0);
                assert(named(members, p, last.0));
                assert(members[p] == member_of(shorter[p]));
                assert(shorter[p] == columns[p]);
                assert(member_of(columns[p]).0 != member_of(columns[columns.len() - 1]).0);
            }
        }
        assert(row_members(columns) =~= columns.map_values(|c: Column| member_of(c)));
    } else {
        assert(row_members(columns) =~= columns.map_values(|c: Column| member_of(c)));
    }
}

} // verus!
