//! Requests to the metadata store that keeps build and deployment lineage,
//! and a model of what a write does to a table.
//!
//! The store only ever gains rows: it never deletes or updates one. A write
//! either inserts a row, or inserts it on a set of key columns only when no
//! row with the same key exists yet.
use vstd::prelude::*;

verus! {

/// The tables of the metadata store.
#[derive(Clone, Copy, Debug, PartialEq, Eq, Structural)]
pub enum Table {
    Projects,
    Functions,
    ProjectBuilds,
    FunctionDeployments,
}

pub open spec fn table_name(t: Table) -> Seq<char> {
    match t {
        Table::Projects => "projects"@,
        Table::Functions => "functions"@,
        Table::ProjectBuilds => "project_builds"@,
        Table::FunctionDeployments => "function_deployments"@,
    }
}

impl Table {
    pub fn name(&self) -> (r: &'static str)
        ensures
            r@ == table_name(*self),
    {
        match self {
            Table::Projects => "projects",
            Table::Functions => "functions",
            Table::ProjectBuilds => "project_builds",
            Table::FunctionDeployments => "function_deployments",
        }
    }
}

/// Status of a deployment row.
#[derive(Clone, Copy, Debug, PartialEq, Eq, Structural)]
pub enum DeployStatus {
    Success,
    Failure,
}

pub open spec fn status_text(s: DeployStatus) -> Seq<char> {
    match s {
        DeployStatus::Success => "success"@,
        DeployStatus::Failure => "failure"@,
    }
}

impl DeployStatus {
    pub fn as_str(&self) -> (r: &'static str)
        ensures
            r@ == status_text(*self),
    {
        match self {
            DeployStatus::Success => "success",
            DeployStatus::Failure => "failure",
        }
    }
}

/// One column of a row, or one equality filter of a read.
pub struct Column {
    pub name: String,
    pub value: String,
}

/// A row insertion. With key columns in `conflict`, a row whose key is
/// already present is left as it is and the write is no error. With
/// `returns_id`, the store answers with the new row, whose `id` is read back.
pub struct WriteRequest {
    pub table: Table,
    pub row: Vec<Column>,
    pub conflict: Vec<String>,
    pub returns_id: bool,
}

/// A read of the `id` column of at most `limit` rows that match every filter,
/// newest first when `newest_first` holds.
pub struct ReadRequest {
    pub table: Table,
    pub filters: Vec<Column>,
    pub newest_first: bool,
    pub limit: usize,
}

/// A row as column names and values.
pub type Row = Seq<(Seq<char>, Seq<char>)>;

pub open spec fn row_view(cols: Seq<Column>) -> Row {
    Seq::new(cols.len(), |i: int| (cols[i].name@, cols[i].value@))
}

pub open spec fn names_view(cols: Seq<String>) -> Seq<Seq<char>> {
    Seq::new(cols.len(), |i: int| cols[i]@)
}

/// Value of the first column of `row` named `col`.
pub open spec fn value_of(row: Row, col: Seq<char>) -> Option<Seq<char>>
    decreases row.len(),
{
    if row.len() == 0 {
        None
    } else if row[0].0 == col {
        Some(row[0].1)
    } else {
        value_of(row.drop_first(), col)
    }
}

/// Values of `row` in the key columns `cols`.
pub open spec fn key_of(row: Row, cols: Seq<Seq<char>>) -> Seq<Option<Seq<char>>> {
    Seq::new(cols.len(), |i: int| value_of(row, cols[i]))
}

/// Some row of `rows` has the key `key` in the columns `cols`.
pub open spec fn has_key(rows: Seq<Row>, cols: Seq<Seq<char>>, key: Seq<Option<Seq<char>>>) -> bool {
    exists|i: int| 0 <= i < rows.len() && key_of(#[trigger] rows[i], cols) == key
}

/// The rows of a table after writing `row`: appended, or, with key columns
/// `conflict`, appended only when no row has its key.
pub open spec fn apply_write(rows: Seq<Row>, row: Row, conflict: Seq<Seq<char>>) -> Seq<Row> {
    if conflict.len() > 0 && has_key(rows, conflict, key_of(row, conflict)) {
        rows
    } else {
        rows.push(row)
    }
}

/// Rows of `rows` whose key columns `cols` hold `key`.
pub open spec fn rows_with_key(rows: Seq<Row>, cols: Seq<Seq<char>>, key: Seq<Option<Seq<char>>>) -> Seq<Row> {
    rows.filter(|r: Row| key_of(r, cols) == key)
}

pub open spec fn registration_row(project_id: Seq<char>, name: Seq<char>) -> Row {
    seq![("project_id"@, project_id), ("name"@, name)]
}

pub open spec fn registration_key() -> Seq<Seq<char>> {
    seq!["project_id"@, "name"@]
}

pub open spec fn build_row(project_id: Seq<char>, commit_sha: Seq<char>, branch: Seq<char>, message: Seq<char>) -> Row {
    seq![
        ("project_id"@, project_id),
        ("commit_sha"@, commit_sha),
        ("branch_name"@, branch),
        ("commit_short_description"@, message),
    ]
}

/// The deployment row of a function; without a build row to refer to, it
/// carries no build column.
pub open spec fn deployment_row(function_id: Seq<char>, build_id: Option<Seq<char>>, status: DeployStatus) -> Row {
    match build_id {
        Some(b) => seq![("function_id"@, function_id), ("project_build_id"@, b), ("status"@, status_text(status))],
        None => seq![("function_id"@, function_id), ("status"@, status_text(status))],
    }
}

pub open spec fn opt_view(o: Option<String>) -> Option<Seq<char>> {
    match o {
        Some(s) => Some(s@),
        None => None,
    }
}

fn column(name: &str, value: &str) -> (r: Column)
    ensures
        r.name@ == name@,
        r.value@ == value@,
{
    Column { name: name.to_owned(), value: value.to_owned() }
}

/// Registers a function of a project: an upsert keyed on the project and the
/// function name, so that registering again is no error and adds no row.
pub fn ensure_function_registered(project_id: &str, name: &str) -> (r: WriteRequest)
    ensures
        r.table == Table::Functions,
        row_view(r.row@) == registration_row(project_id@, name@),
        names_view(r.conflict@) == registration_key(),
        !r.returns_id,
{
    let mut row: Vec<Column> = Vec::new();
    row.push(column("project_id", project_id));
    row.push(column("name", name));
    let mut conflict: Vec<String> = Vec::new();
    conflict.push("project_id".to_owned());
    conflict.push("name".to_owned());
    assert(row_view(row@) =~= registration_row(project_id@, name@));
    assert(names_view(conflict@) =~= registration_key());
    WriteRequest { table: Table::Functions, row, conflict, returns_id: false }
}

/// Inserts the one build row of a trigger; the store answers with the new
/// row, so that its identifier is this trigger's own.
pub fn create_build_record(project_id: &str, commit_sha: &str, branch: &str, message: &str) -> (r: WriteRequest)
    ensures
        r.table == Table::ProjectBuilds,
        row_view(r.row@) == build_row(project_id@, commit_sha@, branch@, message@),
        r.conflict@.len() == 0,
        r.returns_id,
{
    let mut row: Vec<Column> = Vec::new();
    row.push(column("project_id", project_id));
    row.push(column("commit_sha", commit_sha));
    row.push(column("branch_name", branch));
    row.push(column("commit_short_description", message));
    assert(row_view(row@) =~= build_row(project_id@, commit_sha@, branch@, message@));
    WriteRequest { table: Table::ProjectBuilds, row, conflict: Vec::new(), returns_id: true }
}

/// Inserts the deployment row of one function in one build.
pub fn record_deployment(function_id: &str, build_id: &Option<String>, status: DeployStatus) -> (r: WriteRequest)
    ensures
        r.table == Table::FunctionDeployments,
        row_view(r.row@) == deployment_row(function_id@, opt_view(*build_id), status),
        r.conflict@.len() == 0,
        !r.returns_id,
{
    let mut row: Vec<Column> = Vec::new();
    row.push(column("function_id", function_id));
    match build_id {
        Some(b) => row.push(column("project_build_id", b.as_str())),
        None => {},
    }
    row.push(column("status", status.as_str()));
    assert(row_view(row@) =~= deployment_row(function_id@, opt_view(*build_id), status));
    WriteRequest { table: Table::FunctionDeployments, row, conflict: Vec::new(), returns_id: false }
}

/// Reads the identifier of a registered function.
pub fn lookup_function_id(project_id: &str, name: &str) -> (r: ReadRequest)
    ensures
        r.table == Table::Functions,
        row_view(r.filters@) == registration_row(project_id@, name@),
        !r.newest_first,
        r.limit == 1,
{
    let mut filters: Vec<Column> = Vec::new();
    filters.push(column("project_id", project_id));
    filters.push(column("name", name));
    assert(row_view(filters@) =~= registration_row(project_id@, name@));
    ReadRequest { table: Table::Functions, filters, newest_first: false, limit: 1 }
}

/// Reads the identifier of the project of a repository.
pub fn lookup_project_id(repo_id: &str) -> (r: ReadRequest)
    ensures
        r.table == Table::Projects,
        row_view(r.filters@) == seq![("github_repo_id"@, repo_id@)],
        !r.newest_first,
        r.limit == 1,
{
    let mut filters: Vec<Column> = Vec::new();
    filters.push(column("github_repo_id", repo_id));
    assert(row_view(filters@) =~= seq![("github_repo_id"@, repo_id@)]);
    ReadRequest { table: Table::Projects, filters, newest_first: false, limit: 1 }
}

/// Writing the same keyed row twice leaves a table as writing it once does.
/// No row is deleted or changed: the table only grows, by at most the written
/// row. Afterwards a row has the written key, and when none had it before,
/// exactly one has.
pub proof fn lemma_keyed_write(rows: Seq<Row>, row: Row, conflict: Seq<Seq<char>>)
    requires
        conflict.len() > 0,
    ensures
        ({
            let once = apply_write(rows, row, conflict);
            let k = key_of(row, conflict);
            &&& apply_write(once, row, conflict) == once
            &&& once.len() <= rows.len() + 1
            &&& once.subrange(0, rows.len() as int) == rows
            &&& has_key(once, conflict, k)
            &&& !has_key(rows, conflict, k) ==> rows_with_key(once, conflict, k).len() == 1
        }),
{
    let k = key_of(row, conflict);
    let q = |r: Row| key_of(r, conflict) == k;
    let once = apply_write(rows, row, conflict);
    if !has_key(rows, conflict, k) {
        assert(once.last() == row);
        assert(has_key(once, conflict, k));
        rows.lemma_filter_push(row, q);
        assert forall|i: int| 0 <= i < rows.len() implies !q(#[trigger] rows[i]) by {
            if q(rows[i]) {
                assert(has_key(rows, conflict, k));
            }
        }
        assert(rows.all(|x: Row| !q(x)));
        rows.lemma_all_neg_filter_empty(q);
    }
    assert(once.subrange(0, rows.len() as int) =~= rows);
}

/// The functions table after registering a function `times` times.
pub open spec fn registered(rows: Seq<Row>, project_id: Seq<char>, name: Seq<char>, times: nat) -> Seq<Row>
    decreases times,
{
    if times == 0 {
        rows
    } else {
        apply_write(registered(rows, project_id, name, (times - 1) as nat), registration_row(project_id, name), registration_key())
    }
}

/// Registering a function any number of times, at least once, gives the
/// functions table exactly what registering it once gives: existing rows are
/// kept as they are, and when the function was absent it gains exactly one
/// row for its project and name. So any later lookup of its identifier reads
/// the same row whatever the number of registrations.
pub proof fn lemma_registration_idempotent(rows: Seq<Row>, project_id: Seq<char>, name: Seq<char>, times: nat)
    requires
        times >= 1,
    ensures
        registered(rows, project_id, name, times) == registered(rows, project_id, name, 1),
        ({
            let once = registered(rows, project_id, name, 1);
            let k = key_of(registration_row(project_id, name), registration_key());
            &&& once.subrange(0, rows.len() as int) == rows
            &&& once.len() <= rows.len() + 1
            &&& !has_key(rows, registration_key(), k) ==> rows_with_key(once, registration_key(), k).len() == 1
        }),
    decreases times,
{
    lemma_keyed_write(rows, registration_row(project_id, name), registration_key());
    assert(registered(rows, project_id, name, 0) == rows);
    if times > 1 {
        lemma_registration_idempotent(rows, project_id, name, (times - 1) as nat);
        lemma_keyed_write(
            registered(rows, project_id, name, 1),
            registration_row(project_id, name),
            registration_key(),
        );
    }
}

} // verus!
