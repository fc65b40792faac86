use vstd::prelude::*;

use crate::fetch::FetchResult;
use crate::model::{Issue, MergeRequest, Milestone, Project, TimeLog, User};

verus! {

pub const ENABLE_FOREIGN_KEYS: &'static str = "PRAGMA foreign_keys = ON";

pub const CREATE_USER: &'static str = "CREATE TABLE User (id INTEGER NOT NULL PRIMARY KEY, username VARCHAR)";

pub const CREATE_PROJECT: &'static str = "CREATE TABLE Project (id INTEGER NOT NULL PRIMARY KEY, name VARCHAR)";

pub const CREATE_MILESTONE: &'static str = "CREATE TABLE Milestone (id INTEGER NOT NULL PRIMARY KEY, name VARCHAR)";

pub const CREATE_ISSUE: &'static str = "CREATE TABLE Issue (
            id INTEGER NOT NULL PRIMARY KEY,
            iid INTEGER NOT NULL,
            project_id INTEGER NOT NULL,
            milestone_id INTEGER,
            name VARCHAR,
            CONSTRAINT fk_project_id FOREIGN KEY (project_id) REFERENCES Project (id),
            CONSTRAINT fk_milestone_id FOREIGN KEY (milestone_id) REFERENCES Milestone (id)
        )";

pub const CREATE_MERGE_REQUEST: &'static str = "CREATE TABLE MergeRequest (
            id INTEGER NOT NULL PRIMARY KEY,
            iid INTEGER NOT NULL,
            project_id INTEGER NOT NULL,
            milestone_id INTEGER,
            name VARCHAR,
            CONSTRAINT fk_project_id FOREIGN KEY (project_id) REFERENCES Project (id),
            CONSTRAINT fk_milestone_id FOREIGN KEY (milestone_id) REFERENCES Milestone (id)
        )";

pub const CREATE_TIME_LOG: &'static str = "CREATE TABLE TimeLog (
            time INTEGER NOT NULL,
            date VARCHAR NOT NULL,
            user_id INTEGER NOT NULL,
            issue_id INTEGER,
            merge_request_id INTEGER,
            PRIMARY KEY (user_id, date),
            CONSTRAINT fk_user_id FOREIGN KEY (user_id) REFERENCES User (id),
            CONSTRAINT fk_issue_id FOREIGN KEY (issue_id) REFERENCES Issue (id),
            CONSTRAINT fk_merge_request_id FOREIGN KEY (merge_request_id) REFERENCES MergeRequest (id)
        )";

pub const INSERT_USER: &'static str = "INSERT INTO User VALUES (?,?)";

pub const INSERT_PROJECT: &'static str = "INSERT INTO Project VALUES (?,?)";

pub const INSERT_MILESTONE: &'static str = "INSERT INTO Milestone VALUES (?,?)";

pub const INSERT_ISSUE: &'static str = "INSERT INTO Issue VALUES (?,?,?,?,?)";

pub const INSERT_MERGE_REQUEST: &'static str = "INSERT INTO MergeRequest VALUES (?,?,?,?,?)";

pub const INSERT_TIME_LOG: &'static str = "INSERT INTO TimeLog VALUES (?,?,?,?,?)";

/// The six tables of the store.
#[derive(Clone, Copy, Debug, PartialEq, Eq, Structural)]
pub enum Table {
    User,
    Project,
    Milestone,
    Issue,
    MergeRequest,
    TimeLog,
}

/// A value bound to a placeholder of a statement.
#[derive(Clone, Debug, PartialEq, Eq)]
pub enum SqlValue {
    Null,
    Integer(i64),
    Text(String),
}

/// One statement on the store, with the values of its placeholders.
#[derive(Clone, Debug, PartialEq, Eq)]
pub enum Statement {
    EnableForeignKeys,
    Create(Table),
    Insert(Table, Vec<SqlValue>),
}

/// What a statement is, with its values as a sequence.
pub enum StatementView {
    EnableForeignKeys,
    Create(Table),
    Insert(Table, Seq<SqlValue>),
}

impl View for Statement {
    type V = StatementView;

    open spec fn view(&self) -> StatementView {
        match self {
            Statement::EnableForeignKeys => StatementView::EnableForeignKeys,
            Statement::Create(t) => StatementView::Create(*t),
            Statement::Insert(t, v) => StatementView::Insert(*t, v@),
        }
    }
}

/// Whether rows of `from` hold a foreign key into `to`.
pub open spec fn references(from: Table, to: Table) -> bool {
    match from {
        Table::Issue | Table::MergeRequest => to == Table::Project || to == Table::Milestone,
        Table::TimeLog => to == Table::User || to == Table::Issue || to == Table::MergeRequest,
        _ => false,
    }
}

pub open spec fn opt_value(v: Option<u32>) -> SqlValue {
    match v {
        Some(x) => SqlValue::Integer(x as i64),
        None => SqlValue::Null,
    }
}

pub open spec fn user_row(u: User) -> Seq<SqlValue> {
    seq![SqlValue::Integer(u.id as i64), SqlValue::Text(u.username)]
}

pub open spec fn project_row(p: Project) -> Seq<SqlValue> {
    seq![SqlValue::Integer(p.id as i64), SqlValue::Text(p.name)]
}

pub open spec fn milestone_row(m: Milestone) -> Seq<SqlValue> {
    seq![SqlValue::Integer(m.id as i64), SqlValue::Text(m.name)]
}

pub open spec fn issue_row(i: Issue) -> Seq<SqlValue> {
    seq![
        SqlValue::Integer(i.id as i64),
        SqlValue::Integer(i.iid as i64),
        SqlValue::Integer(i.project_id as i64),
        opt_value(i.milestone_id),
        SqlValue::Text(i.name),
    ]
}

pub open spec fn merge_request_row(m: MergeRequest) -> Seq<SqlValue> {
    seq![
        SqlValue::Integer(m.id as i64),
        SqlValue::Integer(m.iid as i64),
        SqlValue::Integer(m.project_id as i64),
        opt_value(m.milestone_id),
        SqlValue::Text(m.name),
    ]
}

pub open spec fn time_log_row(t: TimeLog) -> Seq<SqlValue> {
    seq![
        SqlValue::Integer(t.time),
        SqlValue::Text(t.date),
        SqlValue::Integer(t.user_id as i64),
        opt_value(t.issue_id),
        opt_value(t.merge_request_id),
    ]
}

/// Foreign keys on, then the six tables, each after those it references.
pub open spec fn schema_plan() -> Seq<StatementView> {
    seq![
        StatementView::EnableForeignKeys,
        StatementView::Create(Table::User),
        StatementView::Create(Table::Project),
        StatementView::Create(Table::Milestone),
        StatementView::Create(Table::Issue),
        StatementView::Create(Table::MergeRequest),
        StatementView::Create(Table::TimeLog),
    ]
}

/// Every statement that writes a result, in order: the schema, then users,
/// projects, milestones, issues, merge requests and time logs, each in the
/// order of its collection.
pub open spec fn plan_of(r: FetchResult) -> Seq<StatementView> {
    schema_plan() + r.users@.map_values(
        |u: User| StatementView::Insert(Table::User, user_row(u)),
    ) + r.projects@.map_values(|p: Project| StatementView::Insert(Table::Project, project_row(p)))
        + r.milestones@.map_values(
        |m: Milestone| StatementView::Insert(Table::Milestone, milestone_row(m)),
    ) + r.issues@.map_values(|i: Issue| StatementView::Insert(Table::Issue, issue_row(i)))
        + r.merge_requests@.map_values(
        |m: MergeRequest| StatementView::Insert(Table::MergeRequest, merge_request_row(m)),
    ) + r.time_logs@.map_values(|t: TimeLog| StatementView::Insert(Table::TimeLog, time_log_row(t)))
}

pub open spec fn views(s: Seq<Statement>) -> Seq<StatementView> {
    s.map_values(|x: Statement| x@)
}

impl Table {
    /// The statement that creates the table.
    pub fn create_sql(&self) -> (r: &'static str)
        ensures
            *self == Table::User ==> r == CREATE_USER,
            *self == Table::Project ==> r == CREATE_PROJECT,
            *self == Table::Milestone ==> r == CREATE_MILESTONE,
            *self == Table::Issue ==> r == CREATE_ISSUE,
            *self == Table::MergeRequest ==> r == CREATE_MERGE_REQUEST,
            *self == Table::TimeLog ==> r == CREATE_TIME_LOG,
    {
        match self {
            Table::User => CREATE_USER,
            Table::Project => CREATE_PROJECT,
            Table::Milestone => CREATE_MILESTONE,
            Table::Issue => CREATE_ISSUE,
            Table::MergeRequest => CREATE_MERGE_REQUEST,
            Table::TimeLog => CREATE_TIME_LOG,
        }
    }

    /// The statement that inserts one row, its columns in the order of creation.
    pub fn insert_sql(&self) -> (r: &'static str)
        ensures
            *self == Table::User ==> r == INSERT_USER,
            *self == Table::Project ==> r == INSERT_PROJECT,
            *self == Table::Milestone ==> r == INSERT_MILESTONE,
            *self == Table::Issue ==> r == INSERT_ISSUE,
            *self == Table::MergeRequest ==> r == INSERT_MERGE_REQUEST,
            *self == Table::TimeLog ==> r == INSERT_TIME_LOG,
    {
        match self {
            Table::User => INSERT_USER,
            Table::Project => INSERT_PROJECT,
            Table::Milestone => INSERT_MILESTONE,
            Table::Issue => INSERT_ISSUE,
            Table::MergeRequest => INSERT_MERGE_REQUEST,
            Table::TimeLog => INSERT_TIME_LOG,
        }
    }
}

impl Statement {
    /// The text of the statement; its placeholders take `values`.
    pub fn sql(&self) -> (r: &'static str)
        ensures
            self matches Statement::EnableForeignKeys ==> r == ENABLE_FOREIGN_KEYS,
            self matches Statement::Create(t) ==> r == t.create_sql_spec(),
            self matches Statement::Insert(t, _) ==> r == t.insert_sql_spec(),
    {
        match self {
            Statement::EnableForeignKeys => ENABLE_FOREIGN_KEYS,
            Statement::Create(t) => t.create_sql(),
            Statement::Insert(t, _) => t.insert_sql(),
        }
    }
}

impl Table {
    pub open spec fn create_sql_spec(&self) -> &'static str {
        match self {
            Table::User => CREATE_USER,
            Table::Project => CREATE_PROJECT,
            Table::Milestone => CREATE_MILESTONE,
            Table::Issue => CREATE_ISSUE,
            Table::MergeRequest => CREATE_MERGE_REQUEST,
            Table::TimeLog => CREATE_TIME_LOG,
        }
    }

    pub open spec fn insert_sql_spec(&self) -> &'static str {
        match self {
            Table::User => INSERT_USER,
            Table::Project => INSERT_PROJECT,
            Table::Milestone => INSERT_MILESTONE,
            Table::Issue => INSERT_ISSUE,
            Table::MergeRequest => INSERT_MERGE_REQUEST,
            Table::TimeLog => INSERT_TIME_LOG,
        }
    }
}

fn id_value(v: u32) -> (r: SqlValue)
    ensures
        r == SqlValue::Integer(v as i64),
{
    SqlValue::Integer(v as i64)
}

fn opt_id_value(v: Option<u32>) -> (r: SqlValue)
    ensures
        r == opt_value(v),
{
    match v {
        Some(x) => SqlValue::Integer(x as i64),
        None => SqlValue::Null,
    }
}

/// The statements that create the store's schema, with foreign keys enforced.
pub fn create_tables() -> (r: Vec<Statement>)
    ensures
        views(r@) == schema_plan(),
{
    let r = vec![
        Statement::EnableForeignKeys,
        Statement::Create(Table::User),
        Statement::Create(Table::Project),
        Statement::Create(Table::Milestone),
        Statement::Create(Table::Issue),
        Statement::Create(Table::MergeRequest),
        Statement::Create(Table::TimeLog),
    ];
    assert(views(r@) =~= schema_plan());
    r
}

pub fn insert_users(users: &Vec<User>, out: &mut Vec<Statement>)
    ensures
        views(final(out)@) == views(old(out)@) + users@.map_values(
            |u: User| StatementView::Insert(Table::User, user_row(u)),
        ),
{
    let ghost start = views(out@);
    let mut i: usize = 0;
    while i < users.len()
        invariant
            i <= users@.len(),
            views(out@) == start + users@.take(i as int).map_values(
                |u: User| StatementView::Insert(Table::User, user_row(u)),
            ),
        decreases users@.len() - i,
    {
        let u = &users[i];
        let row = vec![id_value(u.id), SqlValue::Text(u.username.clone())];
        assert(row@ =~= user_row(users@[i as int]));
        let ghost prev = out@;
        let ghost rv = row@;
        out.push(Statement::Insert(Table::User, row));
        assert(views(out@) =~= views(prev).push(StatementView::Insert(Table::User, rv)));
        assert(users@.take(i + 1) =~= users@.take(i as int).push(users@[i as int]));
        assert(views(out@) =~= start + users@.take(i + 1).map_values(
            |u: User| StatementView::Insert(Table::User, user_row(u)),
        ));
        i = i + 1;
    }
    assert(users@.take(users@.len() as int) =~= users@);
}

pub fn insert_projects(projects: &Vec<Project>, out: &mut Vec<Statement>)
    ensures
        views(final(out)@) == views(old(out)@) + projects@.map_values(
            |p: Project| StatementView::Insert(Table::Project, project_row(p)),
        ),
{
    let ghost start = views(out@);
    let mut i: usize = 0;
    while i < projects.len()
        invariant
            i <= projects@.len(),
            views(out@) == start + projects@.take(i as int).map_values(
                |p: Project| StatementView::Insert(Table::Project, project_row(p)),
            ),
        decreases projects@.len() - i,
    {
        let p = &projects[i];
        let row = vec![id_value(p.id), SqlValue::Text(p.name.clone())];
        assert(row@ =~= project_row(projects@[i as int]));
        let ghost prev = out@;
        let ghost rv = row@;
        out.push(Statement::Insert(Table::Project, row));
        assert(views(out@) =~= views(prev).push(StatementView::Insert(Table::Project, rv)));
        assert(projects@.take(i + 1) =~= projects@.take(i as int).push(projects@[i as int]));
        assert(views(out@) =~= start + projects@.take(i + 1).map_values(
            |p: Project| StatementView::Insert(Table::Project, project_row(p)),
        ));
        i = i + 1;
    }
    assert(projects@.take(projects@.len() as int) =~= projects@);
}

pub fn insert_milestones(milestones: &Vec<Milestone>, out: &mut Vec<Statement>)
    ensures
        views(final(out)@) == views(old(out)@) + milestones@.map_values(
            |m: Milestone| StatementView::Insert(Table::Milestone, milestone_row(m)),
        ),
{
    let ghost start = views(out@);
    let mut i: usize = 0;
    while i < milestones.len()
        invariant
            i <= milestones@.len(),
            views(out@) == start + milestones@.take(i as int).map_values(
                |m: Milestone| StatementView::Insert(Table::Milestone, milestone_row(m)),
            ),
        decreases milestones@.len() - i,
    {
        let m = &milestones[i];
        let row = vec![id_value(m.id), SqlValue::Text(m.name.clone())];
        assert(row@ =~= milestone_row(milestones@[i as int]));
        let ghost prev = out@;
        let ghost rv = row@;
        out.push(Statement::Insert(Table::Milestone, row));
        assert(views(out@) =~= views(prev).push(StatementView::Insert(Table::Milestone, rv)));
        assert(milestones@.take(i + 1) =~= milestones@.take(i as int).push(milestones@[i as int]));
        assert(views(out@) =~= start + milestones@.take(i + 1).map_values(
            |m: Milestone| StatementView::Insert(Table::Milestone, milestone_row(m)),
        ));
        i = i + 1;
    }
    assert(milestones@.take(milestones@.len() as int) =~= milestones@);
}

pub fn insert_issues(issues: &Vec<Issue>, out: &mut Vec<Statement>)
    ensures
        views(final(out)@) == views(old(out)@) + issues@.map_values(
            |x: Issue| StatementView::Insert(Table::Issue, issue_row(x)),
        ),
{
    let ghost start = views(out@);
    let mut i: usize = 0;
    while i < issues.len()
        invariant
            i <= issues@.len(),
            views(out@) == start + issues@.take(i as int).map_values(
                |x: Issue| StatementView::Insert(Table::Issue, issue_row(x)),
            ),
        decreases issues@.len() - i,
    {
        let x = &issues[i];
        let row = vec![
            id_value(x.id),
            id_value(x.iid),
            id_value(x.project_id),
            opt_id_value(x.milestone_id),
            SqlValue::Text(x.name.clone()),
        ];
        assert(row@ =~= issue_row(issues@[i as int]));
        let ghost prev = out@;
        let ghost rv = row@;
        out.push(Statement::Insert(Table::Issue, row));
        assert(views(out@) =~= views(prev).push(StatementView::Insert(Table::Issue, rv)));
        assert(issues@.take(i + 1) =~= issues@.take(i as int).push(issues@[i as int]));
        assert(views(out@) =~= start + issues@.take(i + 1).map_values(
            |x: Issue| StatementView::Insert(Table::Issue, issue_row(x)),
        ));
        i = i + 1;
    }
    assert(issues@.take(issues@.len() as int) =~= issues@);
}

pub fn insert_merge_requests(merge_requests: &Vec<MergeRequest>, out: &mut Vec<Statement>)
    ensures
        views(final(out)@) == views(old(out)@) + merge_requests@.map_values(
            |x: MergeRequest| StatementView::Insert(Table::MergeRequest, merge_request_row(x)),
        ),
{
    let ghost start = views(out@);
    let mut i: usize = 0;
    while i < merge_requests.len()
        invariant
            i <= merge_requests@.len(),
            views(out@) == start + merge_requests@.take(i as int).map_values(
                |x: MergeRequest| StatementView::Insert(Table::MergeRequest, merge_request_row(x)),
            ),
        decreases merge_requests@.len() - i,
    {
        let x = &merge_requests[i];
        let row = vec![
            id_value(x.id),
            id_value(x.iid),
            id_value(x.project_id),
            opt_id_value(x.milestone_id),
            SqlValue::Text(x.name.clone()),
        ];
        assert(row@ =~= merge_request_row(merge_requests@[i as int]));
        let ghost prev = out@;
        let ghost rv = row@;
        out.push(Statement::Insert(Table::MergeRequest, row));
        assert(views(out@) =~= views(prev).push(StatementView::Insert(Table::MergeRequest, rv)));
        assert(merge_requests@.take(i + 1) =~= merge_requests@.take(i as int).push(
            merge_requests@[i as int],
        ));
        assert(views(out@) =~= start + merge_requests@.take(i + 1).map_values(
            |x: MergeRequest| StatementView::Insert(Table::MergeRequest, merge_request_row(x)),
        ));
        i = i + 1;
    }
    assert(merge_requests@.take(merge_requests@.len() as int) =~= merge_requests@);
}

pub fn insert_time_logs(time_logs: &Vec<TimeLog>, out: &mut Vec<Statement>)
    ensures
        views(final(out)@) == views(old(out)@) + time_logs@.map_values(
            |x: TimeLog| StatementView::Insert(Table::TimeLog, time_log_row(x)),
        ),
{
    let ghost start = views(out@);
    let mut i: usize = 0;
    while i < time_logs.len()
        invariant
            i <= time_logs@.len(),
            views(out@) == start + time_logs@.take(i as int).map_values(
                |x: TimeLog| StatementView::Insert(Table::TimeLog, time_log_row(x)),
            ),
        decreases time_logs@.len() - i,
    {
        let x = &time_logs[i];
        let row = vec![
            SqlValue::Integer(x.time),
            SqlValue::Text(x.date.clone()),
            id_value(x.user_id),
            opt_id_value(x.issue_id),
            opt_id_value(x.merge_request_id),
        ];
        assert(row@ =~= time_log_row(time_logs@[i as int]));
        let ghost prev = out@;
        let ghost rv = row@;
        out.push(Statement::Insert(Table::TimeLog, row));
        assert(views(out@) =~= views(prev).push(StatementView::Insert(Table::TimeLog, rv)));
        assert(time_logs@.take(i + 1) =~= time_logs@.take(i as int).push(time_logs@[i as int]));
        assert(views(out@) =~= start + time_logs@.take(i + 1).map_values(
            |x: TimeLog| StatementView::Insert(Table::TimeLog, time_log_row(x)),
        ));
        i = i + 1;
    }
    assert(time_logs@.take(time_logs@.len() as int) =~= time_logs@);
}

/// Every statement that writes `result` to a new store, in the order that
/// its foreign keys need.
pub fn save_to_db(result: &FetchResult) -> (r: Vec<Statement>)
    ensures
        views(r@) == plan_of(*result),
{
    let mut out = create_tables();
    insert_users(&result.users, &mut out);
    insert_projects(&result.projects, &mut out);
    insert_milestones(&result.milestones, &mut out);
    insert_issues(&result.issues, &mut out);
    insert_merge_requests(&result.merge_requests, &mut out);
    insert_time_logs(&result.time_logs, &mut out);
    out
}

/// How many rows of table `t` a result holds.
pub open spec fn row_count(r: FetchResult, t: Table) -> int {
    match t {
        Table::User => r.users@.len() as int,
        Table::Project => r.projects@.len() as int,
        Table::Milestone => r.milestones@.len() as int,
        Table::Issue => r.issues@.len() as int,
        Table::MergeRequest => r.merge_requests@.len() as int,
        Table::TimeLog => r.time_logs@.len() as int,
    }
}

/// Where the rows of table `t` begin in the plan of `r`.
pub open spec fn rows_start(r: FetchResult, t: Table) -> int {
    let u = r.users@.len() as int;
    let p = r.projects@.len() as int;
    let m = r.milestones@.len() as int;
    let i = r.issues@.len() as int;
    let q = r.merge_requests@.len() as int;
    match t {
        Table::User => 7,
        Table::Project => 7 + u,
        Table::Milestone => 7 + u + p,
        Table::Issue => 7 + u + p + m,
        Table::MergeRequest => 7 + u + p + m + i,
        Table::TimeLog => 7 + u + p + m + i + q,
    }
}

proof fn lemma_insert_position(r: FetchResult, n: int)
    requires
        0 <= n < plan_of(r).len(),
    ensures
        plan_of(r)[n] matches StatementView::Insert(t, _) ==> rows_start(r, t) <= n < rows_start(
            r,
            t,
        ) + row_count(r, t),
{
    let u = r.users@.map_values(|u: User| StatementView::Insert(Table::User, user_row(u)));
    let p = r.projects@.map_values(
        |p: Project| StatementView::Insert(Table::Project, project_row(p)),
    );
    let m = r.milestones@.map_values(
        |m: Milestone| StatementView::Insert(Table::Milestone, milestone_row(m)),
    );
    let i = r.issues@.map_values(|i: Issue| StatementView::Insert(Table::Issue, issue_row(i)));
    let q = r.merge_requests@.map_values(
        |m: MergeRequest| StatementView::Insert(Table::MergeRequest, merge_request_row(m)),
    );
    let t = r.time_logs@.map_values(
        |t: TimeLog| StatementView::Insert(Table::TimeLog, time_log_row(t)),
    );
    let s1 = schema_plan() + u;
    let s2 = s1 + p;
    let s3 = s2 + m;
    let s4 = s3 + i;
    let s5 = s4 + q;
    assert(plan_of(r) == s5 + t);
    if n < 7 {
        assert(plan_of(r)[n] == schema_plan()[n]);
    } else if n < s1.len() {
        assert(plan_of(r)[n] == u[n - 7]);
    } else if n < s2.len() {
        assert(plan_of(r)[n] == p[n - s1.len()]);
    } else if n < s3.len() {
        assert(plan_of(r)[n] == m[n - s2.len()]);
    } else if n < s4.len() {
        assert(plan_of(r)[n] == i[n - s3.len()]);
    } else if n < s5.len() {
        assert(plan_of(r)[n] == q[n - s4.len()]);
    } else {
        assert(plan_of(r)[n] == t[n - s5.len()]);
    }
}

/// In the plan of any result, every row is inserted after all the rows of
/// each table that it references, and the schema comes before any row.
pub proof fn lemma_referenced_rows_first(r: FetchResult, a: int, b: int)
    requires
        0 <= a < plan_of(r).len(),
        0 <= b < plan_of(r).len(),
        plan_of(r)[a] is Insert,
    ensures
        a >= schema_plan().len(),
        plan_of(r)[b] matches StatementView::Insert(to, _) ==> (
        plan_of(r)[a] matches StatementView::Insert(from, _) ==> (references(from, to) ==> b < a)),
{
    lemma_insert_position(r, a);
    lemma_insert_position(r, b);
}

} // verus!
