use vstd::prelude::*;

use crate::id::{id_value, is_u32_text, parse_u32, u32_text_value, Id};
use crate::model::{Issue, MergeRequest, Milestone, Project, TimeLog, User};
use crate::{FetchError, PipelineError};

verus! {

/// Where a paginated collection goes on.
#[derive(Clone, Debug, PartialEq, Eq)]
pub struct PageInfo {
    pub has_next_page: bool,
    pub end_cursor: Option<String>,
}

/// One entry of time spent, as the API gives it: seconds, not minutes.
#[derive(Clone, Debug, PartialEq, Eq)]
pub struct TimelogNode {
    pub user_id: String,
    pub spent_at: Option<String>,
    pub time_spent: i64,
}

/// An issue or a merge request, as the API gives it.
#[derive(Clone, Debug, PartialEq, Eq)]
pub struct WorkItemNode {
    pub id: String,
    pub iid: String,
    pub title: String,
    pub milestone_id: Option<String>,
    pub timelogs: Option<Vec<TimelogNode>>,
}

#[derive(Clone, Debug, PartialEq, Eq)]
pub struct WorkItemConnection {
    pub page_info: PageInfo,
    pub nodes: Option<Vec<WorkItemNode>>,
}

/// A project with one page of its issues or of its merge requests.
#[derive(Clone, Debug, PartialEq, Eq)]
pub struct ProjectItems {
    pub id: String,
    pub items: Option<WorkItemConnection>,
}

#[derive(Clone, Debug, PartialEq, Eq)]
pub struct ProjectItemsData {
    pub project: Option<ProjectItems>,
}

/// The answer to one request for a page of a project's issues or merge requests.
#[derive(Clone, Debug, PartialEq, Eq)]
pub struct ProjectItemsResponse {
    pub data: Option<ProjectItemsData>,
}

/// Which kind of record a page holds.
#[derive(Clone, Copy, Debug, PartialEq, Eq)]
pub enum ItemKind {
    Issue,
    MergeRequest,
}

/// One page turned into records.
#[derive(Clone, Debug, PartialEq, Eq)]
pub struct ItemsPage<T> {
    pub items: Vec<T>,
    pub time_logs: Vec<TimeLog>,
    pub has_next_page: bool,
    pub end_cursor: Option<String>,
}

/// Whole minutes in `seconds`, rounded down.
pub open spec fn minutes_of(seconds: i64) -> int {
    seconds as int / 60
}

pub fn seconds_to_minutes(seconds: i64) -> (r: i64)
    ensures
        r as int == minutes_of(seconds),
{
    if seconds >= 0 {
        seconds / 60
    } else {
        let m = (-(seconds + 1)) / 60;
        assert(-(m as int) - 1 == seconds as int / 60) by (nonlinear_arith)
            requires
                seconds < 0,
                m as int == (-(seconds as int + 1)) / 60,
        ;
        -m - 1
    }
}

pub open spec fn timelog_ok(t: TimelogNode) -> bool {
    id_value(t.user_id@) is Some && t.spent_at is Some
}

/// The record for a well-formed time entry of the issue or merge request `item_id`.
pub open spec fn timelog_of(t: TimelogNode, kind: ItemKind, item_id: u32) -> TimeLog {
    TimeLog {
        time: minutes_of(t.time_spent) as i64,
        date: t.spent_at->0,
        user_id: id_value(t.user_id@)->0,
        issue_id: if kind == ItemKind::Issue { Some(item_id) } else { None },
        merge_request_id: if kind == ItemKind::MergeRequest { Some(item_id) } else { None },
    }
}

pub open spec fn timelogs_ok(ts: Seq<TimelogNode>) -> bool {
    forall|i: int| 0 <= i < ts.len() ==> timelog_ok(#[trigger] ts[i])
}

pub open spec fn timelogs_of(ts: Seq<TimelogNode>, kind: ItemKind, item_id: u32) -> Seq<TimeLog> {
    ts.map_values(|t: TimelogNode| timelog_of(t, kind, item_id))
}

pub open spec fn milestone_ok(m: Option<String>) -> bool {
    m matches Some(s) ==> id_value(s@) is Some
}

pub open spec fn milestone_of(m: Option<String>) -> Option<u32> {
    match m {
        Some(s) => Some(id_value(s@)->0),
        None => None,
    }
}

/// Whether every field of an issue or merge request decodes.
pub open spec fn node_ok(n: WorkItemNode) -> bool {
    &&& id_value(n.id@) is Some
    &&& is_u32_text(n.iid@)
    &&& milestone_ok(n.milestone_id)
    &&& n.timelogs is Some
    &&& timelogs_ok(n.timelogs->0@)
}

pub open spec fn node_id(n: WorkItemNode) -> u32 {
    id_value(n.id@)->0
}

pub open spec fn node_timelogs(n: WorkItemNode, kind: ItemKind) -> Seq<TimeLog> {
    timelogs_of(n.timelogs->0@, kind, node_id(n))
}

pub open spec fn issue_of(n: WorkItemNode, project_id: u32) -> Issue {
    Issue {
        id: node_id(n),
        iid: u32_text_value(n.iid@),
        name: n.title,
        project_id,
        milestone_id: milestone_of(n.milestone_id),
    }
}

pub open spec fn merge_request_of(n: WorkItemNode, project_id: u32) -> MergeRequest {
    MergeRequest {
        id: node_id(n),
        iid: u32_text_value(n.iid@),
        name: n.title,
        project_id,
        milestone_id: milestone_of(n.milestone_id),
    }
}

pub open spec fn nodes_ok(ns: Seq<WorkItemNode>) -> bool {
    forall|i: int| 0 <= i < ns.len() ==> node_ok(#[trigger] ns[i])
}

/// The time logs of all nodes, node after node, each node's in its own order.
pub open spec fn nodes_timelogs(ns: Seq<WorkItemNode>, kind: ItemKind) -> Seq<TimeLog>
    decreases ns.len(),
{
    if ns.len() == 0 {
        Seq::empty()
    } else {
        nodes_timelogs(ns.drop_last(), kind) + node_timelogs(ns.last(), kind)
    }
}

/// The project and the page of items that a response holds, if it holds them.
pub open spec fn response_items(r: ProjectItemsResponse) -> Option<(ProjectItems, WorkItemConnection)> {
    match r.data {
        Some(d) => match d.project {
            Some(p) => match p.items {
                Some(c) => Some((p, c)),
                None => None,
            },
            None => None,
        },
        None => None,
    }
}

/// Whether a response is a well-formed page: every envelope is there, the
/// project's identifier decodes, and so does every record on the page.
pub open spec fn page_ok(r: ProjectItemsResponse) -> bool {
    &&& envelope_ok(r)
    &&& nodes_ok(page_nodes(r))
}

/// Whether every envelope of a response is there and the project's identifier decodes.
pub open spec fn envelope_ok(r: ProjectItemsResponse) -> bool {
    &&& response_items(r) is Some
    &&& id_value(page_project(r).id@) is Some
    &&& page_connection(r).nodes is Some
}

pub open spec fn page_project(r: ProjectItemsResponse) -> ProjectItems {
    let (p, c) = response_items(r)->0;
    p
}

pub open spec fn page_connection(r: ProjectItemsResponse) -> WorkItemConnection {
    let (p, c) = response_items(r)->0;
    c
}

pub open spec fn page_project_id(r: ProjectItemsResponse) -> u32 {
    id_value(page_project(r).id@)->0
}

pub open spec fn page_nodes(r: ProjectItemsResponse) -> Seq<WorkItemNode> {
    page_connection(r).nodes->0@
}

pub open spec fn page_info(r: ProjectItemsResponse) -> PageInfo {
    page_connection(r).page_info
}

/// A time entry without the date it was spent at makes its whole page fail.
pub proof fn lemma_missing_date_fails(resp: ProjectItemsResponse, i: int, j: int)
    requires
        response_items(resp) is Some,
        page_connection(resp).nodes is Some,
        0 <= i < page_nodes(resp).len(),
        page_nodes(resp)[i].timelogs is Some,
        0 <= j < page_nodes(resp)[i].timelogs->0@.len(),
        page_nodes(resp)[i].timelogs->0@[j].spent_at is None,
    ensures
        !page_ok(resp),
{
    assert(!timelog_ok(page_nodes(resp)[i].timelogs->0@[j]));
    assert(!node_ok(page_nodes(resp)[i]));
}

fn decode_id(s: &String) -> (r: Result<u32, PipelineError>)
    ensures
        id_value(s@) is Some <==> r is Ok,
        r matches Ok(v) ==> v == id_value(s@)->0,
{
    match Id::try_from(s.as_str()) {
        Ok(Id(v)) => Ok(v),
        Err(e) => Err(PipelineError::Id(e)),
    }
}

/// Turns the time entries of one issue or merge request into records.
pub fn decode_timelogs(logs: &Vec<TimelogNode>, kind: ItemKind, item_id: u32) -> (r: Result<
    Vec<TimeLog>,
    PipelineError,
>)
    ensures
        r is Ok <==> timelogs_ok(logs@),
        r matches Ok(v) ==> v@ == timelogs_of(logs@, kind, item_id),
{
    let mut out: Vec<TimeLog> = Vec::new();
    let mut i: usize = 0;
    while i < logs.len()
        invariant
            i <= logs@.len(),
            forall|j: int| 0 <= j < i ==> timelog_ok(#[trigger] logs@[j]),
            out@ == timelogs_of(logs@.take(i as int), kind, item_id),
        decreases logs@.len() - i,
    {
        let t = &logs[i];
        let user_id = match decode_id(&t.user_id) {
            Ok(v) => v,
            Err(e) => {
                assert(!timelog_ok(logs@[i as int]));
                return Err(e);
            },
        };
        let date = match &t.spent_at {
            Some(d) => d.clone(),
            None => {
                assert(!timelog_ok(logs@[i as int]));
                return Err(PipelineError::Fetch(FetchError::from("No date at time log")));
            },
        };
        let time = seconds_to_minutes(t.time_spent);
        let (issue_id, merge_request_id) = match kind {
            ItemKind::Issue => (Some(item_id), None),
            ItemKind::MergeRequest => (None, Some(item_id)),
        };
        out.push(TimeLog { time, date, user_id, issue_id, merge_request_id });
        assert(logs@.take(i + 1) =~= logs@.take(i as int).push(logs@[i as int]));
        i = i + 1;
    }
    assert(logs@.take(logs@.len() as int) =~= logs@);
    Ok(out)
}

/// The fields shared by issues and merge requests: key, display number and
/// milestone, and the time logs.
fn decode_node(n: &WorkItemNode, kind: ItemKind) -> (r: Result<
    (u32, u32, Option<u32>, Vec<TimeLog>),
    PipelineError,
>)
    ensures
        r is Ok <==> node_ok(*n),
        r matches Ok(v) ==> {
            &&& v.0 == node_id(*n)
            &&& v.1 == u32_text_value(n.iid@)
            &&& v.2 == milestone_of(n.milestone_id)
            &&& v.3@ == node_timelogs(*n, kind)
        },
{
    let id = decode_id(&n.id)?;
    let iid = match parse_u32(n.iid.as_str()) {
        Some(v) => v,
        None => return Err(PipelineError::Number(n.iid.clone())),
    };
    let milestone_id = match &n.milestone_id {
        Some(m) => Some(decode_id(m)?),
        None => None,
    };
    let logs = match &n.timelogs {
        Some(l) => l,
        None => return Err(PipelineError::Fetch(FetchError::from("No 'nodes' in timeLog found"))),
    };
    let time_logs = decode_timelogs(logs, kind, id)?;
    Ok((id, iid, milestone_id, time_logs))
}

/// Checks the envelope of a response and decodes the project's identifier.
fn open_response(resp: &ProjectItemsResponse) -> (r: Result<
    (u32, &WorkItemConnection, &Vec<WorkItemNode>),
    PipelineError,
>)
    ensures
        r is Ok <==> envelope_ok(*resp),
        resp.data is None ==> r matches Err(PipelineError::Fetch(_)),
        (resp.data matches Some(d) && d.project is None) ==> r matches Err(PipelineError::Fetch(_)),
        r matches Ok(v) ==> {
            let (id, conn, nodes) = v;
            &&& id == page_project_id(*resp)
            &&& *conn == page_connection(*resp)
            &&& nodes@ == page_nodes(*resp)
        },
{
    let data = match &resp.data {
        Some(d) => d,
        None => return Err(PipelineError::Fetch(FetchError::from("No data on query response"))),
    };
    let project = match &data.project {
        Some(p) => p,
        None => return Err(
            PipelineError::Fetch(FetchError::from("No project data on query response")),
        ),
    };
    let project_id = decode_id(&project.id)?;
    let conn = match &project.items {
        Some(c) => c,
        None => return Err(
            PipelineError::Fetch(FetchError::from("No items on query response's project object")),
        ),
    };
    let nodes = match &conn.nodes {
        Some(n) => n,
        None => return Err(
            PipelineError::Fetch(FetchError::from("No nodes on query response's items object")),
        ),
    };
    Ok((project_id, conn, nodes))
}

pub(crate) fn clone_cursor(c: &Option<String>) -> (r: Option<String>)
    ensures
        r == *c,
{
    match c {
        Some(s) => Some(s.clone()),
        None => None,
    }
}

/// Decodes one page of a project's issues: each issue in the order the
/// server gave, and after it the time logs of the issues, issue after issue.
pub fn decode_issues_page(resp: &ProjectItemsResponse) -> (r: Result<ItemsPage<Issue>, PipelineError>)
    ensures
        r is Ok <==> page_ok(*resp),
        resp.data is None ==> r matches Err(PipelineError::Fetch(_)),
        (resp.data matches Some(d) && d.project is None) ==> r matches Err(PipelineError::Fetch(_)),
        r matches Ok(p) ==> {
            &&& p.items@ == page_nodes(*resp).map_values(
                |n: WorkItemNode| issue_of(n, page_project_id(*resp)),
            )
            &&& p.time_logs@ == nodes_timelogs(page_nodes(*resp), ItemKind::Issue)
            &&& p.has_next_page == page_info(*resp).has_next_page
            &&& p.end_cursor == page_info(*resp).end_cursor
        },
{
    let (project_id, conn, nodes) = open_response(resp)?;
    let mut items: Vec<Issue> = Vec::new();
    let mut time_logs: Vec<TimeLog> = Vec::new();
    let mut i: usize = 0;
    while i < nodes.len()
        invariant
            i <= nodes@.len(),
            nodes@ == page_nodes(*resp),
            envelope_ok(*resp),
            project_id == page_project_id(*resp),
            forall|j: int| 0 <= j < i ==> node_ok(#[trigger] nodes@[j]),
            items@ == nodes@.take(i as int).map_values(|n: WorkItemNode| issue_of(n, project_id)),
            time_logs@ == nodes_timelogs(nodes@.take(i as int), ItemKind::Issue),
        decreases nodes@.len() - i,
    {
        let n = &nodes[i];
        let (id, iid, milestone_id, mut logs) = match decode_node(n, ItemKind::Issue) {
            Ok(v) => v,
            Err(e) => {
                assert(!nodes_ok(nodes@));
                return Err(e);
            },
        };
        items.push(Issue { id, iid, name: n.title.clone(), project_id, milestone_id });
        time_logs.append(&mut logs);
        let ghost next = nodes@.take(i + 1);
        assert(next.drop_last() =~= nodes@.take(i as int));
        assert(next =~= nodes@.take(i as int).push(nodes@[i as int]));
        i = i + 1;
    }
    assert(nodes@.take(nodes@.len() as int) =~= nodes@);
    Ok(ItemsPage {
        items,
        time_logs,
        has_next_page: conn.page_info.has_next_page,
        end_cursor: clone_cursor(&conn.page_info.end_cursor),
    })
}

/// Decodes one page of a project's merge requests, as `decode_issues_page`
/// does for issues.
pub fn decode_merge_requests_page(resp: &ProjectItemsResponse) -> (r: Result<
    ItemsPage<MergeRequest>,
    PipelineError,
>)
    ensures
        r is Ok <==> page_ok(*resp),
        resp.data is None ==> r matches Err(PipelineError::Fetch(_)),
        (resp.data matches Some(d) && d.project is None) ==> r matches Err(PipelineError::Fetch(_)),
        r matches Ok(p) ==> {
            &&& p.items@ == page_nodes(*resp).map_values(
                |n: WorkItemNode| merge_request_of(n, page_project_id(*resp)),
            )
            &&& p.time_logs@ == nodes_timelogs(page_nodes(*resp), ItemKind::MergeRequest)
            &&& p.has_next_page == page_info(*resp).has_next_page
            &&& p.end_cursor == page_info(*resp).end_cursor
        },
{
    let (project_id, conn, nodes) = open_response(resp)?;
    let mut items: Vec<MergeRequest> = Vec::new();
    let mut time_logs: Vec<TimeLog> = Vec::new();
    let mut i: usize = 0;
    while i < nodes.len()
        invariant
            i <= nodes@.len(),
            nodes@ == page_nodes(*resp),
            envelope_ok(*resp),
            project_id == page_project_id(*resp),
            forall|j: int| 0 <= j < i ==> node_ok(#[trigger] nodes@[j]),
            items@ == nodes@.take(i as int).map_values(
                |n: WorkItemNode| merge_request_of(n, project_id),
            ),
            time_logs@ == nodes_timelogs(nodes@.take(i as int), ItemKind::MergeRequest),
        decreases nodes@.len() - i,
    {
        let n = &nodes[i];
        let (id, iid, milestone_id, mut logs) = match decode_node(n, ItemKind::MergeRequest) {
            Ok(v) => v,
            Err(e) => {
                assert(!nodes_ok(nodes@));
                return Err(e);
            },
        };
        items.push(MergeRequest { id, iid, name: n.title.clone(), project_id, milestone_id });
        time_logs.append(&mut logs);
        let ghost next = nodes@.take(i + 1);
        assert(next.drop_last() =~= nodes@.take(i as int));
        assert(next =~= nodes@.take(i as int).push(nodes@[i as int]));
        i = i + 1;
    }
    assert(nodes@.take(nodes@.len() as int) =~= nodes@);
    Ok(ItemsPage {
        items,
        time_logs,
        has_next_page: conn.page_info.has_next_page,
        end_cursor: clone_cursor(&conn.page_info.end_cursor),
    })
}


/// A milestone, as the API gives it.
#[derive(Clone, Debug, PartialEq, Eq)]
pub struct MilestoneNode {
    pub id: String,
    pub title: String,
}

/// A project of the group, with its own milestones when the API lists them.
#[derive(Clone, Debug, PartialEq, Eq)]
pub struct ProjectNode {
    pub id: String,
    pub name: String,
    pub milestones: Option<Vec<MilestoneNode>>,
}

#[derive(Clone, Debug, PartialEq, Eq)]
pub struct GroupNode {
    pub projects: Option<Vec<ProjectNode>>,
    pub milestones: Option<Vec<MilestoneNode>>,
}

#[derive(Clone, Debug, PartialEq, Eq)]
pub struct GroupData {
    pub group: Option<GroupNode>,
}

/// The answer to the request for a group's projects and milestones.
#[derive(Clone, Debug, PartialEq, Eq)]
pub struct GroupResponse {
    pub data: Option<GroupData>,
}

#[derive(Clone, Debug, PartialEq, Eq)]
pub struct UserNode {
    pub id: String,
    pub username: String,
}

#[derive(Clone, Debug, PartialEq, Eq)]
pub struct UsersConnection {
    pub nodes: Option<Vec<UserNode>>,
}

#[derive(Clone, Debug, PartialEq, Eq)]
pub struct UsersData {
    pub users: Option<UsersConnection>,
}

/// The answer to the request for users by their identifiers.
#[derive(Clone, Debug, PartialEq, Eq)]
pub struct UsersResponse {
    pub data: Option<UsersData>,
}

pub open spec fn milestones_ok(ms: Seq<MilestoneNode>) -> bool {
    forall|i: int| 0 <= i < ms.len() ==> id_value((#[trigger] ms[i]).id@) is Some
}

pub open spec fn milestone_node_of(m: MilestoneNode) -> Milestone {
    Milestone { id: id_value(m.id@)->0, name: m.title }
}

pub open spec fn milestones_of(ms: Seq<MilestoneNode>) -> Seq<Milestone> {
    ms.map_values(|m: MilestoneNode| milestone_node_of(m))
}

/// A list the API may leave out; left out, it holds nothing.
pub open spec fn listed<T>(l: Option<Vec<T>>) -> Seq<T> {
    match l {
        Some(v) => v@,
        None => Seq::empty(),
    }
}

pub open spec fn project_ok(p: ProjectNode) -> bool {
    id_value(p.id@) is Some && milestones_ok(listed(p.milestones))
}

pub open spec fn project_of(p: ProjectNode) -> Project {
    Project { id: id_value(p.id@)->0, name: p.name }
}

pub open spec fn projects_ok(ps: Seq<ProjectNode>) -> bool {
    forall|i: int| 0 <= i < ps.len() ==> project_ok(#[trigger] ps[i])
}

/// The milestones of all projects, project after project.
pub open spec fn projects_milestones(ps: Seq<ProjectNode>) -> Seq<Milestone>
    decreases ps.len(),
{
    if ps.len() == 0 {
        Seq::empty()
    } else {
        projects_milestones(ps.drop_last()) + milestones_of(listed(ps.last().milestones))
    }
}

/// The group that a response holds, if it holds one with a list of projects.
pub open spec fn response_group(r: GroupResponse) -> Option<GroupNode> {
    match r.data {
        Some(d) => match d.group {
            Some(g) => if g.projects is Some { Some(g) } else { None },
            None => None,
        },
        None => None,
    }
}

pub open spec fn group_ok(r: GroupResponse) -> bool {
    &&& response_group(r) is Some
    &&& projects_ok(response_group(r)->0.projects->0@)
    &&& milestones_ok(listed(response_group(r)->0.milestones))
}

pub open spec fn group_projects(r: GroupResponse) -> Seq<ProjectNode> {
    response_group(r)->0.projects->0@
}

/// The group's own milestones first, then those of each project in turn.
pub open spec fn group_milestones(r: GroupResponse) -> Seq<Milestone> {
    milestones_of(listed(response_group(r)->0.milestones)) + projects_milestones(
        group_projects(r),
    )
}

/// Appends the decoded milestones to `out`.
fn decode_milestones(ms: &Vec<MilestoneNode>, out: &mut Vec<Milestone>) -> (r: Result<
    (),
    PipelineError,
>)
    ensures
        r is Ok <==> milestones_ok(ms@),
        r is Ok ==> final(out)@ == old(out)@ + milestones_of(ms@),
{
    let ghost start = out@;
    let mut i: usize = 0;
    while i < ms.len()
        invariant
            i <= ms@.len(),
            milestones_ok(ms@.take(i as int)),
            out@ == start + milestones_of(ms@.take(i as int)),
        decreases ms@.len() - i,
    {
        let id = match decode_id(&ms[i].id) {
            Ok(v) => v,
            Err(e) => {
                assert(!milestones_ok(ms@));
                return Err(e);
            },
        };
        out.push(Milestone { id, name: ms[i].title.clone() });
        assert(ms@.take(i + 1) =~= ms@.take(i as int).push(ms@[i as int]));
        i = i + 1;
    }
    assert(ms@.take(ms@.len() as int) =~= ms@);
    Ok(())
}

/// Decodes the group's projects, in the order the server gave, and all its
/// milestones: the group's own, then those of each project in turn.
pub fn decode_group(resp: &GroupResponse) -> (r: Result<
    (Vec<Project>, Vec<Milestone>),
    PipelineError,
>)
    ensures
        r is Ok <==> group_ok(*resp),
        resp.data is None ==> r matches Err(PipelineError::Fetch(_)),
        (resp.data matches Some(d) && d.group is None) ==> r matches Err(PipelineError::Fetch(_)),
        r matches Ok(v) ==> {
            let (projects, milestones) = v;
            &&& projects@ == group_projects(*resp).map_values(|p: ProjectNode| project_of(p))
            &&& milestones@ == group_milestones(*resp)
        },
{
    let data = match &resp.data {
        Some(d) => d,
        None => return Err(PipelineError::Fetch(FetchError::from("Group response is empty"))),
    };
    let group = match &data.group {
        Some(g) => g,
        None => return Err(PipelineError::Fetch(FetchError::from("Group response is empty"))),
    };
    let nodes = match &group.projects {
        Some(p) => p,
        None => return Err(
            PipelineError::Fetch(FetchError::from("Group response contains no projects")),
        ),
    };
    let mut milestones: Vec<Milestone> = Vec::new();
    match &group.milestones {
        Some(ms) => decode_milestones(ms, &mut milestones)?,
        None => {},
    }
    let ghost own = milestones@;
    let mut projects: Vec<Project> = Vec::new();
    let mut i: usize = 0;
    while i < nodes.len()
        invariant
            i <= nodes@.len(),
            response_group(*resp) is Some,
            nodes@ == group_projects(*resp),
            own == milestones_of(listed(response_group(*resp)->0.milestones)),
            milestones_ok(listed(response_group(*resp)->0.milestones)),
            projects_ok(nodes@.take(i as int)),
            projects@ == nodes@.take(i as int).map_values(|p: ProjectNode| project_of(p)),
            milestones@ == own + projects_milestones(nodes@.take(i as int)),
        decreases nodes@.len() - i,
    {
        let p = &nodes[i];
        let id = match decode_id(&p.id) {
            Ok(v) => v,
            Err(e) => {
                assert(!projects_ok(nodes@));
                return Err(e);
            },
        };
        match &p.milestones {
            Some(ms) => match decode_milestones(ms, &mut milestones) {
                Ok(()) => {},
                Err(e) => {
                    assert(!project_ok(nodes@[i as int]));
                    assert(!projects_ok(nodes@));
                    return Err(e);
                },
            },
            None => {
                assert(milestones_of(listed(p.milestones)) =~= Seq::empty());
            },
        }
        projects.push(Project { id, name: p.name.clone() });
        let ghost next = nodes@.take(i + 1);
        assert(next.drop_last() =~= nodes@.take(i as int));
        assert(next =~= nodes@.take(i as int).push(nodes@[i as int]));
        assert(milestones@ =~= own + projects_milestones(next));
        i = i + 1;
    }
    assert(nodes@.take(nodes@.len() as int) =~= nodes@);
    Ok((projects, milestones))
}

/// The users that a response lists, if it lists them.
pub open spec fn response_users(r: UsersResponse) -> Option<Seq<UserNode>> {
    match r.data {
        Some(d) => match d.users {
            Some(u) => match u.nodes {
                Some(n) => Some(n@),
                None => None,
            },
            None => None,
        },
        None => None,
    }
}

pub open spec fn users_ok(r: UsersResponse) -> bool {
    &&& response_users(r) is Some
    &&& forall|i: int|
        0 <= i < response_users(r)->0.len() ==> id_value(
            (#[trigger] response_users(r)->0[i]).id@,
        ) is Some
}

pub open spec fn user_of(u: UserNode) -> User {
    User { id: id_value(u.id@)->0, username: u.username }
}

/// Decodes the users of a response, in the order the server gave.
pub fn decode_users(resp: &UsersResponse) -> (r: Result<Vec<User>, PipelineError>)
    ensures
        r is Ok <==> users_ok(*resp),
        resp.data is None ==> r matches Err(PipelineError::Fetch(_)),
        (resp.data matches Some(d) && d.users is None) ==> r matches Err(PipelineError::Fetch(_)),
        r matches Ok(v) ==> v@ == response_users(*resp)->0.map_values(|u: UserNode| user_of(u)),
{
    let data = match &resp.data {
        Some(d) => d,
        None => return Err(PipelineError::Fetch(FetchError::from("No data on user query response"))),
    };
    let users = match &data.users {
        Some(u) => u,
        None => return Err(
            PipelineError::Fetch(FetchError::from("No users data on user query response")),
        ),
    };
    let nodes = match &users.nodes {
        Some(n) => n,
        None => return Err(
            PipelineError::Fetch(FetchError::from("No nodes data on user query response")),
        ),
    };
    let mut out: Vec<User> = Vec::new();
    let mut i: usize = 0;
    while i < nodes.len()
        invariant
            i <= nodes@.len(),
            response_users(*resp) is Some,
            nodes@ == response_users(*resp)->0,
            forall|j: int| 0 <= j < i ==> id_value((#[trigger] nodes@[j]).id@) is Some,
            out@ == nodes@.take(i as int).map_values(|u: UserNode| user_of(u)),
        decreases nodes@.len() - i,
    {
        let id = match decode_id(&nodes[i].id) {
            Ok(v) => v,
            Err(e) => {
                assert(!users_ok(*resp));
                return Err(e);
            },
        };
        out.push(User { id, username: nodes[i].username.clone() });
        assert(nodes@.take(i + 1) =~= nodes@.take(i as int).push(nodes@[i as int]));
        i = i + 1;
    }
    assert(nodes@.take(nodes@.len() as int) =~= nodes@);
    Ok(out)
}

} // verus!
