use gitlab_timereport::db::{save_to_db, SqlValue, Statement, Table};
use gitlab_timereport::decode::{
    decode_group, decode_issues_page, decode_merge_requests_page, decode_timelogs, decode_users,
    seconds_to_minutes, GroupData, GroupNode, GroupResponse, ItemKind, MilestoneNode, PageInfo,
    ProjectItems, ProjectItemsData, ProjectItemsResponse, ProjectNode, TimelogNode, UserNode,
    UsersConnection, UsersData, UsersResponse, WorkItemConnection, WorkItemNode,
};
use gitlab_timereport::fetch::{distinct_user_ids, hyphenate, project_path, Request, Run, Stage};
use gitlab_timereport::id::{parse_u32, Id, IdError};
use gitlab_timereport::model::{Issue, MergeRequest, Milestone, Project, TimeLog, User};
use gitlab_timereport::{FetchError, PipelineError};

fn s(x: &str) -> String {
    x.to_string()
}

fn timelog(user: u32, date: Option<&str>, seconds: i64) -> TimelogNode {
    TimelogNode {
        user_id: format!("gid://gitlab/User/{}", user),
        spent_at: date.map(s),
        time_spent: seconds,
    }
}

fn item(kind: &str, id: u32, iid: &str, title: &str, milestone: Option<u32>, logs: Vec<TimelogNode>) -> WorkItemNode {
    WorkItemNode {
        id: format!("gid://gitlab/{}/{}", kind, id),
        iid: s(iid),
        title: s(title),
        milestone_id: milestone.map(|m| format!("gid://gitlab/Milestone/{}", m)),
        timelogs: Some(logs),
    }
}

fn page(project: u32, nodes: Vec<WorkItemNode>, next: Option<&str>) -> ProjectItemsResponse {
    ProjectItemsResponse {
        data: Some(ProjectItemsData {
            project: Some(ProjectItems {
                id: format!("gid://gitlab/Project/{}", project),
                items: Some(WorkItemConnection {
                    page_info: PageInfo {
                        has_next_page: next.is_some(),
                        end_cursor: next.map(s),
                    },
                    nodes: Some(nodes),
                }),
            }),
        }),
    }
}

fn milestone(id: u32, title: &str) -> MilestoneNode {
    MilestoneNode { id: format!("gid://gitlab/Milestone/{}", id), title: s(title) }
}

fn group(projects: Vec<ProjectNode>, milestones: Option<Vec<MilestoneNode>>) -> GroupResponse {
    GroupResponse {
        data: Some(GroupData { group: Some(GroupNode { projects: Some(projects), milestones }) }),
    }
}

fn users(list: Vec<(u32, &str)>) -> UsersResponse {
    UsersResponse {
        data: Some(UsersData {
            users: Some(UsersConnection {
                nodes: Some(
                    list.into_iter()
                        .map(|(id, name)| UserNode {
                            id: format!("gid://gitlab/User/{}", id),
                            username: s(name),
                        })
                        .collect(),
                ),
            }),
        }),
    }
}

#[test]
fn id_takes_the_trailing_number() {
    assert_eq!(Id::try_from("gid://gitlab/Project/42").unwrap(), Id(42));
    assert_eq!(Id::try_from("gid://gitlab/Issue/0").unwrap(), Id(0));
    assert_eq!(Id::try_from("17").unwrap(), Id(17));
    assert_eq!(Id::try_from("gid://gitlab/User/4294967295").unwrap(), Id(4294967295));
}

#[test]
fn id_without_trailing_number_fails() {
    for bad in ["gid://gitlab/Project/", "gid://gitlab/Project", "", "gid://gitlab/Project/4x",
        "gid://gitlab/User/4294967296", "gid://gitlab/User/-1", "gid://gitlab/User/+"] {
        assert_eq!(Id::try_from(bad), Err(IdError::ParseError(s(bad))));
    }
}

#[test]
fn parse_u32_follows_std() {
    for text in ["0", "7", "+7", "00012", "4294967295", "", "+", "-1", " 1", "4294967296", "1a"] {
        assert_eq!(parse_u32(text), text.parse::<u32>().ok(), "{}", text);
    }
}

#[test]
fn seconds_round_down_to_minutes() {
    assert_eq!(seconds_to_minutes(125), 2);
    assert_eq!(seconds_to_minutes(59), 0);
    assert_eq!(seconds_to_minutes(120), 2);
    assert_eq!(seconds_to_minutes(90), 1);
    assert_eq!(seconds_to_minutes(0), 0);
    assert_eq!(seconds_to_minutes(-1), -1);
    assert_eq!(seconds_to_minutes(-60), -1);
    assert_eq!(seconds_to_minutes(-61), -2);
}

#[test]
fn paths_replace_spaces() {
    assert_eq!(hyphenate("My Group Name"), "My-Group-Name");
    assert_eq!(hyphenate(""), "");
    assert_eq!(project_path("Acme-Inc", "Big Widget"), "Acme-Inc/Big-Widget");
}

#[test]
fn user_ids_are_fetched_once_each() {
    let logs: Vec<TimeLog> = [3, 3, 7, 3, 7]
        .iter()
        .enumerate()
        .map(|(i, u)| TimeLog {
            time: 1,
            date: format!("2024-01-0{}", i + 1),
            user_id: *u,
            issue_id: Some(1),
            merge_request_id: None,
        })
        .collect();
    assert_eq!(distinct_user_ids(&logs), vec![3, 7]);
    assert_eq!(distinct_user_ids(&vec![]), Vec::<u32>::new());
}

#[test]
fn time_logs_name_their_issue_or_merge_request() {
    let logs = vec![timelog(5, Some("2024-01-01"), 90), timelog(6, Some("2024-01-02"), 3600)];
    let on_issue = decode_timelogs(&logs, ItemKind::Issue, 100).unwrap();
    assert_eq!(on_issue[0], TimeLog {
        time: 1,
        date: s("2024-01-01"),
        user_id: 5,
        issue_id: Some(100),
        merge_request_id: None,
    });
    assert_eq!(on_issue[1].time, 60);
    let on_mr = decode_timelogs(&logs, ItemKind::MergeRequest, 8).unwrap();
    assert_eq!(on_mr[1].issue_id, None);
    assert_eq!(on_mr[1].merge_request_id, Some(8));
}

#[test]
fn pages_concatenate_in_server_order() {
    let mut run = Run::new("Acme");
    run.on_group(&group(
        vec![ProjectNode { id: s("gid://gitlab/Project/10"), name: s("Widgets"), milestones: None }],
        None,
    ))
    .unwrap();
    let first = page(10, vec![item("Issue", 1, "1", "a", None, vec![]), item("Issue", 2, "2", "b", None, vec![])], Some("c1"));
    let second = page(10, vec![item("Issue", 3, "3", "c", None, vec![])], Some("c2"));
    let last = page(10, vec![item("Issue", 4, "4", "d", None, vec![])], None);
    match run.next_request() {
        Request::Issues { cursor, .. } => assert_eq!(cursor, None),
        _ => panic!("issues expected"),
    }
    run.on_issues(&first).unwrap();
    match run.next_request() {
        Request::Issues { cursor, .. } => assert_eq!(cursor, Some(s("c1"))),
        _ => panic!("issues expected"),
    }
    run.on_issues(&second).unwrap();
    match run.next_request() {
        Request::Issues { cursor, .. } => assert_eq!(cursor, Some(s("c2"))),
        _ => panic!("issues expected"),
    }
    run.on_issues(&last).unwrap();
    assert_eq!(run.stage, Stage::MergeRequests);
    match run.next_request() {
        Request::MergeRequests { path, cursor } => {
            assert_eq!(path, "Acme/Widgets");
            assert_eq!(cursor, None);
        }
        _ => panic!("merge requests expected"),
    }
    let ids: Vec<u32> = run.result.issues.iter().map(|i| i.id).collect();
    assert_eq!(ids, vec![1, 2, 3, 4]);
}

#[test]
fn end_to_end_acme() {
    let mut run = Run::new("Acme");
    match run.next_request() {
        Request::Group { path } => assert_eq!(path, "Acme"),
        _ => panic!("group expected"),
    }
    run.on_group(&group(
        vec![ProjectNode { id: s("gid://gitlab/Project/10"), name: s("Widgets"), milestones: None }],
        Some(vec![milestone(1, "Q1")]),
    ))
    .unwrap();
    match run.next_request() {
        Request::Issues { path, cursor } => {
            assert_eq!(path, "Acme/Widgets");
            assert_eq!(cursor, None);
        }
        _ => panic!("issues expected"),
    }
    run.on_issues(&page(
        10,
        vec![item("Issue", 100, "1", "Fix bug", Some(1), vec![timelog(5, Some("2024-01-01"), 90)])],
        None,
    ))
    .unwrap();
    run.on_merge_requests(&page(10, vec![], None)).unwrap();
    match run.next_request() {
        Request::Users { ids } => assert_eq!(ids, vec![5]),
        _ => panic!("users expected"),
    }
    run.on_users(&users(vec![(5, "alice")])).unwrap();
    assert!(matches!(run.next_request(), Request::Done));
    let result = run.into_result();
    assert_eq!(result.projects, vec![Project { id: 10, name: s("Widgets") }]);
    assert_eq!(result.milestones, vec![Milestone { id: 1, name: s("Q1") }]);
    assert_eq!(result.issues, vec![Issue {
        id: 100,
        iid: 1,
        name: s("Fix bug"),
        project_id: 10,
        milestone_id: Some(1),
    }]);
    assert_eq!(result.users, vec![User { id: 5, username: s("alice") }]);

    let plan = save_to_db(&result);
    assert_eq!(plan.len(), 7 + 5);
    assert_eq!(plan[0], Statement::EnableForeignKeys);
    assert_eq!(plan[7], Statement::Insert(Table::User, vec![SqlValue::Integer(5), SqlValue::Text(s("alice"))]));
    assert_eq!(plan[8], Statement::Insert(Table::Project, vec![SqlValue::Integer(10), SqlValue::Text(s("Widgets"))]));
    assert_eq!(plan[9], Statement::Insert(Table::Milestone, vec![SqlValue::Integer(1), SqlValue::Text(s("Q1"))]));
    assert_eq!(plan[10], Statement::Insert(Table::Issue, vec![
        SqlValue::Integer(100),
        SqlValue::Integer(1),
        SqlValue::Integer(10),
        SqlValue::Integer(1),
        SqlValue::Text(s("Fix bug")),
    ]));
    assert_eq!(plan[11], Statement::Insert(Table::TimeLog, vec![
        SqlValue::Integer(1),
        SqlValue::Text(s("2024-01-01")),
        SqlValue::Integer(5),
        SqlValue::Integer(100),
        SqlValue::Null,
    ]));
    assert_eq!(plan[11].sql(), "INSERT INTO TimeLog VALUES (?,?,?,?,?)");
}

#[test]
fn referenced_rows_come_first() {
    let result = gitlab_timereport::fetch::FetchResult {
        projects: vec![Project { id: 1, name: s("p") }],
        milestones: vec![],
        issues: vec![Issue { id: 2, iid: 1, name: s("i"), project_id: 1, milestone_id: None }],
        merge_requests: vec![MergeRequest { id: 3, iid: 1, name: s("m"), project_id: 1, milestone_id: None }],
        time_logs: vec![TimeLog { time: 1, date: s("d"), user_id: 4, issue_id: Some(2), merge_request_id: None }],
        users: vec![User { id: 4, username: s("u") }],
    };
    let plan = save_to_db(&result);
    let tables: Vec<Table> = plan
        .iter()
        .filter_map(|st| match st {
            Statement::Insert(t, _) => Some(*t),
            _ => None,
        })
        .collect();
    assert_eq!(tables, vec![Table::User, Table::Project, Table::Issue, Table::MergeRequest, Table::TimeLog]);
    assert!(plan[..7].iter().all(|st| !matches!(st, Statement::Insert(..))));
    assert!(plan[0].sql().contains("foreign_keys"));
    assert!(Table::Issue.create_sql().contains("REFERENCES Project (id)"));
}

#[test]
fn missing_date_fails_the_page() {
    let bad = page(10, vec![item("Issue", 100, "1", "x", None, vec![timelog(5, None, 60)])], None);
    assert!(matches!(decode_issues_page(&bad), Err(PipelineError::Fetch(_))));
    let mut run = Run::new("Acme");
    run.on_group(&group(
        vec![ProjectNode { id: s("gid://gitlab/Project/10"), name: s("W"), milestones: None }],
        None,
    ))
    .unwrap();
    assert!(run.on_issues(&bad).is_err());
}

#[test]
fn malformed_responses_fail() {
    let empty = ProjectItemsResponse { data: None };
    assert!(matches!(decode_issues_page(&empty), Err(PipelineError::Fetch(FetchError::FetchError(_)))));
    let no_project = ProjectItemsResponse { data: Some(ProjectItemsData { project: None }) };
    assert!(matches!(decode_merge_requests_page(&no_project), Err(PipelineError::Fetch(_))));
    let bad_id = page(10, vec![item("Issue", 1, "1", "x", None, vec![]),], None);
    let mut bad_id = bad_id;
    if let Some(d) = bad_id.data.as_mut() {
        if let Some(p) = d.project.as_mut() {
            p.id = s("gid://gitlab/Project/x");
        }
    }
    assert_eq!(decode_issues_page(&bad_id).unwrap_err(), PipelineError::Id(IdError::ParseError(s("gid://gitlab/Project/x"))));
    let bad_iid = page(10, vec![item("MergeRequest", 1, "one", "x", None, vec![])], None);
    assert_eq!(decode_merge_requests_page(&bad_iid).unwrap_err(), PipelineError::Number(s("one")));
    let no_logs = page(10, vec![WorkItemNode { timelogs: None, ..item("Issue", 1, "1", "x", None, vec![]) }], None);
    assert!(matches!(decode_issues_page(&no_logs), Err(PipelineError::Fetch(_))));
    assert!(decode_group(&GroupResponse { data: None }).is_err());
    assert!(decode_users(&UsersResponse { data: Some(UsersData { users: None }) }).is_err());
    assert_eq!(FetchError::from("x"), FetchError::FetchError(s("x")));
}

#[test]
fn group_milestones_come_before_project_milestones() {
    let resp = group(
        vec![
            ProjectNode { id: s("gid://gitlab/Project/1"), name: s("a"), milestones: Some(vec![milestone(20, "p1")]) },
            ProjectNode { id: s("gid://gitlab/Project/2"), name: s("b"), milestones: Some(vec![milestone(30, "p2")]) },
        ],
        Some(vec![milestone(10, "g")]),
    );
    let (projects, milestones) = decode_group(&resp).unwrap();
    assert_eq!(projects.iter().map(|p| p.get_key()).collect::<Vec<_>>(), vec![1, 2]);
    assert_eq!(milestones.iter().map(|m| m.get_key()).collect::<Vec<_>>(), vec![10, 20, 30]);
    let mut run = Run::new("Empty Group");
    run.on_group(&group(vec![], None)).unwrap();
    assert_eq!(run.stage, Stage::Users);
    assert_eq!(run.group_path, "Empty-Group");
}

#[test]
fn merge_request_pages_move_to_next_project() {
    let mut run = Run::new("G");
    run.on_group(&group(
        vec![
            ProjectNode { id: s("gid://gitlab/Project/1"), name: s("a"), milestones: None },
            ProjectNode { id: s("gid://gitlab/Project/2"), name: s("b c"), milestones: None },
        ],
        None,
    ))
    .unwrap();
    run.on_issues(&page(1, vec![], None)).unwrap();
    run.on_merge_requests(&page(1, vec![item("MergeRequest", 7, "3", "mr", Some(4), vec![timelog(9, Some("2024-02-02"), 600)])], None)).unwrap();
    assert_eq!(run.stage, Stage::Issues);
    assert_eq!(run.project, 1);
    match run.next_request() {
        Request::Issues { path, .. } => assert_eq!(path, "G/b-c"),
        _ => panic!("issues expected"),
    }
    assert_eq!(run.result.merge_requests[0], MergeRequest { id: 7, iid: 3, name: s("mr"), project_id: 1, milestone_id: Some(4) });
    assert_eq!(run.result.time_logs[0].get_key(), (9, s("2024-02-02")));
    assert_eq!(run.result.time_logs[0].time, 10);
}
