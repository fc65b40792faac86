use vstd::prelude::*;

use crate::decode::{
    clone_cursor, decode_group, decode_issues_page, decode_merge_requests_page, decode_users, group_milestones,
    group_ok, group_projects, issue_of, merge_request_of, nodes_timelogs, page_info, page_nodes,
    page_ok, page_project_id, project_of, response_users, user_of, users_ok, GroupResponse,
    ItemKind, ProjectItemsResponse, ProjectNode, UserNode, UsersResponse, WorkItemNode,
};
use crate::model::{Issue, MergeRequest, Milestone, Project, TimeLog, User};
use crate::PipelineError;

verus! {

/// Everything one run gathered.
#[derive(Clone, Debug, PartialEq, Eq)]
pub struct FetchResult {
    pub projects: Vec<Project>,
    pub milestones: Vec<Milestone>,
    pub issues: Vec<Issue>,
    pub merge_requests: Vec<MergeRequest>,
    pub time_logs: Vec<TimeLog>,
    pub users: Vec<User>,
}

/// Where a run stands: the group first, then issues and merge requests of
/// each project in turn, then the users, then nothing.
#[derive(Clone, Copy, Debug, PartialEq, Eq, Structural)]
pub enum Stage {
    Group,
    Issues,
    MergeRequests,
    Users,
    Finished,
}

/// What a run asks the API for next.
#[derive(Clone, Debug, PartialEq, Eq)]
pub enum Request {
    /// The projects and milestones of the group at `path`.
    Group { path: String },
    /// A page of the issues of the project at `path`; the first page has no cursor.
    Issues { path: String, cursor: Option<String> },
    /// A page of the merge requests of the project at `path`.
    MergeRequests { path: String, cursor: Option<String> },
    /// The users with these identifiers, each named once.
    Users { ids: Vec<u32> },
    /// Nothing: the run is complete.
    Done,
}

/// One run over a group, held between requests.
#[derive(Clone, Debug, PartialEq, Eq)]
pub struct Run {
    pub group_path: String,
    pub stage: Stage,
    /// The project whose issues or merge requests are being fetched.
    pub project: usize,
    /// Where the next page starts.
    pub cursor: Option<String>,
    pub result: FetchResult,
}

/// A name as it appears in a path: each space becomes a hyphen.
pub open spec fn hyphenated(s: Seq<char>) -> Seq<char> {
    s.map_values(|c: char| if c == ' ' { '-' } else { c })
}

/// The path of a project: the group's path, a slash, and the project's name.
pub open spec fn project_path_of(group_path: Seq<char>, name: Seq<char>) -> Seq<char> {
    group_path + seq!['/'] + hyphenated(name)
}

/// The set of users that time logs name.
pub open spec fn user_ids_of(logs: Seq<TimeLog>) -> Set<u32> {
    Set::new(|id: u32| exists|i: int| 0 <= i < logs.len() && (#[trigger] logs[i]).user_id == id)
}

pub fn hyphenate(s: &str) -> (r: String)
    ensures
        r@ == hyphenated(s@),
{
    let n = s.unicode_len();
    let mut out = String::new();
    let mut i: usize = 0;
    proof {
        reveal_strlit("-");
    }
    while i < n
        invariant
            i <= n,
            n == s@.len(),
            out@ == hyphenated(s@.take(i as int)),
            "-"@ == seq!['-'],
        decreases n - i,
    {
        let c = s.get_char(i);
        if c == ' ' {
            out.append("-");
        } else {
            out.append(s.substring_char(i, i + 1));
        }
        assert(s@.take(i + 1) =~= s@.take(i as int).push(c));
        assert(out@ =~= hyphenated(s@.take(i + 1)));
        i = i + 1;
    }
    assert(s@.take(n as int) =~= s@);
    out
}

pub fn project_path(group_path: &str, name: &str) -> (r: String)
    ensures
        r@ == project_path_of(group_path@, name@),
{
    let mut out = group_path.to_owned();
    proof {
        reveal_strlit("/");
    }
    out.append("/");
    let h = hyphenate(name);
    out.append(h.as_str());
    out
}

/// Each user that the time logs name, once.
pub fn distinct_user_ids(logs: &Vec<TimeLog>) -> (r: Vec<u32>)
    ensures
        r@.no_duplicates(),
        r@.to_set() == user_ids_of(logs@),
{
    let mut ids: Vec<u32> = Vec::new();
    let mut i: usize = 0;
    while i < logs.len()
        invariant
            i <= logs@.len(),
            ids@.no_duplicates(),
            ids@.to_set() == user_ids_of(logs@.take(i as int)),
        decreases logs@.len() - i,
    {
        let id = logs[i].user_id;
        let mut j: usize = 0;
        let mut seen = false;
        while j < ids.len()
            invariant
                j <= ids@.len(),
                seen ==> ids@.contains(id),
                !seen ==> forall|k: int| 0 <= k < j ==> ids@[k] != id,
            decreases ids@.len() - j,
        {
            if ids[j] == id {
                seen = true;
            }
            j = j + 1;
        }
        let ghost before = ids@;
        if !seen {
            ids.push(id);
            assert(ids@.no_duplicates()) by {
                assert(forall|k: int| 0 <= k < before.len() ==> before[k] != id);
            }
        }
        let ghost next = logs@.take(i + 1);
        assert(next =~= logs@.take(i as int).push(logs@[i as int]));
        assert(ids@.to_set() =~= user_ids_of(next)) by {
            assert forall|u: u32| ids@.to_set().contains(u) implies user_ids_of(next).contains(u) by {
                if u == id {
                    assert(next[i as int].user_id == u);
                } else {
                    assert(before.contains(u));
                    assert(user_ids_of(logs@.take(i as int)).contains(u));
                    let k = choose|k: int|
                        0 <= k < i && (#[trigger] logs@.take(i as int)[k]).user_id == u;
                    assert(next[k] == logs@.take(i as int)[k]);
                }
            }
            assert forall|u: u32| user_ids_of(next).contains(u) implies ids@.to_set().contains(u) by {
                let k = choose|k: int| 0 <= k < next.len() && (#[trigger] next[k]).user_id == u;
                if k < i {
                    assert(logs@.take(i as int)[k] == next[k]);
                    assert(user_ids_of(logs@.take(i as int)).contains(u));
                    assert(before.to_set().contains(u));
                    let w = choose|w: int| 0 <= w < before.len() && before[w] == u;
                    assert(ids@[w] == u);
                    assert(ids@.contains(u));
                } else {
                    assert(u == id);
                    if !seen {
                        assert(ids@[ids@.len() - 1] == id);
                    }
                }
            }
        }
        i = i + 1;
    }
    assert(logs@.take(logs@.len() as int) =~= logs@);
    ids
}

impl Run {
    /// The state is coherent: while projects are walked, the walk is inside them.
    pub open spec fn wf(&self) -> bool {
        (self.stage == Stage::Issues || self.stage == Stage::MergeRequests)
            ==> self.project < self.result.projects@.len()
    }

    /// A run that has fetched nothing and asks first for the group named `group_name`.
    pub fn new(group_name: &str) -> (r: Run)
        ensures
            r.wf(),
            r.stage == Stage::Group,
            r.group_path@ == hyphenated(group_name@),
            r.cursor is None,
            r.result.projects@.len() == 0,
            r.result.milestones@.len() == 0,
            r.result.issues@.len() == 0,
            r.result.merge_requests@.len() == 0,
            r.result.time_logs@.len() == 0,
            r.result.users@.len() == 0,
    {
        Run {
            group_path: hyphenate(group_name),
            stage: Stage::Group,
            project: 0,
            cursor: None,
            result: FetchResult {
                projects: Vec::new(),
                milestones: Vec::new(),
                issues: Vec::new(),
                merge_requests: Vec::new(),
                time_logs: Vec::new(),
                users: Vec::new(),
            },
        }
    }

    /// The request that the run needs answered next.
    pub fn next_request(&self) -> (r: Request)
        requires
            self.wf(),
        ensures
            self.stage == Stage::Group ==> (r matches Request::Group { path } && path@
                == self.group_path@),
            self.stage == Stage::Issues ==> (r matches Request::Issues { path, cursor } && path@
                == project_path_of(
                self.group_path@,
                self.result.projects@[self.project as int].name@,
            ) && cursor == self.cursor),
            self.stage == Stage::MergeRequests ==> (r matches Request::MergeRequests {
                path,
                cursor,
            } && path@ == project_path_of(
                self.group_path@,
                self.result.projects@[self.project as int].name@,
            ) && cursor == self.cursor),
            self.stage == Stage::Users ==> (r matches Request::Users { ids } && ids@.no_duplicates()
                && ids@.to_set() == user_ids_of(self.result.time_logs@)),
            self.stage == Stage::Finished ==> r is Done,
    {
        match self.stage {
            Stage::Group => Request::Group { path: self.group_path.clone() },
            Stage::Issues => Request::Issues {
                path: project_path(
                    self.group_path.as_str(),
                    self.result.projects[self.project].name.as_str(),
                ),
                cursor: clone_cursor(&self.cursor),
            },
            Stage::MergeRequests => Request::MergeRequests {
                path: project_path(
                    self.group_path.as_str(),
                    self.result.projects[self.project].name.as_str(),
                ),
                cursor: clone_cursor(&self.cursor),
            },
            Stage::Users => Request::Users { ids: distinct_user_ids(&self.result.time_logs) },
            Stage::Finished => Request::Done,
        }
    }

    /// Takes in the group's projects and milestones. The first project's issues
    /// come next, or the users where the group has no project.
    pub fn on_group(&mut self, resp: &GroupResponse) -> (r: Result<(), PipelineError>)
        requires
            old(self).wf(),
            old(self).stage == Stage::Group,
        ensures
            r is Ok <==> group_ok(*resp),
            r is Ok ==> {
                &&& final(self).wf()
                &&& final(self).group_path == old(self).group_path
                &&& final(self).result.projects@ == group_projects(*resp).map_values(
                    |p: ProjectNode| project_of(p),
                )
                &&& final(self).result.milestones@ == group_milestones(*resp)
                &&& final(self).result.issues@ == old(self).result.issues@
                &&& final(self).result.merge_requests@ == old(self).result.merge_requests@
                &&& final(self).result.time_logs@ == old(self).result.time_logs@
                &&& final(self).result.users@ == old(self).result.users@
                &&& final(self).project == 0
                &&& final(self).cursor is None
                &&& final(self).stage == if group_projects(*resp).len() == 0 {
                    Stage::Users
                } else {
                    Stage::Issues
                }
            },
    {
        let (projects, milestones) = decode_group(resp)?;
        let has_projects = projects.len() > 0;
        self.result.projects = projects;
        self.result.milestones = milestones;
        self.project = 0;
        self.cursor = None;
        self.stage = if has_projects {
            Stage::Issues
        } else {
            Stage::Users
        };
        Ok(())
    }

    /// Takes in one page of the current project's issues. The next page comes
    /// next while the server says there is one; after the last, the project's
    /// merge requests, from their first page.
    pub fn on_issues(&mut self, resp: &ProjectItemsResponse) -> (r: Result<(), PipelineError>)
        requires
            old(self).wf(),
            old(self).stage == Stage::Issues,
        ensures
            r is Ok <==> page_ok(*resp),
            r is Ok ==> {
                &&& final(self).wf()
                &&& final(self).group_path == old(self).group_path
                &&& final(self).project == old(self).project
                &&& final(self).result.issues@ == old(self).result.issues@ + page_nodes(
                    *resp,
                ).map_values(|n: WorkItemNode| issue_of(n, page_project_id(*resp)))
                &&& final(self).result.time_logs@ == old(self).result.time_logs@
                    + nodes_timelogs(page_nodes(*resp), ItemKind::Issue)
                &&& final(self).result.projects@ == old(self).result.projects@
                &&& final(self).result.milestones@ == old(self).result.milestones@
                &&& final(self).result.merge_requests@ == old(self).result.merge_requests@
                &&& final(self).result.users@ == old(self).result.users@
                &&& if page_info(*resp).has_next_page {
                    final(self).stage == Stage::Issues && final(self).cursor == page_info(
                        *resp,
                    ).end_cursor
                } else {
                    final(self).stage == Stage::MergeRequests && final(self).cursor is None
                }
            },
    {
        let mut page = decode_issues_page(resp)?;
        self.result.issues.append(&mut page.items);
        self.result.time_logs.append(&mut page.time_logs);
        if page.has_next_page {
            self.cursor = page.end_cursor;
        } else {
            self.cursor = None;
            self.stage = Stage::MergeRequests;
        }
        Ok(())
    }

    /// Takes in one page of the current project's merge requests. After the
    /// last page, the next project's issues come next, or the users after the
    /// last project.
    pub fn on_merge_requests(&mut self, resp: &ProjectItemsResponse) -> (r: Result<
        (),
        PipelineError,
    >)
        requires
            old(self).wf(),
            old(self).stage == Stage::MergeRequests,
        ensures
            r is Ok <==> page_ok(*resp),
            r is Ok ==> {
                &&& final(self).wf()
                &&& final(self).group_path == old(self).group_path
                &&& final(self).result.merge_requests@ == old(self).result.merge_requests@
                    + page_nodes(*resp).map_values(
                    |n: WorkItemNode| merge_request_of(n, page_project_id(*resp)),
                )
                &&& final(self).result.time_logs@ == old(self).result.time_logs@
                    + nodes_timelogs(page_nodes(*resp), ItemKind::MergeRequest)
                &&& final(self).result.projects@ == old(self).result.projects@
                &&& final(self).result.milestones@ == old(self).result.milestones@
                &&& final(self).result.issues@ == old(self).result.issues@
                &&& final(self).result.users@ == old(self).result.users@
                &&& if page_info(*resp).has_next_page {
                    &&& final(self).stage == Stage::MergeRequests
                    &&& final(self).project == old(self).project
                    &&& final(self).cursor == page_info(*resp).end_cursor
                } else {
                    &&& final(self).project == old(self).project + 1
                    &&& final(self).cursor is None
                    &&& final(self).stage == if old(self).project + 1
                        < old(self).result.projects@.len() {
                        Stage::Issues
                    } else {
                        Stage::Users
                    }
                }
            },
    {
        let mut page = decode_merge_requests_page(resp)?;
        self.result.merge_requests.append(&mut page.items);
        self.result.time_logs.append(&mut page.time_logs);
        if page.has_next_page {
            self.cursor = page.end_cursor;
        } else {
            self.cursor = None;
            let n = self.result.projects.len();
            self.project = self.project + 1;
            self.stage = if self.project < self.result.projects.len() {
                Stage::Issues
            } else {
                Stage::Users
            };
        }
        Ok(())
    }

    /// Takes in the users; the run is then complete.
    pub fn on_users(&mut self, resp: &UsersResponse) -> (r: Result<(), PipelineError>)
        requires
            old(self).wf(),
            old(self).stage == Stage::Users,
        ensures
            r is Ok <==> users_ok(*resp),
            r is Ok ==> {
                &&& final(self).wf()
                &&& final(self).stage == Stage::Finished
                &&& final(self).result.users@ == response_users(*resp)->0.map_values(
                    |u: UserNode| user_of(u),
                )
                &&& final(self).result.projects@ == old(self).result.projects@
                &&& final(self).result.milestones@ == old(self).result.milestones@
                &&& final(self).result.issues@ == old(self).result.issues@
                &&& final(self).result.merge_requests@ == old(self).result.merge_requests@
                &&& final(self).result.time_logs@ == old(self).result.time_logs@
            },
    {
        let users = decode_users(resp)?;
        self.result.users = users;
        self.stage = Stage::Finished;
        Ok(())
    }

    /// What a complete run gathered.
    pub fn into_result(self) -> (r: FetchResult)
        requires
            self.stage == Stage::Finished,
        ensures
            r == self.result,
    {
        self.result
    }
}

} // verus!
