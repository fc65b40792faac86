use vstd::prelude::*;

verus! {

/// A group of projects, by its key.
#[derive(Clone, Debug, PartialEq, Eq)]
pub struct Group {
    pub id: u32,
    pub projects: Vec<Project>,
}

#[derive(Clone, Debug, PartialEq, Eq)]
pub struct Project {
    pub id: u32,
    pub name: String,
}

/// A milestone of the group or of one of its projects; both kinds share one table.
#[derive(Clone, Debug, PartialEq, Eq)]
pub struct Milestone {
    pub id: u32,
    pub name: String,
}

/// An issue: `id` is the global key, `iid` the number shown within its project.
#[derive(Clone, Debug, PartialEq, Eq)]
pub struct Issue {
    pub id: u32,
    pub iid: u32,
    pub name: String,
    pub project_id: u32,
    pub milestone_id: Option<u32>,
}

#[derive(Clone, Debug, PartialEq, Eq)]
pub struct MergeRequest {
    pub id: u32,
    pub iid: u32,
    pub name: String,
    pub project_id: u32,
    pub milestone_id: Option<u32>,
}

/// Time spent by a user on one day, in whole minutes, against exactly one
/// issue or merge request.
#[derive(Clone, Debug, PartialEq, Eq)]
pub struct TimeLog {
    pub time: i64,
    pub date: String,
    pub user_id: u32,
    pub issue_id: Option<u32>,
    pub merge_request_id: Option<u32>,
}

#[derive(Clone, Debug, PartialEq, Eq)]
pub struct User {
    pub id: u32,
    pub username: String,
}

impl Group {
    pub fn get_key(&self) -> (r: u32)
        ensures
            r == self.id,
    {
        self.id
    }
}

impl Project {
    pub fn get_key(&self) -> (r: u32)
        ensures
            r == self.id,
    {
        self.id
    }
}

impl Milestone {
    pub fn get_key(&self) -> (r: u32)
        ensures
            r == self.id,
    {
        self.id
    }
}

impl Issue {
    pub fn get_key(&self) -> (r: u32)
        ensures
            r == self.id,
    {
        self.id
    }
}

impl MergeRequest {
    pub fn get_key(&self) -> (r: u32)
        ensures
            r == self.id,
    {
        self.id
    }
}

impl TimeLog {
    /// A time log is keyed by its user and its date.
    pub fn get_key(&self) -> (r: (u32, String))
        ensures
            r.0 == self.user_id,
            r.1@ == self.date@,
    {
        (self.user_id, self.date.clone())
    }
}

impl User {
    pub fn get_key(&self) -> (r: u32)
        ensures
            r == self.id,
    {
        self.id
    }
}

} // verus!
