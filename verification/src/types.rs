//! The values the gateway keeps and passes around.
use vstd::prelude::*;

verus! {

/// The name of an account.
#[derive(Debug, PartialEq, Eq, Hash)]
pub struct AccountName(pub String);

/// The name of a project.
#[derive(Debug, PartialEq, Eq, Hash)]
pub struct ProjectName(pub String);

/// The key by which the owner of an account identifies themselves.
#[derive(Debug, PartialEq, Eq, Hash)]
pub struct Key(pub String);

impl View for AccountName {
    type V = Seq<char>;

    open spec fn view(&self) -> Seq<char> {
        self.0@
    }
}

impl View for ProjectName {
    type V = Seq<char>;

    open spec fn view(&self) -> Seq<char> {
        self.0@
    }
}

impl View for Key {
    type V = Seq<char>;

    open spec fn view(&self) -> Seq<char> {
        self.0@
    }
}

impl Clone for AccountName {
    fn clone(&self) -> (r: Self)
        ensures
            r == *self,
    {
        AccountName(self.0.clone())
    }
}

impl Clone for ProjectName {
    fn clone(&self) -> (r: Self)
        ensures
            r == *self,
    {
        ProjectName(self.0.clone())
    }
}

impl Clone for Key {
    fn clone(&self) -> (r: Self)
        ensures
            r == *self,
    {
        Key(self.0.clone())
    }
}

/// What the gateway was started with: the prefix of the names under which
/// projects run, and the path of the database that keeps its state.
#[derive(Debug, PartialEq, Eq)]
pub struct Args {
    pub prefix: String,
    pub state: String,
}

impl Clone for Args {
    fn clone(&self) -> (r: Self)
        ensures
            r == *self,
    {
        Args { prefix: self.prefix.clone(), state: self.state.clone() }
    }
}

/// An account, and the projects it owns.
#[derive(Debug, PartialEq, Eq)]
pub struct User {
    pub name: AccountName,
    pub key: Key,
    pub projects: Vec<ProjectName>,
    pub super_user: bool,
}

/// What a [`User`] says.
pub struct UserView {
    pub name: Seq<char>,
    pub key: Seq<char>,
    pub projects: Seq<Seq<char>>,
    pub super_user: bool,
}

/// The texts of a list of project names.
pub open spec fn names_view(names: Seq<ProjectName>) -> Seq<Seq<char>> {
    names.map_values(|name: ProjectName| name@)
}

impl View for User {
    type V = UserView;

    open spec fn view(&self) -> UserView {
        UserView {
            name: self.name@,
            key: self.key@,
            projects: names_view(self.projects@),
            super_user: self.super_user,
        }
    }
}

/// The first state of every project: recorded, nothing started yet.
#[derive(Debug, PartialEq, Eq)]
pub struct ProjectCreating {
    project_name: ProjectName,
    prefix: String,
    initial_key: String,
}

/// What a [`ProjectCreating`] says.
pub struct CreatingView {
    pub project_name: Seq<char>,
    pub prefix: Seq<char>,
    pub initial_key: Seq<char>,
}

impl View for ProjectCreating {
    type V = CreatingView;

    closed spec fn view(&self) -> CreatingView {
        CreatingView {
            project_name: self.project_name@,
            prefix: self.prefix@,
            initial_key: self.initial_key@,
        }
    }
}

impl ProjectCreating {
    pub fn new(project_name: ProjectName, prefix: String, initial_key: String) -> (r: Self)
        ensures
            r@ == (CreatingView {
                project_name: project_name@,
                prefix: prefix@,
                initial_key: initial_key@,
            }),
    {
        ProjectCreating { project_name, prefix, initial_key }
    }

    pub fn project_name(&self) -> (r: &ProjectName)
        ensures
            r@ == self@.project_name,
    {
        &self.project_name
    }

    pub fn prefix(&self) -> (r: &str)
        ensures
            r@ == self@.prefix,
    {
        self.prefix.as_str()
    }

    pub fn initial_key(&self) -> (r: &str)
        ensures
            r@ == self@.initial_key,
    {
        self.initial_key.as_str()
    }
}

impl Clone for ProjectCreating {
    fn clone(&self) -> (r: Self)
        ensures
            r == *self,
    {
        ProjectCreating {
            project_name: self.project_name.clone(),
            prefix: self.prefix.clone(),
            initial_key: self.initial_key.clone(),
        }
    }
}

/// The recorded state of a project. What a project that has left its first
/// state looks like, `T`, is up to what runs the projects: the gateway stores
/// such a state and hands it on, and never looks inside.
#[derive(Debug, PartialEq, Eq)]
pub enum Project<T> {
    Creating(ProjectCreating),
    Advanced(T),
}

/// What a [`Project`] says.
pub enum ProjectView<T> {
    Creating(CreatingView),
    Advanced(T),
}

impl<T> View for Project<T> {
    type V = ProjectView<T>;

    open spec fn view(&self) -> ProjectView<T> {
        match self {
            Project::Creating(creating) => ProjectView::Creating(creating@),
            Project::Advanced(state) => ProjectView::Advanced(*state),
        }
    }
}

/// A project to be moved to its next state, as it is submitted to the worker.
#[derive(Debug, PartialEq, Eq)]
pub struct Work<T> {
    pub project_name: ProjectName,
    pub account_name: AccountName,
    pub work: Project<T>,
}

/// What a [`Work`] says.
pub struct WorkView<T> {
    pub project_name: Seq<char>,
    pub account_name: Seq<char>,
    pub work: ProjectView<T>,
}

impl<T> View for Work<T> {
    type V = WorkView<T>;

    open spec fn view(&self) -> WorkView<T> {
        WorkView {
            project_name: self.project_name@,
            account_name: self.account_name@,
            work: self.work@,
        }
    }
}

/// What a list of [`Work`] says.
pub open spec fn works_view<T>(works: Seq<Work<T>>) -> Seq<WorkView<T>> {
    works.map_values(|work: Work<T>| work@)
}

} // verus!
