//! The statements that the gateway runs against its database.
use vstd::prelude::*;

use crate::types::{AccountName, Key, Project, ProjectName};

verus! {

/// Sets up the table of projects.
pub const CREATE_PROJECTS: &'static str =
    "CREATE TABLE projects (project_name TEXT PRIMARY KEY, account_name TEXT NOT NULL, initial_key TEXT NOT NULL, project_state JSON NOT NULL)";

/// Sets up the table of accounts. An account is no super user unless it is made
/// one.
pub const CREATE_ACCOUNTS: &'static str =
    "CREATE TABLE accounts (account_name TEXT PRIMARY KEY, key TEXT NOT NULL, super_user BOOLEAN NOT NULL DEFAULT FALSE)";

/// A change of the schema of the database. Each is applied once to a database,
/// in the order of the versions.
#[derive(Clone, Copy, Debug, PartialEq, Eq)]
pub struct Migration {
    pub version: i64,
    pub description: &'static str,
    pub sql: &'static str,
}

/// The changes that set up the tables of an empty database, in order.
pub fn migrations() -> (migrations: Vec<Migration>)
    ensures
        migrations@ == seq![
            Migration { version: 1, description: "projects", sql: CREATE_PROJECTS },
            Migration { version: 2, description: "accounts", sql: CREATE_ACCOUNTS },
        ],
{
    let mut migrations: Vec<Migration> = Vec::new();
    migrations.push(Migration { version: 1, description: "projects", sql: CREATE_PROJECTS });
    migrations.push(Migration { version: 2, description: "accounts", sql: CREATE_ACCOUNTS });
    migrations
}

/// A statement with the values bound to its parameters.
pub enum Statement<'a, T> {
    SelectProjects,
    SelectProjectState { project_name: &'a ProjectName },
    UpdateProjectState { project_state: &'a Project<T>, project_name: &'a ProjectName },
    SelectKey { account_name: &'a AccountName },
    SelectAccountName { key: &'a Key },
    SelectInitialKey { project_name: &'a ProjectName },
    InsertAccount { account_name: &'a AccountName, key: &'a Key },
    SelectSuperUser { account_name: &'a AccountName },
    UpdateSuperUser { super_user: bool, account_name: &'a AccountName },
    SelectUserProjects { account_name: &'a AccountName },
    InsertProject {
        project_name: &'a ProjectName,
        account_name: &'a AccountName,
        initial_key: &'a String,
        project_state: &'a Project<T>,
    },
}

/// A value bound to a parameter of a statement. A project's state is stored as
/// JSON.
pub enum Binding<'a, T> {
    Text(&'a str),
    Flag(bool),
    State(&'a Project<T>),
}

/// What a [`Binding`] says.
pub enum BindingView<T> {
    Text(Seq<char>),
    Flag(bool),
    State(Project<T>),
}

impl<'a, T> View for Binding<'a, T> {
    type V = BindingView<T>;

    open spec fn view(&self) -> BindingView<T> {
        match self {
            Binding::Text(text) => BindingView::Text(text@),
            Binding::Flag(flag) => BindingView::Flag(*flag),
            Binding::State(state) => BindingView::State(**state),
        }
    }
}

/// What a list of bindings says.
pub open spec fn bindings_view<'a, T>(bindings: Seq<Binding<'a, T>>) -> Seq<BindingView<T>> {
    bindings.map_values(|binding: Binding<'a, T>| binding@)
}

impl<'a, T> Statement<'a, T> {
    /// The SQL of the statement.
    pub open spec fn sql(self) -> Seq<char> {
        match self {
            Statement::SelectProjects => "SELECT * FROM projects"@,
            Statement::SelectProjectState { .. } =>
                "SELECT project_state FROM projects WHERE project_name=?1"@,
            Statement::UpdateProjectState { .. } =>
                "UPDATE projects SET project_state = ?1 WHERE project_name = ?2"@,
            Statement::SelectKey { .. } => "SELECT key FROM accounts WHERE account_name = ?1"@,
            Statement::SelectAccountName { .. } =>
                "SELECT account_name FROM accounts WHERE key = ?1"@,
            Statement::SelectInitialKey { .. } =>
                "SELECT initial_key FROM projects WHERE project_name = ?1"@,
            Statement::InsertAccount { .. } =>
                "INSERT INTO accounts (account_name, key) VALUES (?1, ?2)"@,
            Statement::SelectSuperUser { .. } =>
                "SELECT super_user FROM accounts WHERE account_name = ?1"@,
            Statement::UpdateSuperUser { .. } =>
                "UPDATE accounts SET super_user = ?1 WHERE account_name = ?2"@,
            Statement::SelectUserProjects { .. } =>
                "SELECT project_name FROM projects WHERE account_name = ?1"@,
            Statement::InsertProject { .. } =>
                "INSERT INTO projects (project_name, account_name, initial_key, project_state) VALUES (?1, ?2, ?3, ?4)"@,
        }
    }

    /// The values of the parameters `?1`, `?2` and so on.
    pub open spec fn parameters(self) -> Seq<BindingView<T>> {
        match self {
            Statement::SelectProjects => seq![],
            Statement::SelectProjectState { project_name } => seq![
                BindingView::Text(project_name@),
            ],
            Statement::UpdateProjectState { project_state, project_name } => seq![
                BindingView::State(*project_state),
                BindingView::Text(project_name@),
            ],
            Statement::SelectKey { account_name } => seq![BindingView::Text(account_name@)],
            Statement::SelectAccountName { key } => seq![BindingView::Text(key@)],
            Statement::SelectInitialKey { project_name } => seq![
                BindingView::Text(project_name@),
            ],
            Statement::InsertAccount { account_name, key } => seq![
                BindingView::Text(account_name@),
                BindingView::Text(key@),
            ],
            Statement::SelectSuperUser { account_name } => seq![
                BindingView::Text(account_name@),
            ],
            Statement::UpdateSuperUser { super_user, account_name } => seq![
                BindingView::Flag(super_user),
                BindingView::Text(account_name@),
            ],
            Statement::SelectUserProjects { account_name } => seq![
                BindingView::Text(account_name@),
            ],
            Statement::InsertProject { project_name, account_name, initial_key, project_state } =>
                seq![
                    BindingView::Text(project_name@),
                    BindingView::Text(account_name@),
                    BindingView::Text(initial_key@),
                    BindingView::State(*project_state),
                ],
        }
    }

    /// The SQL of the statement.
    pub fn text(&self) -> (text: &'static str)
        ensures
            text@ == self.sql(),
    {
        match self {
            Statement::SelectProjects => "SELECT * FROM projects",
            Statement::SelectProjectState { .. } =>
                "SELECT project_state FROM projects WHERE project_name=?1",
            Statement::UpdateProjectState { .. } =>
                "UPDATE projects SET project_state = ?1 WHERE project_name = ?2",
            Statement::SelectKey { .. } => "SELECT key FROM accounts WHERE account_name = ?1",
            Statement::SelectAccountName { .. } =>
                "SELECT account_name FROM accounts WHERE key = ?1",
            Statement::SelectInitialKey { .. } =>
                "SELECT initial_key FROM projects WHERE project_name = ?1",
            Statement::InsertAccount { .. } =>
                "INSERT INTO accounts (account_name, key) VALUES (?1, ?2)",
            Statement::SelectSuperUser { .. } =>
                "SELECT super_user FROM accounts WHERE account_name = ?1",
            Statement::UpdateSuperUser { .. } =>
                "UPDATE accounts SET super_user = ?1 WHERE account_name = ?2",
            Statement::SelectUserProjects { .. } =>
                "SELECT project_name FROM projects WHERE account_name = ?1",
            Statement::InsertProject { .. } =>
                "INSERT INTO projects (project_name, account_name, initial_key, project_state) VALUES (?1, ?2, ?3, ?4)",
        }
    }

    /// The values to bind to the parameters, in order.
    pub fn bindings(&self) -> (bindings: Vec<Binding<'a, T>>)
        ensures
            bindings_view(bindings@) == self.parameters(),
    {
        let mut bindings: Vec<Binding<'a, T>> = Vec::new();
        match self {
            Statement::SelectProjects => {},
            Statement::SelectProjectState { project_name } => {
                bindings.push(Binding::Text(project_name.0.as_str()));
            },
            Statement::UpdateProjectState { project_state, project_name } => {
                bindings.push(Binding::State(*project_state));
                bindings.push(Binding::Text(project_name.0.as_str()));
            },
            Statement::SelectKey { account_name } => {
                bindings.push(Binding::Text(account_name.0.as_str()));
            },
            Statement::SelectAccountName { key } => {
                bindings.push(Binding::Text(key.0.as_str()));
            },
            Statement::SelectInitialKey { project_name } => {
                bindings.push(Binding::Text(project_name.0.as_str()));
            },
            Statement::InsertAccount { account_name, key } => {
                bindings.push(Binding::Text(account_name.0.as_str()));
                bindings.push(Binding::Text(key.0.as_str()));
            },
            Statement::SelectSuperUser { account_name } => {
                bindings.push(Binding::Text(account_name.0.as_str()));
            },
            Statement::UpdateSuperUser { super_user, account_name } => {
                bindings.push(Binding::Flag(*super_user));
                bindings.push(Binding::Text(account_name.0.as_str()));
            },
            Statement::SelectUserProjects { account_name } => {
                bindings.push(Binding::Text(account_name.0.as_str()));
            },
            Statement::InsertProject { project_name, account_name, initial_key, project_state } => {
                bindings.push(Binding::Text(project_name.0.as_str()));
                bindings.push(Binding::Text(account_name.0.as_str()));
                bindings.push(Binding::Text(initial_key.as_str()));
                bindings.push(Binding::State(*project_state));
            },
        }
        bindings
    }
}

} // verus!
