//! The operations that take a single statement.
//!
//! Each is started by the method of [`GatewayService`] of the same name. The
//! caller runs its statement and hands the reply to `finish`.
use vstd::prelude::*;

use crate::error::{Error, ErrorKind, StatementError};
use crate::service::GatewayService;
use crate::statement::Statement;
use crate::types::{AccountName, Key, Project, ProjectName, Work};

verus! {

/// What a statement that reads at most one value comes to, where it is an
/// error of kind `missing` that there is none.
pub open spec fn found<X>(
    reply: Result<Option<X>, StatementError>,
    missing: ErrorKind,
) -> Result<X, Error> {
    match reply {
        Ok(Some(value)) => Ok(value),
        Ok(None) => Err(Error::plain(missing)),
        Err(err) => Err(Error::caused(ErrorKind::Internal, err)),
    }
}

/// What a statement comes to whose reply is the result.
pub open spec fn completed<X>(reply: Result<X, StatementError>) -> Result<X, Error> {
    match reply {
        Ok(value) => Ok(value),
        Err(err) => Err(Error::caused(ErrorKind::Internal, err)),
    }
}

/// What the statement that reads whether an account is a super user comes to:
/// an account that does not exist is none.
pub open spec fn super_user_outcome(reply: Result<Option<bool>, StatementError>) -> Result<
    bool,
    Error,
> {
    match reply {
        Ok(flag) => Ok(flag == Some(true)),
        Err(err) => Err(Error::caused(ErrorKind::Internal, err)),
    }
}

fn require_found<X>(reply: Result<Option<X>, StatementError>, missing: ErrorKind) -> (r: Result<
    X,
    Error,
>)
    ensures
        r == found(reply, missing),
{
    match reply {
        Ok(Some(value)) => Ok(value),
        Ok(None) => Err(Error::from(missing)),
        Err(err) => Err(Error::from(err)),
    }
}

fn require_completed<X>(reply: Result<X, StatementError>) -> (r: Result<X, Error>)
    ensures
        r == completed(reply),
{
    match reply {
        Ok(value) => Ok(value),
        Err(err) => Err(Error::from(err)),
    }
}

/// All projects are being listed.
pub struct IterProjects;

impl IterProjects {
    pub fn statement<T>(&self) -> (statement: Statement<'_, T>)
        ensures
            statement == Statement::SelectProjects::<T>,
    {
        Statement::SelectProjects
    }

    pub fn finish<T>(self, reply: Result<Vec<Work<T>>, StatementError>) -> (r: Result<
        Vec<Work<T>>,
        Error,
    >)
        ensures
            r == completed(reply),
    {
        require_completed(reply)
    }
}

/// The state of a project is being looked up.
pub struct FindProject<'a> {
    pub project_name: &'a ProjectName,
}

impl<'a> FindProject<'a> {
    pub fn statement<T>(&self) -> (statement: Statement<'a, T>)
        ensures
            statement == (Statement::SelectProjectState::<T> {
                project_name: self.project_name,
            }),
    {
        Statement::SelectProjectState { project_name: self.project_name }
    }

    pub fn finish<T>(self, reply: Result<Option<Project<T>>, StatementError>) -> (r: Result<
        Project<T>,
        Error,
    >)
        ensures
            r == found(reply, ErrorKind::ProjectNotFound),
    {
        require_found(reply, ErrorKind::ProjectNotFound)
    }
}

/// The state of a project is being replaced.
pub struct UpdateProject<'a, T> {
    pub project_name: &'a ProjectName,
    pub project: &'a Project<T>,
}

impl<'a, T> UpdateProject<'a, T> {
    pub fn statement(&self) -> (statement: Statement<'a, T>)
        ensures
            statement == (Statement::UpdateProjectState {
                project_state: self.project,
                project_name: self.project_name,
            }),
    {
        Statement::UpdateProjectState {
            project_state: self.project,
            project_name: self.project_name,
        }
    }

    pub fn finish(self, reply: Result<(), StatementError>) -> (r: Result<(), Error>)
        ensures
            r == completed(reply),
    {
        require_completed(reply)
    }
}

/// The key of an account is being looked up.
pub struct KeyFromAccountName<'a> {
    pub account_name: &'a AccountName,
}

impl<'a> KeyFromAccountName<'a> {
    pub fn statement<T>(&self) -> (statement: Statement<'a, T>)
        ensures
            statement == (Statement::SelectKey::<T> { account_name: self.account_name }),
    {
        Statement::SelectKey { account_name: self.account_name }
    }

    pub fn finish(self, reply: Result<Option<Key>, StatementError>) -> (r: Result<Key, Error>)
        ensures
            r == found(reply, ErrorKind::UserNotFound),
    {
        require_found(reply, ErrorKind::UserNotFound)
    }
}

/// The name of the account that has a key is being looked up.
pub struct AccountNameFromKey<'a> {
    pub key: &'a Key,
}

impl<'a> AccountNameFromKey<'a> {
    pub fn statement<T>(&self) -> (statement: Statement<'a, T>)
        ensures
            statement == (Statement::SelectAccountName::<T> { key: self.key }),
    {
        Statement::SelectAccountName { key: self.key }
    }

    pub fn finish(self, reply: Result<Option<AccountName>, StatementError>) -> (r: Result<
        AccountName,
        Error,
    >)
        ensures
            r == found(reply, ErrorKind::UserNotFound),
    {
        require_found(reply, ErrorKind::UserNotFound)
    }
}

/// The key that a project was created with is being looked up.
pub struct ControlKeyFromProjectName<'a> {
    pub project_name: &'a ProjectName,
}

impl<'a> ControlKeyFromProjectName<'a> {
    pub fn statement<T>(&self) -> (statement: Statement<'a, T>)
        ensures
            statement == (Statement::SelectInitialKey::<T> {
                project_name: self.project_name,
            }),
    {
        Statement::SelectInitialKey { project_name: self.project_name }
    }

    pub fn finish(self, reply: Result<Option<String>, StatementError>) -> (r: Result<String, Error>)
        ensures
            r == found(reply, ErrorKind::ProjectNotFound),
    {
        require_found(reply, ErrorKind::ProjectNotFound)
    }
}

/// Whether an account is a super user is being looked up.
pub struct IsSuperUser<'a> {
    pub account_name: &'a AccountName,
}

impl<'a> IsSuperUser<'a> {
    pub fn statement<T>(&self) -> (statement: Statement<'a, T>)
        ensures
            statement == (Statement::SelectSuperUser::<T> { account_name: self.account_name }),
    {
        Statement::SelectSuperUser { account_name: self.account_name }
    }

    pub fn finish(self, reply: Result<Option<bool>, StatementError>) -> (r: Result<bool, Error>)
        ensures
            r == super_user_outcome(reply),
    {
        match reply {
            Ok(Some(super_user)) => Ok(super_user),
            // defaults to `false` (i.e. not super user)
            Ok(None) => Ok(false),
            Err(err) => Err(Error::from(err)),
        }
    }
}

/// Whether an account is a super user is being set.
pub struct SetSuperUser<'a> {
    pub account_name: &'a AccountName,
    pub value: bool,
}

impl<'a> SetSuperUser<'a> {
    pub fn statement<T>(&self) -> (statement: Statement<'a, T>)
        ensures
            statement == (Statement::UpdateSuperUser::<T> {
                super_user: self.value,
                account_name: self.account_name,
            }),
    {
        Statement::UpdateSuperUser { super_user: self.value, account_name: self.account_name }
    }

    pub fn finish(self, reply: Result<(), StatementError>) -> (r: Result<(), Error>)
        ensures
            r == completed(reply),
    {
        require_completed(reply)
    }
}

/// The projects of an account are being listed.
pub struct IterUserProjects<'a> {
    pub account_name: &'a AccountName,
}

impl<'a> IterUserProjects<'a> {
    pub fn statement<T>(&self) -> (statement: Statement<'a, T>)
        ensures
            statement == (Statement::SelectUserProjects::<T> {
                account_name: self.account_name,
            }),
    {
        Statement::SelectUserProjects { account_name: self.account_name }
    }

    pub fn finish(self, reply: Result<Vec<ProjectName>, StatementError>) -> (r: Result<
        Vec<ProjectName>,
        Error,
    >)
        ensures
            r == completed(reply),
    {
        require_completed(reply)
    }
}

impl<S> GatewayService<S> {
    /// List all projects.
    pub fn iter_projects(&self) -> (r: IterProjects)
        ensures
            r == IterProjects,
    {
        IterProjects
    }

    /// Look up the state of a project. If there is no such project, the error
    /// is [`ErrorKind::ProjectNotFound`].
    pub fn find_project<'a>(&self, project_name: &'a ProjectName) -> (r: FindProject<'a>)
        ensures
            r == (FindProject { project_name }),
    {
        FindProject { project_name }
    }

    /// Replace the state of a project. Nothing happens if there is no such
    /// project.
    pub fn update_project<'a, T>(
        &self,
        project_name: &'a ProjectName,
        project: &'a Project<T>,
    ) -> (r: UpdateProject<'a, T>)
        ensures
            r == (UpdateProject { project_name, project }),
    {
        UpdateProject { project_name, project }
    }

    /// Record the state that the worker has moved a project to.
    pub fn update<'a, T>(&self, work: &'a Work<T>) -> (r: UpdateProject<'a, T>)
        ensures
            r == (UpdateProject { project_name: &work.project_name, project: &work.work }),
    {
        self.update_project(&work.project_name, &work.work)
    }

    /// Look up the key of an account. If there is no such account, the error
    /// is [`ErrorKind::UserNotFound`].
    pub fn key_from_account_name<'a>(&self, account_name: &'a AccountName) -> (r:
        KeyFromAccountName<'a>)
        ensures
            r == (KeyFromAccountName { account_name }),
    {
        KeyFromAccountName { account_name }
    }

    /// Look up the account that has a key. If there is none, the error is
    /// [`ErrorKind::UserNotFound`].
    pub fn account_name_from_key<'a>(&self, key: &'a Key) -> (r: AccountNameFromKey<'a>)
        ensures
            r == (AccountNameFromKey { key }),
    {
        AccountNameFromKey { key }
    }

    /// Look up the key that a project was created with, by which the gateway
    /// identifies itself to the project. If there is no such project, the error
    /// is [`ErrorKind::ProjectNotFound`].
    pub fn control_key_from_project_name<'a>(&self, project_name: &'a ProjectName) -> (r:
        ControlKeyFromProjectName<'a>)
        ensures
            r == (ControlKeyFromProjectName { project_name }),
    {
        ControlKeyFromProjectName { project_name }
    }

    /// Look up whether an account is a super user. One that does not exist is
    /// none.
    pub fn is_super_user<'a>(&self, account_name: &'a AccountName) -> (r: IsSuperUser<'a>)
        ensures
            r == (IsSuperUser { account_name }),
    {
        IsSuperUser { account_name }
    }

    /// Make an account a super user, or an ordinary user again. Nothing happens
    /// if there is no such account.
    pub fn set_super_user<'a>(&self, account_name: &'a AccountName, value: bool) -> (r:
        SetSuperUser<'a>)
        ensures
            r == (SetSuperUser { account_name, value }),
    {
        SetSuperUser { account_name, value }
    }

    /// List the projects of an account.
    pub fn iter_user_projects<'a>(&self, account_name: &'a AccountName) -> (r: IterUserProjects<'a>)
        ensures
            r == (IterUserProjects { account_name }),
    {
        IterUserProjects { account_name }
    }
}

} // verus!
