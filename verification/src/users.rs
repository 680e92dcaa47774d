//! The operations on accounts that take several steps or create an account.
use vstd::prelude::*;

use crate::error::{Error, ErrorKind, StatementError};
use crate::lookup::{
    completed, found, super_user_outcome, AccountNameFromKey, IsSuperUser, IterUserProjects,
    KeyFromAccountName,
};
use crate::random::{alphanumeric_text, drawn, ACCOUNT_KEY_LENGTH};
use crate::service::GatewayService;
use crate::statement::Statement;
use crate::types::{names_view, AccountName, Key, ProjectName, User, UserView};

verus! {

/// What the result of an operation that gives a user says.
pub open spec fn user_result(r: Result<User, Error>) -> Result<UserView, Error> {
    match r {
        Ok(user) => Ok(user@),
        Err(err) => Err(err),
    }
}

/// What gathering a user comes to once name and key are known: the first
/// failure of the two lookups that are left, or the user.
pub open spec fn gathered(
    name: AccountName,
    key: Key,
    super_user: Result<Option<bool>, StatementError>,
    projects: Result<Vec<ProjectName>, StatementError>,
) -> Result<UserView, Error> {
    match super_user_outcome(super_user) {
        Err(err) => Err(err),
        Ok(super_user) => match completed(projects) {
            Err(err) => Err(err),
            Ok(projects) => Ok(
                UserView {
                    name: name@,
                    key: key@,
                    projects: names_view(projects@),
                    super_user,
                },
            ),
        },
    }
}

/// What [`user_from_account_name`](GatewayService::user_from_account_name)
/// comes to, by the replies to its statements.
pub open spec fn user_from_account_name_outcome(
    name: AccountName,
    key: Result<Option<Key>, StatementError>,
    super_user: Result<Option<bool>, StatementError>,
    projects: Result<Vec<ProjectName>, StatementError>,
) -> Result<UserView, Error> {
    match found(key, ErrorKind::UserNotFound) {
        Err(err) => Err(err),
        Ok(key) => gathered(name, key, super_user, projects),
    }
}

/// What [`user_from_key`](GatewayService::user_from_key) comes to, by the
/// replies to its statements.
pub open spec fn user_from_key_outcome(
    key: Key,
    name: Result<Option<AccountName>, StatementError>,
    super_user: Result<Option<bool>, StatementError>,
    projects: Result<Vec<ProjectName>, StatementError>,
) -> Result<UserView, Error> {
    match found(name, ErrorKind::UserNotFound) {
        Err(err) => Err(err),
        Ok(name) => gathered(name, key, super_user, projects),
    }
}

/// What [`create_user`](GatewayService::create_user) comes to, by the reply to
/// its statement.
pub open spec fn create_user_outcome(
    name: AccountName,
    key: Key,
    reply: Result<(), StatementError>,
) -> Result<UserView, Error> {
    match reply {
        Ok(()) => Ok(
            UserView {
                name: name@,
                key: key@,
                projects: Seq::empty(),
                super_user: false,
            },
        ),
        Err(err) => if err.is_clash() {
            Err(Error::plain(ErrorKind::UserAlreadyExists))
        } else {
            Err(Error::caused(ErrorKind::Internal, err))
        },
    }
}

/// A user is being gathered, beginning with the name of the account. The key
/// is being looked up.
pub struct UserFromAccountName {
    pub name: AccountName,
}

/// A user is being gathered, beginning with the key of the account. The name
/// is being looked up.
pub struct UserFromKey {
    pub key: Key,
}

/// A user is being gathered. Whether they are a super user is being looked up.
pub struct UserStanding {
    pub name: AccountName,
    pub key: Key,
}

/// A user is being gathered. Their projects are being listed.
pub struct UserProjects {
    pub name: AccountName,
    pub key: Key,
    pub super_user: bool,
}

impl UserFromAccountName {
    /// What the operation comes to from here on, by the replies still to come.
    pub open spec fn outcome(
        self,
        key: Result<Option<Key>, StatementError>,
        super_user: Result<Option<bool>, StatementError>,
        projects: Result<Vec<ProjectName>, StatementError>,
    ) -> Result<UserView, Error> {
        user_from_account_name_outcome(self.name, key, super_user, projects)
    }

    pub fn statement<T>(&self) -> (statement: Statement<'_, T>)
        ensures
            statement == (Statement::SelectKey::<T> { account_name: &self.name }),
    {
        KeyFromAccountName { account_name: &self.name }.statement()
    }

    pub fn key_found(self, reply: Result<Option<Key>, StatementError>) -> (r: Result<
        UserStanding,
        Error,
    >)
        ensures
            match found(reply, ErrorKind::UserNotFound) {
                Ok(key) => r == Ok::<UserStanding, Error>(UserStanding { name: self.name, key }),
                Err(err) => r == Err::<UserStanding, Error>(err),
            },
            forall|super_user, projects| #[trigger]
                self.outcome(reply, super_user, projects) == match r {
                    Ok(next) => next.outcome(super_user, projects),
                    Err(err) => Err(err),
                },
    {
        match (KeyFromAccountName { account_name: &self.name }).finish(reply) {
            Ok(key) => Ok(UserStanding { name: self.name, key }),
            Err(err) => Err(err),
        }
    }
}

impl UserFromKey {
    /// What the operation comes to from here on, by the replies still to come.
    pub open spec fn outcome(
        self,
        name: Result<Option<AccountName>, StatementError>,
        super_user: Result<Option<bool>, StatementError>,
        projects: Result<Vec<ProjectName>, StatementError>,
    ) -> Result<UserView, Error> {
        user_from_key_outcome(self.key, name, super_user, projects)
    }

    pub fn statement<T>(&self) -> (statement: Statement<'_, T>)
        ensures
            statement == (Statement::SelectAccountName::<T> { key: &self.key }),
    {
        AccountNameFromKey { key: &self.key }.statement()
    }

    pub fn account_found(self, reply: Result<Option<AccountName>, StatementError>) -> (r: Result<
        UserStanding,
        Error,
    >)
        ensures
            match found(reply, ErrorKind::UserNotFound) {
                Ok(name) => r == Ok::<UserStanding, Error>(UserStanding { name, key: self.key }),
                Err(err) => r == Err::<UserStanding, Error>(err),
            },
            forall|super_user, projects| #[trigger]
                self.outcome(reply, super_user, projects) == match r {
                    Ok(next) => next.outcome(super_user, projects),
                    Err(err) => Err(err),
                },
    {
        match (AccountNameFromKey { key: &self.key }).finish(reply) {
            Ok(name) => Ok(UserStanding { name, key: self.key }),
            Err(err) => Err(err),
        }
    }
}

impl UserStanding {
    /// What the operation comes to from here on, by the replies still to come.
    pub open spec fn outcome(
        self,
        super_user: Result<Option<bool>, StatementError>,
        projects: Result<Vec<ProjectName>, StatementError>,
    ) -> Result<UserView, Error> {
        gathered(self.name, self.key, super_user, projects)
    }

    pub fn statement<T>(&self) -> (statement: Statement<'_, T>)
        ensures
            statement == (Statement::SelectSuperUser::<T> { account_name: &self.name }),
    {
        IsSuperUser { account_name: &self.name }.statement()
    }

    pub fn standing_found(self, reply: Result<Option<bool>, StatementError>) -> (r: Result<
        UserProjects,
        Error,
    >)
        ensures
            match super_user_outcome(reply) {
                Ok(super_user) => r == Ok::<UserProjects, Error>(
                    UserProjects { name: self.name, key: self.key, super_user },
                ),
                Err(err) => r == Err::<UserProjects, Error>(err),
            },
            forall|projects| #[trigger]
                self.outcome(reply, projects) == match r {
                    Ok(next) => next.outcome(projects),
                    Err(err) => Err(err),
                },
    {
        match (IsSuperUser { account_name: &self.name }).finish(reply) {
            Ok(super_user) => Ok(UserProjects { name: self.name, key: self.key, super_user }),
            Err(err) => Err(err),
        }
    }
}

impl UserProjects {
    /// What the operation comes to, by the reply still to come.
    pub open spec fn outcome(self, projects: Result<Vec<ProjectName>, StatementError>) -> Result<
        UserView,
        Error,
    > {
        match completed(projects) {
            Err(err) => Err(err),
            Ok(projects) => Ok(
                UserView {
                    name: self.name@,
                    key: self.key@,
                    projects: names_view(projects@),
                    super_user: self.super_user,
                },
            ),
        }
    }

    pub fn statement<T>(&self) -> (statement: Statement<'_, T>)
        ensures
            statement == (Statement::SelectUserProjects::<T> { account_name: &self.name }),
    {
        IterUserProjects { account_name: &self.name }.statement()
    }

    pub fn finish(self, reply: Result<Vec<ProjectName>, StatementError>) -> (r: Result<User, Error>)
        ensures
            match completed(reply) {
                Ok(projects) => r == Ok::<User, Error>(
                    User {
                        name: self.name,
                        key: self.key,
                        projects,
                        super_user: self.super_user,
                    },
                ),
                Err(err) => r == Err::<User, Error>(err),
            },
            user_result(r) == self.outcome(reply),
    {
        match (IterUserProjects { account_name: &self.name }).finish(reply) {
            Ok(projects) => Ok(
                User { name: self.name, key: self.key, projects, super_user: self.super_user },
            ),
            Err(err) => Err(err),
        }
    }
}

/// An account is being created.
pub struct CreateUser {
    pub name: AccountName,
    pub key: Key,
}

impl CreateUser {
    pub fn statement<T>(&self) -> (statement: Statement<'_, T>)
        ensures
            statement == (Statement::InsertAccount::<T> {
                account_name: &self.name,
                key: &self.key,
            }),
    {
        Statement::InsertAccount { account_name: &self.name, key: &self.key }
    }

    /// A database that refuses the statement says by which code.
    pub fn finish(self, reply: Result<(), StatementError>) -> (r: Result<User, Error>)
        requires
            reply matches Err(StatementError::Database { code, .. }) ==> code is Some,
        ensures
            user_result(r) == create_user_outcome(self.name, self.key, reply),
            r matches Ok(user) ==> user.name == self.name && user.key == self.key
                && user.projects@.len() == 0,
    {
        match reply {
            Ok(()) => {
                let projects: Vec<ProjectName> = Vec::new();
                assert(names_view(projects@) =~= Seq::empty());
                Ok(User { name: self.name, key: self.key, projects, super_user: false })
            },
            Err(err) => {
                // If the error is a broken primary key constraint, this is an
                // account name clash
                if err.clashes() {
                    Err(Error::from_kind(ErrorKind::UserAlreadyExists))
                } else {
                    // Otherwise this is internal
                    Err(Error::from(err))
                }
            },
        }
    }
}

impl<S> GatewayService<S> {
    /// Gather what is known of the user with the account `name`. If there is
    /// no such account, the error is [`ErrorKind::UserNotFound`].
    pub fn user_from_account_name(&self, name: AccountName) -> (r: UserFromAccountName)
        ensures
            r == (UserFromAccountName { name }),
    {
        UserFromAccountName { name }
    }

    /// Gather what is known of the user whose account has the key `key`. If
    /// there is no such account, the error is [`ErrorKind::UserNotFound`].
    pub fn user_from_key(&self, key: Key) -> (r: UserFromKey)
        ensures
            r == (UserFromKey { key }),
    {
        UserFromKey { key }
    }

    /// Create an account with a fresh key. If there is an account of that name,
    /// the error is [`ErrorKind::UserAlreadyExists`].
    pub fn create_user(&self, name: AccountName) -> (r: CreateUser)
        ensures
            r.name == name,
            drawn(r.key.0, ACCOUNT_KEY_LENGTH),
            alphanumeric_text(r.key@, ACCOUNT_KEY_LENGTH as nat),
    {
        self.create_user_with_key(name, Key::new_random())
    }

    /// Create an account with the key `key`.
    pub fn create_user_with_key(&self, name: AccountName, key: Key) -> (r: CreateUser)
        ensures
            r == (CreateUser { name, key }),
    {
        CreateUser { name, key }
    }
}

} // verus!
