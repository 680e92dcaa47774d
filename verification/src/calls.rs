//! What the operations of the gateway do, call by call.
//!
//! Each law speaks of the calls that make up an operation, of what is handed to
//! them and of what they give back. A statement that a call gives is tied to the
//! tables by [`statements_are_run_as_they_read`] and by the laws of
//! [`laws`](crate::laws).
use vstd::prelude::*;
use vstd::utf8::encode_utf8;

use crate::error::{Error, ErrorKind, Failure, StatementError};
use crate::http::before_fragment;
use crate::laws::{leading_slash_is_optional, routes_are_uris_by_their_characters, stands};
use crate::lookup::{
    AccountNameFromKey, ControlKeyFromProjectName, FindProject, IsSuperUser, IterProjects,
    IterUserProjects, KeyFromAccountName, SetSuperUser, UpdateProject,
};
use crate::projects::{CreateProject, DestroyProject, DestroyingProject, RecordedProject};
use crate::random::{alphanumeric_text, drawn};
use crate::refresh::{Refresh, Refreshed, Refreshing, Submitting};
use crate::route::{make_absolute, Forward, Route, RouteKey, RouteRequest, RouteTarget};
use crate::service::{Delivery, GatewayContext, GatewayService, Startup};
use crate::statement::{bindings_view, Binding, BindingView, Statement};
use crate::tables::{Answer, Storage, Tables};
use crate::types::{
    names_view, works_view, AccountName, Args, CreatingView, Key, Project, ProjectCreating,
    ProjectName, ProjectView, User, Work,
};
use crate::users::{CreateUser, UserFromAccountName, UserFromKey, UserProjects, UserStanding};

verus! {

/// The failure that the database's failure `err` comes to.
pub open spec fn internal(err: StatementError) -> Error {
    Error { kind: ErrorKind::Internal, source: Some(err) }
}

/// A failure of kind `kind` with nothing behind it.
pub open spec fn bare(kind: ErrorKind) -> Error {
    Error { kind, source: None }
}

/// `err` is SQLite's report that a row with the same primary key exists.
pub open spec fn reports_primary_key(err: StatementError) -> bool {
    err matches StatementError::Database { code: Some(code), .. } && code@ == "1555"@
}

/// `r` is what a lookup comes to that has to find something: what was found, or
/// that it is missing, or the failure of the database.
pub open spec fn looked_up<X>(
    reply: Result<Option<X>, StatementError>,
    missing: ErrorKind,
    r: Result<X, Error>,
) -> bool {
    &&& reply matches Ok(Some(value)) ==> r == Ok::<X, Error>(value)
    &&& reply == Ok::<Option<X>, StatementError>(None) ==> r == Err::<X, Error>(bare(missing))
    &&& reply matches Err(err) ==> r == Err::<X, Error>(internal(err))
}

/// `r` is what a statement comes to whose reply is the result.
pub open spec fn carried_out<X>(reply: Result<X, StatementError>, r: Result<X, Error>) -> bool {
    &&& reply matches Ok(value) ==> r == Ok::<X, Error>(value)
    &&& reply matches Err(err) ==> r == Err::<X, Error>(internal(err))
}

/// An error says its kind, and what is behind it.
pub proof fn errors_say_their_kind(
    kind: ErrorKind,
    err: StatementError,
    plain: Error,
    caused: Error,
    told: ErrorKind,
)
    requires
        call_ensures(Error::from_kind, (kind,), plain),
        call_ensures(Error::source, (kind, err), caused),
        call_ensures(Error::kind, (&caused,), told),
    ensures
        plain.kind == kind && plain.source is None,
        caused.kind == kind && caused.source == Some(err),
        told == kind,
{
}

/// A failure of the database is internal wherever it is converted, and a failure
/// of the gateway stays what it is.
pub proof fn conversions_keep_the_failure<E>(
    kind: ErrorKind,
    err: StatementError,
    failure: Error,
    from_kind: Error,
    from_statement: Error,
    from_error: Failure<E>,
)
    requires
        call_ensures(<Error as From<ErrorKind>>::from, (kind,), from_kind),
        call_ensures(<Error as From<StatementError>>::from, (err,), from_statement),
        call_ensures(<Failure<E> as From<Error>>::from, (failure,), from_error),
    ensures
        from_kind == bare(kind),
        from_statement == internal(err),
        from_error == Failure::<E>::Gateway(failure),
{
}

/// Only SQLite's report of a primary key is taken as a clash.
pub proof fn only_primary_keys_clash(err: StatementError, clash: bool)
    requires
        call_ensures(StatementError::clashes, (&err,), clash),
    ensures
        clash == reports_primary_key(err),
{
}

/// The views of names, keys and bindings are the texts and values in them.
pub proof fn views_are_what_is_held<'a, T>(text: String, part: &'a str, flag: bool, state: &'a Project<T>)
    ensures
        AccountName(text)@ == text@,
        ProjectName(text)@ == text@,
        Key(text)@ == text@,
        Binding::<'a, T>::Text(part)@ == BindingView::<T>::Text(part@),
        Binding::<'a, T>::Flag(flag)@ == BindingView::<T>::Flag(flag),
        Binding::<'a, T>::State(state)@ == BindingView::<T>::State(*state),
{
}

/// The views of users, projects and work say all that is in them, and the views of
/// lists say it of each item.
pub proof fn views_say_everything<'a, T>(
    user: User,
    state: T,
    creating: ProjectCreating,
    work: Work<T>,
    names: Seq<ProjectName>,
    works: Seq<Work<T>>,
    bindings: Seq<Binding<'a, T>>,
    i: int,
)
    ensures
        user@.name == user.name.0@,
        user@.key == user.key.0@,
        user@.projects == names_view(user.projects@),
        user@.super_user == user.super_user,
        Project::<T>::Advanced(state)@ == ProjectView::<T>::Advanced(state),
        Project::<T>::Creating(creating)@ == ProjectView::<T>::Creating(creating@),
        work@.project_name == work.project_name.0@,
        work@.account_name == work.account_name.0@,
        work@.work == work.work@,
        names_view(names).len() == names.len(),
        0 <= i < names.len() ==> names_view(names)[i] == names[i].0@,
        works_view(works).len() == works.len(),
        0 <= i < works.len() ==> works_view(works)[i] == works[i]@,
        bindings_view(bindings).len() == bindings.len(),
        0 <= i < bindings.len() ==> bindings_view(bindings)[i] == bindings[i]@,
{
}

/// The database that runs the SQL that a statement gives, with the values that it
/// says to bind, carries out the statement.
pub proof fn statements_are_run_as_they_read<'a, T>(
    tables: Tables<T>,
    statement: Statement<'a, T>,
    text: &'static str,
    bindings: Vec<Binding<'a, T>>,
    answer: Answer<T>,
    after: Tables<T>,
)
    requires
        call_ensures(Statement::<'a, T>::text, (&statement,), text),
        call_ensures(Statement::<'a, T>::bindings, (&statement,), bindings),
        tables.executes(text@, bindings_view(bindings@), answer, after),
    ensures
        tables.runs(statement, answer, after),
{
}

/// `binding` binds the text `text`.
pub open spec fn binds_text<'a, T>(binding: Binding<'a, T>, text: Seq<char>) -> bool {
    binding matches Binding::Text(bound) && bound@ == text
}

/// `binding` binds the state `state`.
pub open spec fn binds_state<'a, T>(binding: Binding<'a, T>, state: Project<T>) -> bool {
    binding matches Binding::State(bound) && *bound == state
}

/// The values bound are those that the statement holds, in the order in which
/// its SQL names them.
pub proof fn statements_bind_what_they_hold<'a, T>(
    statement: Statement<'a, T>,
    bindings: Vec<Binding<'a, T>>,
)
    requires
        call_ensures(Statement::<'a, T>::bindings, (&statement,), bindings),
    ensures
        match statement {
            Statement::SelectProjects => bindings@.len() == 0,
            Statement::SelectProjectState { project_name } => bindings@.len() == 1 && binds_text(
                bindings@[0],
                project_name.0@,
            ),
            Statement::UpdateProjectState { project_state, project_name } => {
                &&& bindings@.len() == 2
                &&& binds_state(bindings@[0], *project_state)
                &&& binds_text(bindings@[1], project_name.0@)
            },
            Statement::SelectKey { account_name } => bindings@.len() == 1 && binds_text(
                bindings@[0],
                account_name.0@,
            ),
            Statement::SelectAccountName { key } => bindings@.len() == 1 && binds_text(
                bindings@[0],
                key.0@,
            ),
            Statement::SelectInitialKey { project_name } => bindings@.len() == 1 && binds_text(
                bindings@[0],
                project_name.0@,
            ),
            Statement::InsertAccount { account_name, key } => {
                &&& bindings@.len() == 2
                &&& binds_text(bindings@[0], account_name.0@)
                &&& binds_text(bindings@[1], key.0@)
            },
            Statement::SelectSuperUser { account_name } => bindings@.len() == 1 && binds_text(
                bindings@[0],
                account_name.0@,
            ),
            Statement::UpdateSuperUser { super_user, account_name } => {
                &&& bindings@.len() == 2
                &&& bindings@[0] matches Binding::Flag(flag) && flag == super_user
                &&& binds_text(bindings@[1], account_name.0@)
            },
            Statement::SelectUserProjects { account_name } => bindings@.len() == 1 && binds_text(
                bindings@[0],
                account_name.0@,
            ),
            Statement::InsertProject { project_name, account_name, initial_key, project_state } => {
                &&& bindings@.len() == 4
                &&& binds_text(bindings@[0], project_name.0@)
                &&& binds_text(bindings@[1], account_name.0@)
                &&& binds_text(bindings@[2], initial_key@)
                &&& binds_state(bindings@[3], *project_state)
            },
        },
{
    let views = bindings_view(bindings@);
    assert(views == statement.parameters());
    assert(views.len() == bindings@.len());
    assert(forall|i: int| 0 <= i < views.len() ==> views[i] == #[trigger] bindings@[i]@);
    if views.len() > 0 {
        assert(statement.parameters()[0] == bindings@[0]@);
    }
}

/// All projects are listed by the statement that selects them, and the list is
/// what it finds.
pub proof fn iter_projects_gives_the_rows<'a, S, T>(
    service: GatewayService<S>,
    op: IterProjects,
    statement: Statement<'a, T>,
    reply: Result<Vec<Work<T>>, StatementError>,
    r: Result<Vec<Work<T>>, Error>,
)
    requires
        call_ensures(GatewayService::<S>::iter_projects, (&service,), op),
        call_ensures(IterProjects::statement::<T>, (&op,), statement),
        call_ensures(IterProjects::finish::<T>, (op, reply), r),
    ensures
        statement == Statement::<'a, T>::SelectProjects,
        carried_out(reply, r),
{
}

/// A project is looked up under its name.
pub proof fn find_project_gives_the_state<'a, S, T>(
    service: GatewayService<S>,
    project_name: &'a ProjectName,
    op: FindProject<'a>,
    statement: Statement<'a, T>,
    reply: Result<Option<Project<T>>, StatementError>,
    r: Result<Project<T>, Error>,
)
    requires
        call_ensures(GatewayService::<S>::find_project, (&service, project_name), op),
        call_ensures(FindProject::<'a>::statement::<T>, (&op,), statement),
        call_ensures(FindProject::<'a>::finish::<T>, (op, reply), r),
    ensures
        statement == (Statement::SelectProjectState::<T> { project_name }),
        looked_up(reply, ErrorKind::ProjectNotFound, r),
{
}

/// A state is recorded for the project it is given for, by its name or with the
/// work that the worker hands over.
pub proof fn update_project_records_the_state<'a, S, T>(
    service: GatewayService<S>,
    work: &'a Work<T>,
    op: UpdateProject<'a, T>,
    by_worker: UpdateProject<'a, T>,
    statement: Statement<'a, T>,
    reply: Result<(), StatementError>,
    r: Result<(), Error>,
)
    requires
        call_ensures(
            GatewayService::<S>::update_project::<T>,
            (&service, &work.project_name, &work.work),
            op,
        ),
        call_ensures(GatewayService::<S>::update::<T>, (&service, work), by_worker),
        call_ensures(UpdateProject::<'a, T>::statement, (&op,), statement),
        call_ensures(UpdateProject::<'a, T>::finish, (op, reply), r),
    ensures
        statement == (Statement::UpdateProjectState {
            project_state: &work.work,
            project_name: &work.project_name,
        }),
        by_worker == op,
        carried_out(reply, r),
{
}

/// The key of an account is looked up under its name.
pub proof fn key_from_account_name_gives_the_key<'a, S, T>(
    service: GatewayService<S>,
    account_name: &'a AccountName,
    op: KeyFromAccountName<'a>,
    statement: Statement<'a, T>,
    reply: Result<Option<Key>, StatementError>,
    r: Result<Key, Error>,
)
    requires
        call_ensures(GatewayService::<S>::key_from_account_name, (&service, account_name), op),
        call_ensures(KeyFromAccountName::<'a>::statement::<T>, (&op,), statement),
        call_ensures(KeyFromAccountName::<'a>::finish, (op, reply), r),
    ensures
        statement == (Statement::SelectKey::<T> { account_name }),
        looked_up(reply, ErrorKind::UserNotFound, r),
{
}

/// An account is looked up by its key.
pub proof fn account_name_from_key_gives_the_name<'a, S, T>(
    service: GatewayService<S>,
    key: &'a Key,
    op: AccountNameFromKey<'a>,
    statement: Statement<'a, T>,
    reply: Result<Option<AccountName>, StatementError>,
    r: Result<AccountName, Error>,
)
    requires
        call_ensures(GatewayService::<S>::account_name_from_key, (&service, key), op),
        call_ensures(AccountNameFromKey::<'a>::statement::<T>, (&op,), statement),
        call_ensures(AccountNameFromKey::<'a>::finish, (op, reply), r),
    ensures
        statement == (Statement::SelectAccountName::<T> { key }),
        looked_up(reply, ErrorKind::UserNotFound, r),
{
}

/// The key of a project is looked up under its name.
pub proof fn control_key_from_project_name_gives_the_key<'a, S, T>(
    service: GatewayService<S>,
    project_name: &'a ProjectName,
    op: ControlKeyFromProjectName<'a>,
    statement: Statement<'a, T>,
    reply: Result<Option<String>, StatementError>,
    r: Result<String, Error>,
)
    requires
        call_ensures(
            GatewayService::<S>::control_key_from_project_name,
            (&service, project_name),
            op,
        ),
        call_ensures(ControlKeyFromProjectName::<'a>::statement::<T>, (&op,), statement),
        call_ensures(ControlKeyFromProjectName::<'a>::finish, (op, reply), r),
    ensures
        statement == (Statement::SelectInitialKey::<T> { project_name }),
        looked_up(reply, ErrorKind::ProjectNotFound, r),
{
}

/// An account is a super user if its row says so, and not if there is no row.
pub proof fn is_super_user_tells_the_flag<'a, S, T>(
    service: GatewayService<S>,
    account_name: &'a AccountName,
    op: IsSuperUser<'a>,
    statement: Statement<'a, T>,
    reply: Result<Option<bool>, StatementError>,
    r: Result<bool, Error>,
)
    requires
        call_ensures(GatewayService::<S>::is_super_user, (&service, account_name), op),
        call_ensures(IsSuperUser::<'a>::statement::<T>, (&op,), statement),
        call_ensures(IsSuperUser::<'a>::finish, (op, reply), r),
    ensures
        statement == (Statement::SelectSuperUser::<T> { account_name }),
        reply matches Ok(Some(flag)) ==> r == Ok::<bool, Error>(flag),
        reply == Ok::<Option<bool>, StatementError>(None) ==> r == Ok::<bool, Error>(false),
        reply matches Err(err) ==> r == Err::<bool, Error>(internal(err)),
{
}

/// The standing of an account is set to the value given.
pub proof fn set_super_user_sets_the_flag<'a, S, T>(
    service: GatewayService<S>,
    account_name: &'a AccountName,
    value: bool,
    op: SetSuperUser<'a>,
    statement: Statement<'a, T>,
    reply: Result<(), StatementError>,
    r: Result<(), Error>,
)
    requires
        call_ensures(GatewayService::<S>::set_super_user, (&service, account_name, value), op),
        call_ensures(SetSuperUser::<'a>::statement::<T>, (&op,), statement),
        call_ensures(SetSuperUser::<'a>::finish, (op, reply), r),
    ensures
        statement == (Statement::UpdateSuperUser::<T> { super_user: value, account_name }),
        carried_out(reply, r),
{
}

/// The projects of an account are listed under its name.
pub proof fn iter_user_projects_gives_the_names<'a, S, T>(
    service: GatewayService<S>,
    account_name: &'a AccountName,
    op: IterUserProjects<'a>,
    statement: Statement<'a, T>,
    reply: Result<Vec<ProjectName>, StatementError>,
    r: Result<Vec<ProjectName>, Error>,
)
    requires
        call_ensures(GatewayService::<S>::iter_user_projects, (&service, account_name), op),
        call_ensures(IterUserProjects::<'a>::statement::<T>, (&op,), statement),
        call_ensures(IterUserProjects::<'a>::finish, (op, reply), r),
    ensures
        statement == (Statement::SelectUserProjects::<T> { account_name }),
        carried_out(reply, r),
{
}

/// Once name and key are known, the user is gathered from the standing of the
/// account and from the list of its projects: the first failure ends it.
pub proof fn users_are_gathered<'a, T>(
    name: AccountName,
    key: Key,
    flag: Result<Option<bool>, StatementError>,
    names: Result<Vec<ProjectName>, StatementError>,
    second: Statement<'a, T>,
    listing: Result<UserProjects, Error>,
    third: Statement<'a, T>,
    r: Result<User, Error>,
)
    requires
        call_ensures(UserStanding::statement::<T>, (&UserStanding { name, key },), second),
        call_ensures(UserStanding::standing_found, (UserStanding { name, key }, flag), listing),
        listing matches Ok(op) ==> {
            &&& call_ensures(UserProjects::statement::<T>, (&op,), third)
            &&& call_ensures(UserProjects::finish, (op, names), r)
        },
    ensures
        second == (Statement::SelectSuperUser::<T> { account_name: &name }),
        flag matches Err(err) ==> listing == Err::<UserProjects, Error>(internal(err)),
        flag matches Ok(flag) ==> {
            &&& listing is Ok
            &&& third == (Statement::SelectUserProjects::<T> { account_name: &name })
            &&& names matches Err(err) ==> r == Err::<User, Error>(internal(err))
            &&& names matches Ok(projects) ==> r == Ok::<User, Error>(
                User { name, key, projects, super_user: flag == Some(true) },
            )
        },
{
}

/// A user who is looked up by account name is gathered under that name, with the
/// key that was found for it.
pub proof fn user_from_account_name_begins_with_the_key<'a, S, T>(
    service: GatewayService<S>,
    name: AccountName,
    op: UserFromAccountName,
    statement: Statement<'a, T>,
    reply: Result<Option<Key>, StatementError>,
    r: Result<UserStanding, Error>,
)
    requires
        call_ensures(GatewayService::<S>::user_from_account_name, (&service, name), op),
        call_ensures(UserFromAccountName::statement::<T>, (&op,), statement),
        call_ensures(UserFromAccountName::key_found, (op, reply), r),
    ensures
        statement == (Statement::SelectKey::<T> { account_name: &name }),
        reply matches Ok(Some(key)) ==> r == Ok::<UserStanding, Error>(UserStanding { name, key }),
        reply == Ok::<Option<Key>, StatementError>(None) ==> r == Err::<UserStanding, Error>(
            bare(ErrorKind::UserNotFound),
        ),
        reply matches Err(err) ==> r == Err::<UserStanding, Error>(internal(err)),
{
}

/// A user who is looked up by key is gathered under the name that was found for
/// the key, with that key.
pub proof fn user_from_key_begins_with_the_name<'a, S, T>(
    service: GatewayService<S>,
    key: Key,
    op: UserFromKey,
    statement: Statement<'a, T>,
    reply: Result<Option<AccountName>, StatementError>,
    r: Result<UserStanding, Error>,
)
    requires
        call_ensures(GatewayService::<S>::user_from_key, (&service, key), op),
        call_ensures(UserFromKey::statement::<T>, (&op,), statement),
        call_ensures(UserFromKey::account_found, (op, reply), r),
    ensures
        statement == (Statement::SelectAccountName::<T> { key: &key }),
        reply matches Ok(Some(name)) ==> r == Ok::<UserStanding, Error>(UserStanding { name, key }),
        reply == Ok::<Option<AccountName>, StatementError>(None) ==> r == Err::<
            UserStanding,
            Error,
        >(bare(ErrorKind::UserNotFound)),
        reply matches Err(err) ==> r == Err::<UserStanding, Error>(internal(err)),
{
}

/// A user is created with a key that was drawn for them, of 16 letters and
/// digits.
pub proof fn users_are_created_with_a_drawn_key<S>(
    service: GatewayService<S>,
    name: AccountName,
    op: CreateUser,
    fresh: Key,
)
    requires
        call_ensures(GatewayService::<S>::create_user, (&service, name), op),
        call_ensures(Key::new_random, (), fresh),
    ensures
        op.name == name,
        drawn(op.key.0, 16),
        alphanumeric_text(op.key.0@, 16),
        drawn(fresh.0, 16),
        alphanumeric_text(fresh.0@, 16),
{
}

/// Creating an account stores its name and its key. The user who is given back
/// has them, owns nothing and is no super user; that the name is taken is
/// reported for a primary key that exists, and for nothing else.
pub proof fn create_user_stores_name_and_key<'a, S, T>(
    service: GatewayService<S>,
    name: AccountName,
    key: Key,
    op: CreateUser,
    statement: Statement<'a, T>,
    reply: Result<(), StatementError>,
    r: Result<User, Error>,
)
    requires
        call_ensures(GatewayService::<S>::create_user_with_key, (&service, name, key), op),
        call_ensures(CreateUser::statement::<T>, (&op,), statement),
        call_ensures(CreateUser::finish, (op, reply), r),
    ensures
        statement == (Statement::InsertAccount::<T> { account_name: &name, key: &key }),
        reply is Ok ==> (r matches Ok(user) && user.name == name && user.key == key
            && user.projects@.len() == 0 && !user.super_user),
        reply matches Err(err) ==> r == Err::<User, Error>(
            if reports_primary_key(err) {
                bare(ErrorKind::UserAlreadyExists)
            } else {
                internal(err)
            },
        ),
{
}

/// A project is created with a key that was drawn for it, of 32 letters and
/// digits. Its first state says its name, the prefix that the gateway was started
/// with, and that key, and is both what is recorded and what is sent.
pub proof fn projects_are_created_with_a_drawn_key<'a, S, T>(
    service: GatewayService<S>,
    args: &'a Args,
    project_name: ProjectName,
    account_name: AccountName,
    op: CreateProject<T>,
)
    requires
        call_ensures(GatewayService::<S>::args, (&service,), args),
        call_ensures(
            GatewayService::<S>::create_project::<T>,
            (&service, project_name, account_name),
            op,
        ),
    ensures
        drawn(op.initial_key, 32),
        alphanumeric_text(op.initial_key@, 32),
        op.project@ == ProjectView::<T>::Creating(
            CreatingView {
                project_name: project_name.0@,
                prefix: args.prefix@,
                initial_key: op.initial_key@,
            },
        ),
        op.work.project_name == project_name,
        op.work.account_name == account_name,
        op.work.work == op.project,
{
}

/// A project that is created with a given key has that key, in its row and in
/// its first state.
pub proof fn projects_are_created_with_the_key_given<'a, S, T>(
    service: GatewayService<S>,
    args: &'a Args,
    project_name: ProjectName,
    account_name: AccountName,
    initial_key: String,
    op: CreateProject<T>,
    creating: ProjectCreating,
    name_told: &'a ProjectName,
    prefix_told: &'a str,
    key_told: &'a str,
)
    requires
        call_ensures(GatewayService::<S>::args, (&service,), args),
        call_ensures(
            GatewayService::<S>::create_project_with_key::<T>,
            (&service, project_name, account_name, initial_key),
            op,
        ),
        op.project == Project::<T>::Creating(creating),
        call_ensures(ProjectCreating::project_name, (&creating,), name_told),
        call_ensures(ProjectCreating::prefix, (&creating,), prefix_told),
        call_ensures(ProjectCreating::initial_key, (&creating,), key_told),
    ensures
        op.initial_key == initial_key,
        name_told.0@ == project_name.0@,
        prefix_told@ == args.prefix@,
        key_told@ == initial_key@,
        op.work.project_name == project_name,
        op.work.account_name == account_name,
        op.work.work == op.project,
{
}

/// Creating a project stores its names, its key and its first state, and then
/// sends it. It is given back only if it was recorded and sent: otherwise the
/// error is that the name is taken, for a primary key that exists, or the failure
/// of the database, or what came of sending.
pub proof fn create_project_records_and_sends<'a, T>(
    op: CreateProject<T>,
    statement: Statement<'a, T>,
    reply: Result<(), StatementError>,
    next: Result<(Work<T>, RecordedProject<T>), Error>,
    sent: Result<(), Error>,
    r: Result<Project<T>, Error>,
)
    requires
        call_ensures(CreateProject::<T>::statement, (&op,), statement),
        call_ensures(CreateProject::<T>::inserted, (op, reply), next),
        next matches Ok((_, recorded)) ==> call_ensures(
            RecordedProject::<T>::finish,
            (recorded, sent),
            r,
        ),
    ensures
        statement == (Statement::InsertProject {
            project_name: &op.work.project_name,
            account_name: &op.work.account_name,
            initial_key: &op.initial_key,
            project_state: &op.project,
        }),
        reply matches Err(err) ==> next == Err::<(Work<T>, RecordedProject<T>), Error>(
            if reports_primary_key(err) {
                bare(ErrorKind::ProjectAlreadyExists)
            } else {
                internal(err)
            },
        ),
        reply is Ok ==> {
            &&& next matches Ok((work, _)) && work == op.work
            &&& sent is Ok ==> r == Ok::<Project<T>, Error>(op.project)
            &&& sent matches Err(err) ==> r == Err::<Project<T>, Error>(err)
        },
{
}

/// Destroying a project looks up its state, hands that state over, and sends the
/// state made of it under the same name and for the same account. What fails on
/// the way is what the operation fails with.
pub proof fn destroy_project_sends_what_was_made<'a, S, T, E>(
    service: GatewayService<S>,
    project_name: ProjectName,
    account_name: AccountName,
    op: DestroyProject,
    statement: Statement<'a, T>,
    reply: Result<Option<Project<T>>, StatementError>,
    next: Result<(Project<T>, DestroyingProject), Error>,
    destroyed: Result<Project<T>, E>,
    r: Result<Work<T>, E>,
)
    requires
        call_ensures(
            GatewayService::<S>::destroy_project,
            (&service, project_name, account_name),
            op,
        ),
        call_ensures(DestroyProject::statement::<T>, (&op,), statement),
        call_ensures(DestroyProject::project_found::<T>, (op, reply), next),
        next matches Ok((_, destroying)) ==> call_ensures(
            DestroyingProject::destroyed::<T, E>,
            (destroying, destroyed),
            r,
        ),
    ensures
        statement == (Statement::SelectProjectState::<T> { project_name: &project_name }),
        reply matches Err(err) ==> next == Err::<(Project<T>, DestroyingProject), Error>(
            internal(err),
        ),
        reply == Ok::<Option<Project<T>>, StatementError>(None) ==> next == Err::<
            (Project<T>, DestroyingProject),
            Error,
        >(bare(ErrorKind::ProjectNotFound)),
        reply matches Ok(Some(project)) ==> {
            &&& next matches Ok((state, _)) && state == project
            &&& destroyed matches Ok(work) ==> r == Ok::<Work<T>, E>(
                Work { project_name, account_name, work },
            )
            &&& destroyed matches Err(err) ==> r == Err::<Work<T>, E>(err)
        },
{
}

/// A project that exists and tells an address can be routed to, at that address,
/// whatever it is. Not to have an address is not to be ready; what the state
/// fails with is passed on.
pub proof fn projects_with_an_address_are_routed_to<'a, S, T, E>(
    service: GatewayService<S>,
    project_name: &'a ProjectName,
    route: String,
    op: Route<'a>,
    first: Statement<'a, T>,
    state: Result<Option<Project<T>>, StatementError>,
    target: Result<(Project<T>, RouteTarget<'a>), Error>,
    target_ip: Result<Option<String>, E>,
    keyed: Result<RouteKey<'a>, Failure<E>>,
    second: Statement<'a, T>,
    control_key: Result<Option<String>, StatementError>,
    r: Result<RouteRequest, Error>,
)
    requires
        call_ensures(GatewayService::<S>::route, (&service, project_name, route), op),
        call_ensures(Route::<'a>::statement::<T>, (&op,), first),
        call_ensures(Route::<'a>::project_found::<T>, (op, state), target),
        target matches Ok((_, op)) ==> call_ensures(
            RouteTarget::<'a>::target_found::<E>,
            (op, target_ip),
            keyed,
        ),
        target is Ok ==> (keyed matches Ok(op) ==> {
            &&& call_ensures(RouteKey::<'a>::statement::<T>, (&op,), second)
            &&& call_ensures(RouteKey::<'a>::key_found, (op, control_key), r)
        }),
    ensures
        first == (Statement::SelectProjectState::<T> { project_name }),
        state matches Err(err) ==> target == Err::<(Project<T>, RouteTarget<'a>), Error>(
            internal(err),
        ),
        state == Ok::<Option<Project<T>>, StatementError>(None) ==> target == Err::<
            (Project<T>, RouteTarget<'a>),
            Error,
        >(bare(ErrorKind::ProjectNotFound)),
        state matches Ok(Some(project)) ==> {
            &&& target matches Ok((told, _)) && told == project
            &&& target_ip matches Err(err) ==> keyed == Err::<RouteKey<'a>, Failure<E>>(
                Failure::State(err),
            )
            &&& target_ip == Ok::<Option<String>, E>(None) ==> keyed == Err::<
                RouteKey<'a>,
                Failure<E>,
            >(Failure::Gateway(bare(ErrorKind::ProjectNotReady)))
            &&& target_ip matches Ok(Some(ip)) ==> {
                &&& keyed is Ok
                &&& second == (Statement::SelectInitialKey::<T> { project_name })
                &&& control_key matches Ok(Some(key)) ==> r == Ok::<RouteRequest, Error>(
                    RouteRequest { route, target_ip: ip, control_key: key },
                )
                &&& control_key == Ok::<Option<String>, StatementError>(None) ==> r == Err::<
                    RouteRequest,
                    Error,
                >(bare(ErrorKind::ProjectNotFound))
                &&& control_key matches Err(err) ==> r == Err::<RouteRequest, Error>(internal(err))
            }
        },
{
}

/// A route is put behind a `/`, unless it begins with one.
pub proof fn routes_are_made_absolute(route: String, r: String)
    requires
        call_ensures(make_absolute, (route,), r),
    ensures
        r@.len() > 0 && r@[0] == '/',
        route@.len() > 0 && route@[0] == '/' ==> r@ == route@,
        !(route@.len() > 0 && route@[0] == '/') ==> r@.drop_first() == route@,
{
    leading_slash_is_optional(route@);
}

/// A request can be passed on if and only if its route, once it begins with a
/// `/`, has at most 65534 bytes and no character out of its place.
pub proof fn requests_are_routable_by_their_route(request: RouteRequest, route: String, r: bool)
    requires
        call_ensures(make_absolute, (request.route,), route),
        call_ensures(RouteRequest::routable, (&request,), r),
    ensures
        r <==> encode_utf8(route@).len() <= 65534 && forall|i: int|
            0 <= i < before_fragment(route@).len() ==> #[trigger] stands(route@, i),
{
    routes_are_uris_by_their_characters(route@);
}

/// What a project answers is passed back; if it did not answer, it is
/// unavailable.
pub proof fn answers_are_passed_back<R, X>(forward: Forward, answer: Result<R, X>, r: Result<R, Error>)
    requires
        call_ensures(Forward::finish::<R, X>, (forward, answer), r),
    ensures
        answer matches Ok(response) ==> r == Ok::<R, Error>(response),
        answer is Err ==> r == Err::<R, Error>(bare(ErrorKind::ProjectUnavailable)),
{
}

/// Work is sent by the sender that is set, as it was given. Without one the error
/// is [`ErrorKind::NotReady`].
pub proof fn work_goes_to_the_sender_that_is_set<'s, S, T>(
    service: &'s GatewayService<S>,
    project_name: ProjectName,
    account_name: AccountName,
    work: Project<T>,
    r: Result<Delivery<'s, S, T>, Error>,
)
    requires
        call_ensures(
            GatewayService::<S>::send::<T>,
            (service, project_name, account_name, work),
            r,
        ),
    ensures
        service@.sender is None ==> r == Err::<Delivery<'s, S, T>, Error>(
            bare(ErrorKind::NotReady),
        ),
        service@.sender matches Some(sender) ==> (r matches Ok(delivery) && *delivery.sender
            == sender && delivery.work == (Work { project_name, account_name, work })),
{
}

/// The start takes each of its steps once and takes no other: the database is
/// created if and only if there is none, it is connected to, and the migrations
/// are applied, all of it at the path that the gateway was started with. The
/// service knows what it was started with and has no sender.
pub proof fn the_start_takes_each_step_once<'a, S>(
    args: Args,
    state_exists: bool,
    r: (GatewayService<S>, Vec<Startup>),
    told: &'a Args,
)
    requires
        call_ensures(GatewayService::<S>::init, (args, state_exists), r),
        call_ensures(GatewayService::<S>::args, (&r.0,), told),
    ensures
        r.0@.sender is None,
        *told == args,
        r.1@.no_duplicates(),
        r.1@.contains(Startup::CreateDatabase(args.state)) <==> !state_exists,
        r.1@.contains(Startup::Connect(args.state)),
        r.1@.contains(Startup::Migrate),
        forall|i: int|
            0 <= i < r.1@.len() ==> {
                ||| #[trigger] r.1@[i] == Startup::CreateDatabase(args.state)
                ||| r.1@[i] == Startup::Connect(args.state)
                ||| r.1@[i] == Startup::Migrate
            },
{
    let steps = r.1@;
    if state_exists {
        assert(steps[0] == Startup::Connect(args.state));
        assert(steps[1] == Startup::Migrate);
    } else {
        assert(steps[0] == Startup::CreateDatabase(args.state));
        assert(steps[1] == Startup::Connect(args.state));
        assert(steps[2] == Startup::Migrate);
    }
}

/// Every step of the start can be taken when its turn comes: the database is
/// there when it is connected to, and it is connected to when the migrations are
/// applied.
pub proof fn every_step_of_the_start_can_be_taken<S, T>(
    before: Storage<T>,
    args: Args,
    state_exists: bool,
    r: (GatewayService<S>, Vec<Startup>),
    i: int,
)
    requires
        call_ensures(GatewayService::<S>::init, (args, state_exists), r),
        state_exists ==> before.databases.contains_key(args.state@),
        0 <= i < r.1@.len(),
    ensures
        before.after_steps(r.1@.take(i)).can_take(r.1@[i]),
{
    reveal_with_fuel(Storage::after_steps, 4);
    let steps = r.1@;
    assert(steps.take(0) =~= Seq::empty());
    assert(steps.take(1) =~= seq![steps[0]]);
    assert(steps.take(1).drop_first() =~= Seq::empty());
    if i == 2 {
        assert(steps.take(2) =~= seq![steps[0], steps[1]]);
        assert(steps.take(2).drop_first() =~= seq![steps[1]]);
        assert(steps.take(2).drop_first().drop_first() =~= Seq::empty());
    }
}

/// A context hands out what it was made of, and the arguments of the service that
/// made it.
pub proof fn contexts_hand_out_their_parts<'c, S, D, H>(
    service: &'c GatewayService<S>,
    docker: &'c D,
    hyper: &'c H,
    args: &'c Args,
    context: GatewayContext<'c, D, H>,
    docker_told: &'c D,
    hyper_told: &'c H,
    args_told: &'c Args,
)
    requires
        call_ensures(GatewayService::<S>::args, (service,), args),
        call_ensures(GatewayService::<S>::context::<D, H>, (service, docker, hyper), context),
        call_ensures(GatewayContext::<'c, D, H>::docker, (&context,), docker_told),
        call_ensures(GatewayContext::<'c, D, H>::hyper, (&context,), hyper_told),
        call_ensures(GatewayContext::<'c, D, H>::args, (&context,), args_told),
    ensures
        *docker_told == *docker,
        *hyper_told == *hyper,
        *args_told == *args,
{
}

/// Refreshing begins with the projects given, takes them one after the other,
/// sends a refreshed state under the name and for the account of its project,
/// skips one that could not be refreshed, and ends when sending fails.
pub proof fn refreshing_goes_from_project_to_project<S, T, X>(
    service: GatewayService<S>,
    projects: Vec<Work<T>>,
    all: Refresh<T>,
    refresh: Refresh<T>,
    next: Option<(Project<T>, Refreshing<T>)>,
    state: Result<Project<T>, X>,
    refreshed: Refreshed<T>,
    sent: Result<(), Error>,
    rest: Result<Refresh<T>, Error>,
)
    requires
        call_ensures(GatewayService::<S>::refresh::<T>, (&service, projects), all),
        call_ensures(Refresh::<T>::next, (refresh,), next),
        next matches Some((_, op)) ==> call_ensures(
            Refreshing::<T>::refreshed::<X>,
            (op, state),
            refreshed,
        ),
        next is Some ==> (refreshed matches Refreshed::Submit(_, op) ==> call_ensures(
            Submitting::<T>::sent,
            (op, sent),
            rest,
        )),
    ensures
        all.pending() == projects@,
        next is None <==> refresh.pending().len() == 0,
        next matches Some((project, _)) ==> {
            let head = refresh.pending()[0];
            &&& project == head.work
            &&& state is Err ==> (refreshed matches Refreshed::Skip(others) && others.pending()
                == refresh.pending().drop_first())
            &&& state matches Ok(work) ==> {
                &&& refreshed matches Refreshed::Submit(submitted, _) && submitted == (Work {
                    project_name: head.project_name,
                    account_name: head.account_name,
                    work,
                })
                &&& sent is Ok ==> (rest matches Ok(others) && others.pending()
                    == refresh.pending().drop_first())
                &&& sent matches Err(err) ==> rest == Err::<Refresh<T>, Error>(err)
            }
        },
{
}

} // verus!
