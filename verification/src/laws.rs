//! What holds of the gateway's operations taken together.
//!
//! The laws about what the gateway remembers speak of a database that carries
//! out each statement, as [`Tables::answers`] says.
use vstd::prelude::*;
use vstd::utf8::encode_utf8;

use crate::error::{Error, ErrorKind, Failure, StatementError};
use crate::http::{base64_bytes, before_fragment, uri_accepts, uri_path_and_query};
use crate::lookup::{completed, found, super_user_outcome};
use crate::projects::{
    begins, destroy_project_outcome, recorded, CreateProject,
};
use crate::refresh::{refresh_outcome, submissions, Fate};
use crate::route::{absolute, authorized, control_url, route_outcome};
use crate::service::{fresh, send_outcome, sender_left, startup, Startup};
use crate::statement::Statement;
use crate::tables::{
    account_read, flag_read, key_read, names_read, state_read, text_read, works_read, written,
    Answer, Storage, Tables,
};
use crate::types::{
    names_view, works_view, AccountName, Args, CreatingView, Key, Project, ProjectName, ProjectView,
    UserView, Work,
};
use crate::users::{
    create_user_outcome, user_from_account_name_outcome, user_from_key_outcome,
};

verus! {

/// The list of the projects of an account that owns none is empty.
proof fn lemma_no_projects_listed<T>(
    tables: Tables<T>,
    owner: Seq<char>,
    names: Seq<Seq<char>>,
)
    requires
        tables.lists_projects_of(owner, names),
        forall|project: Seq<char>| #[trigger]
            tables.projects.contains_key(project) ==> tables.projects[project].account_name
                != owner,
    ensures
        names == Seq::<Seq<char>>::empty(),
{
    if names.len() > 0 {
        assert(names.contains(names[0]));
        assert(tables.projects.contains_key(names[0]));
    }
}

/// Starting the gateway connects it to the database at its path, with its tables
/// set up. Where there was one, its accounts and projects are as they were; where
/// there was none, there are no accounts and no projects. Other databases stay as
/// they are.
pub proof fn starting_keeps_what_is_there<T>(
    before: Storage<T>,
    args: Args,
    state_exists: bool,
)
    requires
        state_exists ==> before.databases.contains_key(args.state@),
    ensures
        ({
            let after = before.after_steps(startup(args.state, state_exists));
            let path = args.state@;
            &&& after.connected == Some(path)
            &&& after.databases.dom() == before.databases.dom().insert(path)
            &&& after.databases[path].set_up
            &&& after.databases[path].tables == if before.databases.contains_key(path) {
                before.databases[path].tables
            } else {
                Tables::empty()
            }
            &&& forall|other: Seq<char>|
                other != path && #[trigger] before.databases.contains_key(other)
                    ==> after.databases[other] == before.databases[other]
        }),
{
    reveal_with_fuel(Storage::after_steps, 4);
    let steps = startup(args.state, state_exists);
    let tail = seq![Startup::Connect(args.state), Startup::Migrate];
    let connecting = if state_exists {
        before
    } else {
        before.after_step(Startup::CreateDatabase(args.state))
    };
    if state_exists {
        assert(steps =~= tail);
    } else {
        assert(steps.drop_first() =~= tail);
    }
    assert(tail.drop_first() =~= seq![Startup::Migrate]);
    assert(seq![Startup::Migrate].drop_first() =~= Seq::empty());
    let after = before.after_steps(steps);
    assert(after == connecting.after_step(Startup::Connect(args.state)).after_step(
        Startup::Migrate,
    ));
    assert(after.databases.dom() =~= before.databases.dom().insert(args.state@));
}

/// Starting the gateway again on a database that an earlier service has left
/// changes nothing in it: its accounts and projects are found as they were. The
/// sender of the earlier service is not carried over: no work is sent until one
/// is set.
pub proof fn a_restart_keeps_the_data_and_not_the_sender<S, T>(
    before: Storage<T>,
    args: Args,
    state_exists: bool,
    accepted: bool,
)
    requires
        before.databases.contains_key(args.state@),
        before.databases[args.state@].set_up,
    ensures
        before.after_steps(startup(args.state, state_exists)).databases == before.databases,
        before.after_steps(startup(args.state, state_exists)).connected == Some(args.state@),
        fresh::<S>(args).args == args,
        send_outcome(fresh::<S>(args).sender, accepted) == Err::<(), Error>(
            Error::plain(ErrorKind::NotReady),
        ),
{
    starting_keeps_what_is_there(before, args, state_exists);
    let after = before.after_steps(startup(args.state, state_exists));
    assert(after.databases[args.state@] == before.databases[args.state@]);
    assert(after.databases =~= before.databases);
}

/// `statement` reads, and changes nothing.
pub open spec fn reads<'a, T>(statement: Statement<'a, T>) -> bool {
    match statement {
        Statement::SelectProjects => true,
        Statement::SelectProjectState { .. } => true,
        Statement::SelectKey { .. } => true,
        Statement::SelectAccountName { .. } => true,
        Statement::SelectInitialKey { .. } => true,
        Statement::SelectSuperUser { .. } => true,
        Statement::SelectUserProjects { .. } => true,
        _ => false,
    }
}

/// Lookups leave the tables alone, and so do passing on a request, destroying a
/// project and refreshing, which only look things up: what comes of them is
/// recorded by the worker.
pub proof fn lookups_change_nothing<'a, T>(
    before: Tables<T>,
    after: Tables<T>,
    statement: Statement<'a, T>,
    answer: Option<Answer<T>>,
)
    requires
        reads(statement),
        before.answers(statement, answer, after),
    ensures
        after == before,
{
}

/// Nothing is lost: whatever statement the database carries out, every account
/// keeps its key, and every project its owner and the key that it was created
/// with.
pub proof fn no_statement_loses_a_key<'a, T>(
    before: Tables<T>,
    after: Tables<T>,
    statement: Statement<'a, T>,
    answer: Option<Answer<T>>,
)
    requires
        before.answers(statement, answer, after),
    ensures
        forall|name: Seq<char>| #[trigger]
            before.accounts.contains_key(name) ==> {
                &&& after.accounts.contains_key(name)
                &&& after.accounts[name].key == before.accounts[name].key
            },
        forall|name: Seq<char>| #[trigger]
            before.projects.contains_key(name) ==> {
                &&& after.projects.contains_key(name)
                &&& after.projects[name].account_name == before.projects[name].account_name
                &&& after.projects[name].initial_key == before.projects[name].initial_key
            },
{
}

/// The two lookups of a key undo each other: the account that is found by a key
/// has that key, and the key of an account leads back to the account, as long as
/// no other account has it.
pub proof fn key_lookups_are_inverse<T>(
    tables: Tables<T>,
    key: Key,
    name: AccountName,
    found_name: Result<Option<AccountName>, StatementError>,
    found_key: Result<Option<Key>, StatementError>,
)
    requires
        tables.answers(
            Statement::SelectAccountName { key: &key },
            account_read(found_name),
            tables,
        ),
        tables.answers(
            Statement::SelectKey { account_name: &name },
            key_read(found_key),
            tables,
        ),
    ensures
        (found(found_name, ErrorKind::UserNotFound) matches Ok(account) && account@ == name@) ==> (
        found(found_key, ErrorKind::UserNotFound) matches Ok(k) && k@ == key@),
        (found(found_key, ErrorKind::UserNotFound) matches Ok(k) && k@ == key@) && (forall|
            other: Seq<char>,
        |
            other != name@ && #[trigger] tables.accounts.contains_key(other)
                ==> tables.accounts[other].key != key@) ==> (found(
            found_name,
            ErrorKind::UserNotFound,
        ) matches Ok(account) && account@ == name@),
{
}

/// A user who is found by key is the one who is found by the name of that
/// account. Only the order in which their projects are listed may differ.
pub proof fn user_lookups_agree<T>(
    tables: Tables<T>,
    key: Key,
    name: AccountName,
    found_name: Result<Option<AccountName>, StatementError>,
    found_key: Result<Option<Key>, StatementError>,
    super_user: Result<Option<bool>, StatementError>,
    projects: Result<Vec<ProjectName>, StatementError>,
    super_user_again: Result<Option<bool>, StatementError>,
    projects_again: Result<Vec<ProjectName>, StatementError>,
)
    requires
        tables.answers(
            Statement::SelectAccountName { key: &key },
            account_read(found_name),
            tables,
        ),
        found_name matches Ok(Some(account)) && account@ == name@,
        tables.answers(
            Statement::SelectSuperUser { account_name: &name },
            flag_read(super_user),
            tables,
        ),
        tables.answers(
            Statement::SelectUserProjects { account_name: &name },
            names_read(projects),
            tables,
        ),
        tables.answers(
            Statement::SelectKey { account_name: &name },
            key_read(found_key),
            tables,
        ),
        tables.answers(
            Statement::SelectSuperUser { account_name: &name },
            flag_read(super_user_again),
            tables,
        ),
        tables.answers(
            Statement::SelectUserProjects { account_name: &name },
            names_read(projects_again),
            tables,
        ),
    ensures
        user_from_key_outcome(key, found_name, super_user, projects) matches Ok(by_key)
            && user_from_account_name_outcome(
            name,
            found_key,
            super_user_again,
            projects_again,
        ) matches Ok(by_name) && {
            &&& by_key.name == by_name.name
            &&& by_key.key == by_name.key
            &&& by_key.super_user == by_name.super_user
            &&& by_key.projects.to_multiset() == by_name.projects.to_multiset()
        },
{
    let one = names_view(projects->Ok_0@);
    let other = names_view(projects_again->Ok_0@);
    assert forall|project: Seq<char>| one.contains(project) <==> other.contains(project) by {
        assert(one.contains(project) <==> (tables.projects.contains_key(project)
            && tables.projects[project].account_name == name@));
    }
    one.lemma_multiset_has_no_duplicates();
    other.lemma_multiset_has_no_duplicates();
    broadcast use vstd::seq_lib::group_to_multiset_ensures;

    assert(one.to_multiset() =~= other.to_multiset()) by {
        assert forall|project: Seq<char>|
            one.to_multiset().count(project) == other.to_multiset().count(project) by {
            assert(one.contains(project) <==> one.to_multiset().contains(project));
            assert(other.contains(project) <==> other.to_multiset().contains(project));
        }
    }
}

/// A user who is looked up by account name is what the tables hold: the key
/// and the standing of the account, and the projects it owns, each once.
pub proof fn user_from_account_name_tells_the_tables<T>(
    tables: Tables<T>,
    name: AccountName,
    key: Result<Option<Key>, StatementError>,
    super_user: Result<Option<bool>, StatementError>,
    projects: Result<Vec<ProjectName>, StatementError>,
)
    requires
        tables.answers(
            Statement::SelectKey { account_name: &name },
            key_read(key),
            tables,
        ),
        tables.answers(
            Statement::SelectSuperUser { account_name: &name },
            flag_read(super_user),
            tables,
        ),
        tables.answers(
            Statement::SelectUserProjects { account_name: &name },
            names_read(projects),
            tables,
        ),
    ensures
        match user_from_account_name_outcome(name, key, super_user, projects) {
            Ok(user) => {
                &&& tables.accounts.contains_key(name@)
                &&& user.name == name@
                &&& user.key == tables.accounts[name@].key
                &&& user.super_user == tables.accounts[name@].super_user
                &&& tables.lists_projects_of(name@, user.projects)
            },
            Err(err) => {
                &&& !tables.accounts.contains_key(name@)
                &&& err == Error::plain(ErrorKind::UserNotFound)
            },
        },
{
}

/// A user who is looked up by key has an account with that key, and is what
/// the tables hold of it.
pub proof fn user_from_key_tells_the_tables<T>(
    tables: Tables<T>,
    key: Key,
    account: Result<Option<AccountName>, StatementError>,
    super_user: Result<Option<bool>, StatementError>,
    projects: Result<Vec<ProjectName>, StatementError>,
)
    requires
        tables.answers(
            Statement::SelectAccountName { key: &key },
            account_read(account),
            tables,
        ),
        account matches Ok(Some(name)) ==> tables.answers(
            Statement::SelectSuperUser { account_name: &name },
            flag_read(super_user),
            tables,
        ) && tables.answers(
            Statement::SelectUserProjects { account_name: &name },
            names_read(projects),
            tables,
        ),
    ensures
        match user_from_key_outcome(key, account, super_user, projects) {
            Ok(user) => {
                &&& tables.accounts.contains_key(user.name)
                &&& tables.accounts[user.name].key == key@
                &&& user.key == key@
                &&& user.super_user == tables.accounts[user.name].super_user
                &&& tables.lists_projects_of(user.name, user.projects)
            },
            Err(err) => {
                &&& forall|name: Seq<char>| #[trigger]
                    tables.accounts.contains_key(name) ==> tables.accounts[name].key != key@
                &&& err == Error::plain(ErrorKind::UserNotFound)
            },
        },
{
}

/// An account that was created is found by its name, and is the user that was
/// given back on its creation: their key, no super user, and no projects, as
/// long as no project was there for its name.
pub proof fn created_user_is_found<T>(
    before: Tables<T>,
    after: Tables<T>,
    name: AccountName,
    key: Key,
    inserted: Result<(), StatementError>,
    found_key: Result<Option<Key>, StatementError>,
    super_user: Result<Option<bool>, StatementError>,
    projects: Result<Vec<ProjectName>, StatementError>,
)
    requires
        !before.accounts.contains_key(name@),
        forall|project: Seq<char>| #[trigger]
            before.projects.contains_key(project) ==> before.projects[project].account_name
                != name@,
        before.answers(
            Statement::InsertAccount { account_name: &name, key: &key },
            written(inserted),
            after,
        ),
        after.answers(
            Statement::SelectKey { account_name: &name },
            key_read(found_key),
            after,
        ),
        after.answers(
            Statement::SelectSuperUser { account_name: &name },
            flag_read(super_user),
            after,
        ),
        after.answers(
            Statement::SelectUserProjects { account_name: &name },
            names_read(projects),
            after,
        ),
    ensures
        create_user_outcome(name, key, inserted) is Ok,
        user_from_account_name_outcome(name, found_key, super_user, projects)
            == create_user_outcome(name, key, inserted),
        found(found_key, ErrorKind::UserNotFound) matches Ok(found_key) && found_key@ == key@,
        super_user_outcome(super_user) == Ok::<bool, Error>(false),
{
    user_from_account_name_tells_the_tables(after, name, found_key, super_user, projects);
    lemma_no_projects_listed(after, name@, names_view(projects->Ok_0@));
}

/// An account that was created is found by its key as well, as long as no other
/// account had that key.
pub proof fn created_user_is_found_by_key<T>(
    before: Tables<T>,
    after: Tables<T>,
    name: AccountName,
    key: Key,
    inserted: Result<(), StatementError>,
    account: Result<Option<AccountName>, StatementError>,
    super_user: Result<Option<bool>, StatementError>,
    projects: Result<Vec<ProjectName>, StatementError>,
)
    requires
        !before.accounts.contains_key(name@),
        forall|other: Seq<char>| #[trigger]
            before.accounts.contains_key(other) ==> before.accounts[other].key != key@,
        forall|project: Seq<char>| #[trigger]
            before.projects.contains_key(project) ==> before.projects[project].account_name
                != name@,
        before.answers(
            Statement::InsertAccount { account_name: &name, key: &key },
            written(inserted),
            after,
        ),
        after.answers(
            Statement::SelectAccountName { key: &key },
            account_read(account),
            after,
        ),
        account matches Ok(Some(name)) ==> after.answers(
            Statement::SelectSuperUser { account_name: &name },
            flag_read(super_user),
            after,
        ) && after.answers(
            Statement::SelectUserProjects { account_name: &name },
            names_read(projects),
            after,
        ),
    ensures
        create_user_outcome(name, key, inserted) is Ok,
        user_from_key_outcome(key, account, super_user, projects) == create_user_outcome(
            name,
            key,
            inserted,
        ),
{
    user_from_key_tells_the_tables(after, key, account, super_user, projects);
    assert(after.accounts.contains_key(name@) && after.accounts[name@].key == key@);
    let found_name = account->Ok_0->Some_0;
    assert(found_name@ == name@) by {
        assert(after.accounts.contains_key(found_name@));
        if found_name@ != name@ {
            assert(before.accounts.contains_key(found_name@));
        }
    }
    lemma_no_projects_listed(after, name@, names_view(projects->Ok_0@));
}

/// An account name is given out once: creating an account under the name of
/// another fails as such, whatever its key, and changes nothing.
pub proof fn account_names_are_unique<T>(
    before: Tables<T>,
    after: Tables<T>,
    name: AccountName,
    key: Key,
    inserted: Result<(), StatementError>,
)
    requires
        before.answers(
            Statement::InsertAccount { account_name: &name, key: &key },
            written(inserted),
            after,
        ),
    ensures
        before.accounts.contains_key(name@) <==> create_user_outcome(name, key, inserted) == Err::<
            UserView,
            Error,
        >(Error::plain(ErrorKind::UserAlreadyExists)),
        before.accounts.contains_key(name@) ==> after == before,
        !before.accounts.contains_key(name@) <==> create_user_outcome(name, key, inserted) is Ok,
{
}

/// Creating an account leaves the projects and the other accounts alone.
pub proof fn creating_a_user_changes_one_account<T>(
    before: Tables<T>,
    after: Tables<T>,
    name: AccountName,
    key: Key,
    inserted: Result<(), StatementError>,
)
    requires
        before.answers(
            Statement::InsertAccount { account_name: &name, key: &key },
            written(inserted),
            after,
        ),
    ensures
        after.projects == before.projects,
        after.accounts.dom() == before.accounts.dom().insert(name@),
        forall|other: Seq<char>|
            other != name@ && #[trigger] before.accounts.contains_key(other)
                ==> after.accounts[other] == before.accounts[other],
{
    assert(after.accounts.dom() =~= before.accounts.dom().insert(name@));
}

/// Whether an account is a super user is what was set last. An account that
/// does not exist is none, and setting it has no effect.
pub proof fn super_user_is_what_was_set<T>(
    before: Tables<T>,
    after: Tables<T>,
    name: AccountName,
    value: bool,
    updated: Result<(), StatementError>,
    super_user: Result<Option<bool>, StatementError>,
)
    requires
        before.answers(
            Statement::UpdateSuperUser { super_user: value, account_name: &name },
            written(updated),
            after,
        ),
        after.answers(
            Statement::SelectSuperUser { account_name: &name },
            flag_read(super_user),
            after,
        ),
    ensures
        completed(updated) == Ok::<(), Error>(()),
        super_user_outcome(super_user) == Ok::<bool, Error>(
            before.accounts.contains_key(name@) && value,
        ),
        !before.accounts.contains_key(name@) ==> after == before,
        after.projects == before.projects,
        after.accounts.dom() == before.accounts.dom(),
        forall|other: Seq<char>| #[trigger]
            before.accounts.contains_key(other) ==> {
                &&& after.accounts[other].key == before.accounts[other].key
                &&& other != name@ ==> after.accounts[other] == before.accounts[other]
            },
{
    assert(after.accounts.dom() =~= before.accounts.dom());
}

/// A project that was created is found, in the state that was recorded and
/// sent to the worker: its first, under its name and with its key. The key by
/// which the gateway identifies itself to the project is that key. All of that
/// holds as well if no worker took the project.
pub proof fn created_project_is_found<T>(
    before: Tables<T>,
    after: Tables<T>,
    creation: CreateProject<T>,
    project_name: ProjectName,
    account_name: AccountName,
    prefix: String,
    inserted: Result<(), StatementError>,
    state: Result<Option<Project<T>>, StatementError>,
    control_key: Result<Option<String>, StatementError>,
    projects: Result<Vec<ProjectName>, StatementError>,
)
    requires
        begins(creation, project_name, account_name, prefix),
        !before.projects.contains_key(project_name@),
        before.answers(
            Statement::InsertProject {
                project_name: &creation.work.project_name,
                account_name: &creation.work.account_name,
                initial_key: &creation.initial_key,
                project_state: &creation.project,
            },
            written(inserted),
            after,
        ),
        after.answers(
            Statement::SelectProjectState { project_name: &project_name },
            state_read(state),
            after,
        ),
        after.answers(
            Statement::SelectInitialKey { project_name: &project_name },
            text_read(control_key),
            after,
        ),
        after.answers(
            Statement::SelectUserProjects { account_name: &account_name },
            names_read(projects),
            after,
        ),
    ensures
        recorded(inserted) is Ok,
        creation.outcome(inserted, Ok(())) == Ok::<Project<T>, Error>(creation.project),
        found(state, ErrorKind::ProjectNotFound) matches Ok(project) && project@
            == creation.project@,
        creation.work.work == creation.project,
        creation.work.project_name == project_name,
        creation.work.account_name == account_name,
        found(control_key, ErrorKind::ProjectNotFound) matches Ok(key) && key@
            == creation.initial_key@,
        (found(control_key, ErrorKind::ProjectNotFound) matches Ok(key) && found(
            state,
            ErrorKind::ProjectNotFound,
        ) matches Ok(project) && project@ == ProjectView::<T>::Creating(
            CreatingView {
                project_name: project_name@,
                prefix: prefix@,
                initial_key: key@,
            },
        )),
        completed(projects) matches Ok(names) && names_view(names@).contains(project_name@),
{
    assert(after.projects.contains_key(project_name@));
}

/// A project name is given out once, to one account: creating a project under
/// the name of another fails as such, whoever asks, and changes nothing. Nothing
/// is sent then.
pub proof fn project_names_are_unique<T>(
    before: Tables<T>,
    after: Tables<T>,
    creation: CreateProject<T>,
    inserted: Result<(), StatementError>,
    sent: Result<(), Error>,
)
    requires
        before.answers(
            Statement::InsertProject {
                project_name: &creation.work.project_name,
                account_name: &creation.work.account_name,
                initial_key: &creation.initial_key,
                project_state: &creation.project,
            },
            written(inserted),
            after,
        ),
    ensures
        before.projects.contains_key(creation.work.project_name@) <==> recorded(inserted) == Err::<
            (),
            Error,
        >(Error::plain(ErrorKind::ProjectAlreadyExists)),
        before.projects.contains_key(creation.work.project_name@) ==> after == before
            && creation.outcome(inserted, sent) == Err::<Project<T>, Error>(
            Error::plain(ErrorKind::ProjectAlreadyExists),
        ),
        !before.projects.contains_key(creation.work.project_name@) <==> recorded(inserted) is Ok,
{
}

/// Creating a project leaves the accounts and the other projects alone.
pub proof fn creating_a_project_changes_one_project<T>(
    before: Tables<T>,
    after: Tables<T>,
    creation: CreateProject<T>,
    inserted: Result<(), StatementError>,
)
    requires
        before.answers(
            Statement::InsertProject {
                project_name: &creation.work.project_name,
                account_name: &creation.work.account_name,
                initial_key: &creation.initial_key,
                project_state: &creation.project,
            },
            written(inserted),
            after,
        ),
    ensures
        after.accounts == before.accounts,
        after.projects.dom() == before.projects.dom().insert(creation.work.project_name@),
        forall|other: Seq<char>|
            other != creation.work.project_name@ && #[trigger] before.projects.contains_key(other)
                ==> after.projects[other] == before.projects[other],
{
    assert(after.projects.dom() =~= before.projects.dom().insert(creation.work.project_name@));
}

/// A state that was recorded for a project is the state that is found. It keeps
/// its owner and its key, and the other projects and the accounts stay as they
/// are. A project that does not exist is not made by recording a state for it.
pub proof fn updated_project_is_found<T>(
    before: Tables<T>,
    after: Tables<T>,
    project_name: ProjectName,
    project: Project<T>,
    updated: Result<(), StatementError>,
    state: Result<Option<Project<T>>, StatementError>,
)
    requires
        before.answers(
            Statement::UpdateProjectState { project_state: &project, project_name: &project_name },
            written(updated),
            after,
        ),
        after.answers(
            Statement::SelectProjectState { project_name: &project_name },
            state_read(state),
            after,
        ),
    ensures
        completed(updated) == Ok::<(), Error>(()),
        match found(state, ErrorKind::ProjectNotFound) {
            Ok(found_project) => before.projects.contains_key(project_name@) && found_project@
                == project@,
            Err(err) => {
                &&& !before.projects.contains_key(project_name@)
                &&& err == Error::plain(ErrorKind::ProjectNotFound)
                &&& after == before
            },
        },
        after.accounts == before.accounts,
        after.projects.dom() == before.projects.dom(),
        forall|other: Seq<char>| #[trigger]
            before.projects.contains_key(other) ==> {
                &&& after.projects[other].account_name == before.projects[other].account_name
                &&& after.projects[other].initial_key == before.projects[other].initial_key
                &&& other != project_name@ ==> after.projects[other] == before.projects[other]
            },
{
    assert(after.projects.dom() =~= before.projects.dom());
}

/// Destroying a project that does not exist fails as such, whatever would have
/// come after. Destroying one that does comes to what its last steps come to.
pub proof fn only_projects_are_destroyed<T, E>(
    tables: Tables<T>,
    project_name: ProjectName,
    state: Result<Option<Project<T>>, StatementError>,
    destroyed: Result<Project<T>, E>,
    sent: Result<(), Error>,
)
    requires
        tables.answers(
            Statement::SelectProjectState { project_name: &project_name },
            state_read(state),
            tables,
        ),
    ensures
        destroy_project_outcome(state, destroyed, sent) == if !tables.projects.contains_key(
            project_name@,
        ) {
            Err::<(), Failure<E>>(
                Failure::Gateway(Error { kind: ErrorKind::ProjectNotFound, source: None }),
            )
        } else {
            match (destroyed, sent) {
                (Err(err), _) => Err(Failure::State(err)),
                (Ok(_), Err(err)) => Err(Failure::Gateway(err)),
                (Ok(_), Ok(())) => Ok(()),
            }
        },
{
}

/// A request is passed on to a project if and only if the project exists and
/// tells an address, whatever the address: to that address, and with the key that
/// the project was created with. Not to tell one is not to be ready.
pub proof fn requests_carry_the_projects_key<T, E>(
    tables: Tables<T>,
    project_name: ProjectName,
    state: Result<Option<Project<T>>, StatementError>,
    target_ip: Result<Option<String>, E>,
    control_key: Result<Option<String>, StatementError>,
)
    requires
        tables.answers(
            Statement::SelectProjectState { project_name: &project_name },
            state_read(state),
            tables,
        ),
        tables.answers(
            Statement::SelectInitialKey { project_name: &project_name },
            text_read(control_key),
            tables,
        ),
    ensures
        !tables.projects.contains_key(project_name@) ==> route_outcome(
            state,
            target_ip,
            control_key,
        ) == Err::<(String, String), Failure<E>>(
            Failure::Gateway(Error { kind: ErrorKind::ProjectNotFound, source: None }),
        ),
        tables.projects.contains_key(project_name@) ==> match target_ip {
            Ok(Some(ip)) => route_outcome(state, target_ip, control_key) matches Ok((to, key))
                && to == ip && key@ == tables.projects[project_name@].initial_key,
            Ok(None) => route_outcome(state, target_ip, control_key) == Err::<
                (String, String),
                Failure<E>,
            >(Failure::Gateway(Error { kind: ErrorKind::ProjectNotReady, source: None })),
            Err(err) => route_outcome(state, target_ip, control_key) == Err::<
                (String, String),
                Failure<E>,
            >(Failure::State(err)),
        },
{
}

/// It makes no difference whether a route is given with the `/` in front or
/// without, and every route ends up with one, and otherwise as it was.
pub proof fn leading_slash_is_optional(route: Seq<char>)
    ensures
        absolute(route).len() > 0,
        absolute(route)[0] == '/',
        absolute(absolute(route)) == absolute(route),
        route.len() > 0 && route[0] == '/' ==> absolute(route) == route,
        !(route.len() > 0 && route[0] == '/') ==> absolute(route).drop_first() == route,
        !(route.len() > 0 && route[0] == '/') ==> absolute(route) == absolute(seq!['/'] + route),
{
}

/// The address that a project is routed to stands in its URL as it is, behind the
/// scheme and in front of the port.
pub proof fn requests_go_to_the_address(target_ip: Seq<char>)
    ensures
        control_url(target_ip).len() == target_ip.len() + 12,
        control_url(target_ip).take(7) == "http://"@,
        control_url(target_ip).subrange(7, 7 + target_ip.len() as int) == target_ip,
        control_url(target_ip).skip(7 + target_ip.len() as int) == ":8001"@,
{
    reveal_strlit("http://");
    reveal_strlit(":8001");
}

/// A project gets one value of credentials: the word `Basic`, a space, and its key
/// and a colon in base64.
pub proof fn credentials_are_the_projects_key(
    entries: Map<Seq<char>, Seq<Seq<u8>>>,
    control_key: Seq<char>,
)
    ensures
        authorized(entries, control_key).contains_key("authorization"@),
        authorized(entries, control_key)["authorization"@] == seq![
            encode_utf8("Basic "@) + base64_bytes(encode_utf8(control_key.push(':'))),
        ],
{
    reveal_strlit("");
    assert(control_key + seq![':'] + ""@ =~= control_key.push(':'));
}

/// What is in front of the first `#` is kept as it is, and nothing else is.
pub proof fn the_fragment_is_cut(text: Seq<char>)
    ensures
        before_fragment(text).len() <= text.len(),
        before_fragment(text) == text.take(before_fragment(text).len() as int),
        !before_fragment(text).contains('#'),
        before_fragment(text).len() < text.len() ==> text[before_fragment(text).len() as int]
            == '#',
    decreases text.len(),
{
    if text.len() > 0 && text[0] != '#' {
        let rest = text.drop_first();
        the_fragment_is_cut(rest);
        let kept = before_fragment(text);
        assert(kept == seq![text[0]] + before_fragment(rest));
        assert(kept =~= text.take(kept.len() as int));
        assert(!kept.contains('#')) by {
            if kept.contains('#') {
                let i = kept.index_of('#');
                assert(before_fragment(rest)[i - 1] == '#');
            }
        }
    }
}

/// `c` may stand in the path of a URI.
pub open spec fn path_allows(c: char) -> bool {
    ||| '$' <= c <= ';'
    ||| '@' <= c <= '_'
    ||| 'a' <= c <= 'z'
    ||| c == '!' || c == '=' || c == '|' || c == '~' || c == '"' || c == '{' || c == '}'
}

/// `c` may stand in the query of a URI.
pub open spec fn query_allows(c: char) -> bool {
    ||| '$' <= c <= ';'
    ||| '?' <= c <= '~'
    ||| c == '!' || c == '='
}

/// The character at `i` may stand there: behind a `?` it belongs to the query,
/// in front of the first one to the path.
pub open spec fn stands(text: Seq<char>, i: int) -> bool {
    if text.take(i).contains('?') {
        query_allows(text[i])
    } else {
        text[i] == '?' || path_allows(text[i])
    }
}

proof fn lemma_each_character_stands(text: Seq<char>)
    ensures
        uri_path_and_query(text) <==> forall|i: int|
            0 <= i < before_fragment(text).len() ==> #[trigger] stands(text, i),
    decreases text.len(),
{
    the_fragment_is_cut(text);
    if text.len() > 0 && text[0] != '#' {
        let rest = text.drop_first();
        lemma_each_character_stands(rest);
        the_fragment_is_cut(rest);
        let kept = before_fragment(text);
        assert(kept == seq![text[0]] + before_fragment(rest));
        assert(!text.take(0).contains('?'));
        assert(stands(text, 0) <==> text[0] == '?' || path_allows(text[0]));
        if text[0] == '?' {
            assert forall|j: int| 0 <= j < before_fragment(rest).len() implies stands(text, j + 1)
                == query_allows(#[trigger] before_fragment(rest)[j]) by {
                assert(text.take(j + 1)[0] == '?');
            }
            if uri_path_and_query(text) {
                assert forall|i: int| 0 <= i < kept.len() implies #[trigger] stands(text, i) by {
                    if i > 0 {
                        assert(query_allows(before_fragment(rest)[i - 1]));
                    }
                }
            }
        } else {
            assert forall|j: int| 0 <= j < before_fragment(rest).len() implies stands(text, j + 1)
                == #[trigger] stands(rest, j) by {
                if rest.take(j).contains('?') {
                    let k = rest.take(j).index_of('?');
                    assert(text.take(j + 1)[k + 1] == '?');
                }
                if text.take(j + 1).contains('?') {
                    let k = text.take(j + 1).index_of('?');
                    assert(rest.take(j)[k - 1] == '?');
                }
            }
            if uri_path_and_query(text) {
                assert forall|i: int| 0 <= i < kept.len() implies #[trigger] stands(text, i) by {
                    if i > 0 {
                        assert(stands(rest, i - 1));
                    }
                }
            }
            if forall|i: int| 0 <= i < kept.len() ==> #[trigger] stands(text, i) {
                assert(stands(text, 0));
                assert forall|j: int| 0 <= j < before_fragment(rest).len() implies #[trigger] stands(
                    rest,
                    j,
                ) by {
                    assert(stands(text, j + 1));
                }
            }
        }
    }
}

/// A route is a URI if it has at most 65534 bytes and each of its characters, up to
/// the fragment, may stand where it does, and only then.
pub proof fn routes_are_uris_by_their_characters(text: Seq<char>)
    ensures
        uri_accepts(text) <==> encode_utf8(text).len() <= 65534 && forall|i: int|
            0 <= i < before_fragment(text).len() ==> #[trigger] stands(text, i),
{
    lemma_each_character_stands(text);
}

/// Credentials that come with a request do not reach the project, and the other
/// headers do.
pub proof fn credentials_are_replaced(
    entries: Map<Seq<char>, Seq<Seq<u8>>>,
    others: Map<Seq<char>, Seq<Seq<u8>>>,
    control_key: Seq<char>,
)
    requires
        entries.remove("authorization"@) == others.remove("authorization"@),
    ensures
        authorized(entries, control_key) == authorized(others, control_key),
        forall|name: Seq<char>|
            name != "authorization"@ ==> (#[trigger] authorized(entries, control_key).contains_key(
                name,
            ) <==> entries.contains_key(name)),
        forall|name: Seq<char>|
            name != "authorization"@ && entries.contains_key(name) ==> #[trigger] authorized(
                entries,
                control_key,
            )[name] == entries[name],
{
    let a = authorized(entries, control_key);
    let b = authorized(others, control_key);
    assert forall|name: Seq<char>| a.contains_key(name) <==> b.contains_key(name) by {
        if name != "authorization"@ {
            assert(entries.remove("authorization"@).contains_key(name) <==> entries.contains_key(
                name,
            ));
            assert(others.remove("authorization"@).contains_key(name) <==> others.contains_key(
                name,
            ));
        }
    }
    assert forall|name: Seq<char>| a.contains_key(name) implies a[name] == b[name] by {
        if name != "authorization"@ {
            assert(entries.remove("authorization"@)[name] == entries[name]);
            assert(others.remove("authorization"@)[name] == others[name]);
        }
    }
    assert(a =~= b);
}

/// The sender that is left after a row of attempts to send work, by whether the
/// channel took each.
pub open spec fn sender_after<S>(sender: Option<S>, accepted: Seq<bool>) -> Option<S>
    decreases accepted.len(),
{
    if accepted.len() == 0 {
        sender
    } else {
        sender_after(sender_left(sender, accepted[0]), accepted.drop_first())
    }
}

/// Sending succeeds if there is a sender and its channel takes the work, and only
/// then; otherwise no worker is ready. The sender stays if the channel takes the
/// work, and is given up if not.
pub proof fn work_is_taken_or_refused<S>(sender: Option<S>, accepted: bool)
    ensures
        send_outcome(sender, accepted) is Ok <==> sender is Some && accepted,
        send_outcome(sender, accepted) matches Err(err) ==> err == (Error {
            kind: ErrorKind::NotReady,
            source: None,
        }),
        accepted ==> sender_left(sender, accepted) == sender,
        !accepted ==> sender_left(sender, accepted) is None,
{
}

/// Without a sender, or once a channel has refused work, no work is sent any
/// more: every attempt fails with [`ErrorKind::NotReady`], and there is no
/// sender until another is set.
pub proof fn no_work_is_sent_without_a_worker<S>(
    sender: Option<S>,
    accepted: Seq<bool>,
    refused: int,
    later: bool,
)
    requires
        sender is None || (0 <= refused < accepted.len() && !accepted[refused]),
    ensures
        sender_after(sender, accepted) is None,
        send_outcome(sender_after(sender, accepted), later) == Err::<(), Error>(
            Error::plain(ErrorKind::NotReady),
        ),
    decreases accepted.len(),
{
    if accepted.len() > 0 {
        let rest = accepted.drop_first();
        if sender is Some && accepted[0] {
            assert(rest[refused - 1] == accepted[refused]);
        }
        no_work_is_sent_without_a_worker(sender_left(sender, accepted[0]), rest, refused - 1, later);
    }
}

/// As long as the channel takes work, the sender stays, and every attempt
/// succeeds.
pub proof fn an_open_channel_stays_in_use<S>(sender: S, accepted: Seq<bool>)
    requires
        forall|i: int| 0 <= i < accepted.len() ==> accepted[i],
    ensures
        sender_after(Some(sender), accepted) == Some(sender),
        send_outcome(sender_after(Some(sender), accepted), true) == Ok::<(), Error>(()),
    decreases accepted.len(),
{
    if accepted.len() > 0 {
        assert(accepted[0]);
        assert forall|i: int|
            0 <= i < accepted.drop_first().len() implies accepted.drop_first()[i] by {
            assert(accepted[i + 1]);
        }
        an_open_channel_stays_in_use(sender, accepted.drop_first());
    }
}

/// A project that was refreshed and could not be sent.
pub open spec fn stops_refresh<T>(fate: Fate<T>) -> bool {
    fate is Refreshed && fate->sent is Err
}

/// Refreshing succeeds if every project that could be refreshed could be sent
/// to the worker: that some could not be refreshed does not matter.
pub proof fn refresh_tolerates_unrefreshed_projects<T>(fates: Seq<Fate<T>>)
    requires
        forall|i: int| 0 <= i < fates.len() ==> !stops_refresh(#[trigger] fates[i]),
    ensures
        refresh_outcome(fates) == Ok::<(), Error>(()),
    decreases fates.len(),
{
    if fates.len() > 0 {
        assert(!stops_refresh(fates[0]));
        refresh_tolerates_unrefreshed_projects(fates.drop_first());
    }
}

/// The first project that cannot be sent to the worker ends refreshing, with
/// the error that sending it gave. What was sent until then is sent, and
/// nothing is sent after it.
pub proof fn refresh_ends_with_the_first_failure_to_send<T>(
    works: Seq<Work<T>>,
    fates: Seq<Fate<T>>,
    i: int,
)
    requires
        works.len() == fates.len(),
        0 <= i < fates.len(),
        stops_refresh(fates[i]),
        forall|j: int| 0 <= j < i ==> !stops_refresh(#[trigger] fates[j]),
    ensures
        refresh_outcome(fates) == Err::<(), Error>(fates[i]->sent->Err_0),
        submissions(works, fates) == submissions(works.take(i), fates.take(i)).push(
            Work { work: fates[i]->state, ..works[i] },
        ),
    decreases fates.len(),
{
    let rest_works = works.drop_first();
    let rest_fates = fates.drop_first();
    if i == 0 {
        assert(submissions(works, fates) =~= Seq::<Work<T>>::empty().push(
            Work { work: fates[0]->state, ..works[0] },
        ));
    } else {
        assert(!stops_refresh(fates[0]));
        assert forall|j: int| 0 <= j < i - 1 implies !stops_refresh(#[trigger] rest_fates[j]) by {
            assert(!stops_refresh(fates[j + 1]));
        }
        refresh_ends_with_the_first_failure_to_send(rest_works, rest_fates, i - 1);
        assert(works.take(i).drop_first() =~= rest_works.take(i - 1));
        assert(fates.take(i).drop_first() =~= rest_fates.take(i - 1));
        assert(submissions(works, fates) =~= submissions(works.take(i), fates.take(i)).push(
            Work { work: fates[i]->state, ..works[i] },
        ));
    }
}

/// `picked` are the indices of the projects that could be refreshed, all of them,
/// in order.
pub open spec fn picks_refreshed<T>(picked: Seq<int>, fates: Seq<Fate<T>>) -> bool {
    &&& forall|k: int, l: int| 0 <= k < l < picked.len() ==> picked[k] < picked[l]
    &&& forall|i: int| #[trigger]
        picked.contains(i) <==> (0 <= i < fates.len() && fates[i] is Refreshed)
}

/// If refreshing succeeds, every project that could be refreshed was sent to
/// the worker, once and in its turn, in its refreshed state, under its own name
/// and for its own account, and nothing else was sent. The indices of those
/// projects are the result.
pub proof fn refresh_submits_all_refreshed<T>(works: Seq<Work<T>>, fates: Seq<Fate<T>>) -> (picked:
    Seq<int>)
    requires
        works.len() == fates.len(),
        refresh_outcome(fates) is Ok,
    ensures
        picks_refreshed(picked, fates),
        submissions(works, fates) == picked.map_values(
            |i: int| Work { work: fates[i]->state, ..works[i] },
        ),
    decreases works.len(),
{
    let sent = |i: int| Work { work: fates[i]->state, ..works[i] };
    if works.len() == 0 {
        let picked = Seq::<int>::empty();
        assert(submissions(works, fates) =~= picked.map_values(sent));
        picked
    } else {
        let rest_works = works.drop_first();
        let rest_fates = fates.drop_first();
        let rest = refresh_submits_all_refreshed(rest_works, rest_fates);
        let head: Seq<int> = if fates[0] is Refreshed {
            seq![0]
        } else {
            Seq::empty()
        };
        let picked = head + rest.map_values(|i: int| i + 1);
        assert forall|k: int| 0 <= k < rest.len() implies 0 <= #[trigger] rest[k]
            < rest_fates.len() by {
            assert(rest.contains(rest[k]));
        }
        assert forall|i: int| #[trigger]
            picked.contains(i) <==> (0 <= i < fates.len() && fates[i] is Refreshed) by {
            if picked.contains(i) {
                let k = picked.index_of(i);
                if k >= head.len() {
                    let l = k - head.len();
                    assert(rest.contains(rest[l]));
                    assert(rest_fates[rest[l]] == fates[i]);
                }
            }
            if 0 <= i < fates.len() && fates[i] is Refreshed {
                if i == 0 {
                    assert(picked[0] == 0);
                } else {
                    assert(rest_fates[i - 1] == fates[i]);
                    assert(rest.contains(i - 1));
                    let l = rest.index_of(i - 1);
                    assert(picked[head.len() + l] == i);
                }
            }
        }
        assert(submissions(works, fates) =~= picked.map_values(sent)) by {
            let rest_sent = |i: int| Work { work: rest_fates[i]->state, ..rest_works[i] };
            assert(submissions(rest_works, rest_fates) == rest.map_values(rest_sent));
        }
        picked
    }
}

/// Refreshing goes through all projects: the projects that it starts from are
/// those that the tables hold, each once, with their owner and in the state
/// that is recorded.
pub proof fn refresh_starts_from_all_projects<T>(
    tables: Tables<T>,
    listed: Result<Vec<Work<T>>, StatementError>,
    name: Seq<char>,
)
    requires
        tables.answers(Statement::SelectProjects, works_read(listed), tables),
    ensures
        completed(listed) matches Ok(works) && (tables.projects.contains_key(name) <==> exists|
            i: int,
        |
            0 <= i < works@.len() && {
                &&& (#[trigger] works@[i])@.project_name == name
                &&& works@[i]@.account_name == tables.projects[name].account_name
                &&& works@[i]@.work == tables.projects[name].state
            }),
        completed(listed) matches Ok(works) && forall|i: int, j: int|
            0 <= i < j < works@.len() ==> (#[trigger] works@[i])@.project_name != (
            #[trigger] works@[j])@.project_name,
{
    let works = listed->Ok_0@;
    let views = works_view(works);
    assert(forall|i: int| 0 <= i < works.len() ==> #[trigger] views[i] == works[i]@);
    if tables.projects.contains_key(name) {
        let i = choose|i: int| 0 <= i < views.len() && (#[trigger] views[i]).project_name == name;
        assert(works[i]@ == views[i]);
    }
    assert forall|i: int, j: int| 0 <= i < j < works.len() implies (#[trigger] works[i])@.project_name
        != (#[trigger] works[j])@.project_name by {
        assert(views[i].project_name != views[j].project_name);
    }
    assert forall|i: int|
        0 <= i < works.len() && (
        #[trigger] works[i])@.project_name == name implies tables.projects.contains_key(name) by {
        assert(views[i] == works[i]@);
    }
}

} // verus!
