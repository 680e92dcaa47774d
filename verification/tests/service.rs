//! The operations of the gateway against a real database and a real channel.
use std::borrow::Cow;

use gateway::error::{Error, ErrorKind, Failure, StatementError};
use gateway::refresh::Refreshed;
use gateway::route::RouteRequest;
use gateway::service::{GatewayService, Startup};
use gateway::statement::{migrations, Binding, Statement};
use gateway::types::{
    AccountName, Args, Key, Project, ProjectCreating, ProjectName, User, Work,
};
use serde_json::Value;
use sqlx::migrate::{MigrateDatabase, MigrateError, Migration, MigrationType, Migrator};
use sqlx::sqlite::{Sqlite, SqliteArguments, SqlitePool, SqlitePoolOptions, SqliteRow};
use sqlx::Row;
use tokio::runtime::{Builder, Runtime};
use tokio::sync::mpsc::{channel, Receiver, Sender};

/// The later states of a project, as far as these tests need them.
#[derive(Clone, Debug, PartialEq, Eq)]
enum State {
    Ready(String),
    Stuck,
    Destroyed,
}

fn project_to_json(project: &Project<State>) -> String {
    let mut object = serde_json::Map::new();
    match project {
        Project::Creating(creating) => {
            object.insert("name".to_string(), Value::from(creating.project_name().0.as_str()));
            object.insert("prefix".to_string(), Value::from(creating.prefix()));
            object.insert("key".to_string(), Value::from(creating.initial_key()));
        }
        Project::Advanced(State::Ready(ip)) => {
            object.insert("ip".to_string(), Value::from(ip.as_str()));
        }
        Project::Advanced(State::Stuck) => {
            object.insert("stuck".to_string(), Value::from(true));
        }
        Project::Advanced(State::Destroyed) => {}
    }
    Value::Object(object).to_string()
}

fn project_from_json(text: &str) -> Project<State> {
    let value: Value = serde_json::from_str(text).unwrap();
    let field = |name: &str| value[name].as_str().map(|s| s.to_string());
    if let Some(name) = field("name") {
        Project::Creating(ProjectCreating::new(
            ProjectName(name),
            field("prefix").unwrap(),
            field("key").unwrap(),
        ))
    } else if let Some(ip) = field("ip") {
        Project::Advanced(State::Ready(ip))
    } else if value["stuck"] == Value::from(true) {
        Project::Advanced(State::Stuck)
    } else {
        Project::Advanced(State::Destroyed)
    }
}

/// The state that leads to the end of a project: nothing runs, so it is over.
fn destroy(project: Project<State>) -> Result<Project<State>, String> {
    match project {
        Project::Advanced(State::Stuck) => Err("cannot be stopped".to_string()),
        _ => Ok(Project::Advanced(State::Destroyed)),
    }
}

fn target_ip(project: &Project<State>) -> Result<Option<String>, String> {
    match project {
        Project::Advanced(State::Stuck) => Err("cannot be reached".to_string()),
        Project::Advanced(State::Ready(ip)) => Ok(Some(ip.clone())),
        _ => Ok(None),
    }
}

fn statement_error(err: sqlx::Error) -> StatementError {
    let message = err.to_string();
    match err.as_database_error() {
        Some(db_err) => StatementError::Database {
            code: db_err.code().map(|code| code.into_owned()),
            message,
        },
        None => StatementError::Other { message },
    }
}

fn migrator() -> Migrator {
    let migrations = migrations().into_iter().map(|migration| {
        Migration::new(
            migration.version,
            Cow::Borrowed(migration.description),
            MigrationType::Simple,
            Cow::Borrowed(migration.sql),
        )
    });
    Migrator {
        migrations: Cow::Owned(migrations.collect()),
        ignore_missing: false,
        locking: true,
    }
}

fn bound<'q>(
    statement: &Statement<'q, State>,
) -> sqlx::query::Query<'q, Sqlite, SqliteArguments<'q>> {
    let mut query = sqlx::query(statement.text());
    for binding in statement.bindings() {
        query = match binding {
            Binding::Text(text) => query.bind(text),
            Binding::Flag(flag) => query.bind(flag),
            Binding::State(project) => query.bind(project_to_json(project)),
        };
    }
    query
}

struct World {
    runtime: Runtime,
    db: SqlitePool,
    service: GatewayService<Sender<Work<State>>>,
}

impl World {
    fn new() -> World {
        World::start("sqlite::memory:", false)
    }

    fn start(state: &str, state_exists: bool) -> World {
        let runtime = Builder::new_current_thread().enable_all().build().unwrap();
        let args = Args {
            prefix: "dummy_prefix_".to_string(),
            state: state.to_string(),
        };
        let (service, steps) = GatewayService::init(args, state_exists);
        let mut db = None;
        for step in steps {
            match step {
                Startup::CreateDatabase(path) => {
                    runtime.block_on(Sqlite::create_database(&path)).unwrap();
                }
                Startup::Connect(path) => {
                    let options = SqlitePoolOptions::new().max_connections(1);
                    db = Some(runtime.block_on(options.connect(&path)).unwrap());
                }
                Startup::Migrate => {
                    runtime.block_on(migrator().run(db.as_ref().unwrap())).unwrap();
                }
            }
        }
        World { runtime, db: db.unwrap(), service }
    }

    fn execute(&self, statement: Statement<'_, State>) -> Result<(), StatementError> {
        self.runtime
            .block_on(bound(&statement).execute(&self.db))
            .map(|_| ())
            .map_err(statement_error)
    }

    fn fetch_optional<X>(
        &self,
        statement: Statement<'_, State>,
        read: fn(&SqliteRow) -> X,
    ) -> Result<Option<X>, StatementError> {
        self.runtime
            .block_on(bound(&statement).fetch_optional(&self.db))
            .map(|row| row.as_ref().map(read))
            .map_err(statement_error)
    }

    fn fetch_all<X>(
        &self,
        statement: Statement<'_, State>,
        read: fn(&SqliteRow) -> X,
    ) -> Result<Vec<X>, StatementError> {
        self.runtime
            .block_on(bound(&statement).fetch_all(&self.db))
            .map(|rows| rows.iter().map(read).collect())
            .map_err(statement_error)
    }

    fn worker(&mut self) -> Receiver<Work<State>> {
        let (sender, receiver) = channel(256);
        self.service.set_sender(Some(sender)).unwrap();
        receiver
    }

    fn send(&mut self, work: Work<State>) -> Result<(), Error> {
        let (sender, work) = {
            let delivery = self.service.send(work.project_name, work.account_name, work.work)?;
            (delivery.sender.clone(), delivery.work)
        };
        let accepted = self.runtime.block_on(sender.send(work)).is_ok();
        self.service.delivered(accepted)
    }

    fn find_project(&self, name: &ProjectName) -> Result<Project<State>, Error> {
        let lookup = self.service.find_project(name);
        let reply = self.fetch_optional(lookup.statement(), |row| {
            project_from_json(&row.get::<String, _>("project_state"))
        });
        lookup.finish(reply)
    }

    fn update_project(&self, name: &ProjectName, project: &Project<State>) -> Result<(), Error> {
        let update = self.service.update_project(name, project);
        let reply = self.execute(update.statement());
        update.finish(reply)
    }

    fn key_from_account_name(&self, name: &AccountName) -> Result<Key, Error> {
        let lookup = self.service.key_from_account_name(name);
        let reply = self.fetch_optional(lookup.statement(), |row| Key(row.get("key")));
        lookup.finish(reply)
    }

    fn account_name_from_key(&self, key: &Key) -> Result<AccountName, Error> {
        let lookup = self.service.account_name_from_key(key);
        let reply = self.fetch_optional(lookup.statement(), |row| {
            AccountName(row.get("account_name"))
        });
        lookup.finish(reply)
    }

    fn control_key_from_project_name(&self, name: &ProjectName) -> Result<String, Error> {
        let lookup = self.service.control_key_from_project_name(name);
        let reply = self.fetch_optional(lookup.statement(), |row| row.get("initial_key"));
        lookup.finish(reply)
    }

    fn is_super_user(&self, name: &AccountName) -> Result<bool, Error> {
        let lookup = self.service.is_super_user(name);
        let reply = self.fetch_optional(lookup.statement(), |row| row.get("super_user"));
        lookup.finish(reply)
    }

    fn set_super_user(&self, name: &AccountName, value: bool) -> Result<(), Error> {
        let update = self.service.set_super_user(name, value);
        let reply = self.execute(update.statement());
        update.finish(reply)
    }

    fn user_from_account_name(&self, name: AccountName) -> Result<User, Error> {
        let lookup = self.service.user_from_account_name(name);
        let reply = self.fetch_optional(lookup.statement(), |row| Key(row.get("key")));
        self.finish_user(lookup.key_found(reply)?)
    }

    fn user_from_key(&self, key: Key) -> Result<User, Error> {
        let lookup = self.service.user_from_key(key);
        let reply = self.fetch_optional(lookup.statement(), |row| {
            AccountName(row.get("account_name"))
        });
        self.finish_user(lookup.account_found(reply)?)
    }

    fn finish_user(&self, standing: gateway::users::UserStanding) -> Result<User, Error> {
        let reply = self.fetch_optional(standing.statement(), |row| row.get("super_user"));
        let projects = standing.standing_found(reply)?;
        let reply = self.fetch_all(projects.statement(), |row| {
            ProjectName(row.get("project_name"))
        });
        projects.finish(reply)
    }

    fn create_user(&self, name: AccountName) -> Result<User, Error> {
        let creation = self.service.create_user(name);
        let reply = self.execute(creation.statement());
        creation.finish(reply)
    }

    fn create_project(
        &mut self,
        project_name: ProjectName,
        account_name: AccountName,
    ) -> Result<Project<State>, Error> {
        let creation = self.service.create_project(project_name, account_name);
        let reply = self.execute(creation.statement());
        let (work, recorded) = creation.inserted(reply)?;
        let sent = self.send(work);
        recorded.finish(sent)
    }

    fn destroy_project(
        &mut self,
        project_name: ProjectName,
        account_name: AccountName,
    ) -> Result<(), Failure<String>> {
        let destruction = self.service.destroy_project(project_name, account_name);
        let reply = self.fetch_optional(destruction.statement(), |row| {
            project_from_json(&row.get::<String, _>("project_state"))
        });
        let (project, destroying) = destruction.project_found(reply)?;
        let work = destroying.destroyed(destroy(project)).map_err(Failure::State)?;
        Ok(self.send(work)?)
    }

    fn iter_projects(&self) -> Result<Vec<Work<State>>, Error> {
        let listing = self.service.iter_projects();
        let reply = self.fetch_all(listing.statement(), |row| Work {
            project_name: ProjectName(row.get("project_name")),
            account_name: AccountName(row.get("account_name")),
            work: project_from_json(&row.get::<String, _>("project_state")),
        });
        listing.finish(reply)
    }

    fn refresh(
        &mut self,
        mut refresh_state: impl FnMut(Project<State>) -> Result<Project<State>, Error>,
    ) -> Result<(), Error> {
        let listed = self.iter_projects().expect("could not list projects");
        let mut refresh = self.service.refresh(listed);
        while let Some((project, refreshing)) = refresh.next() {
            refresh = match refreshing.refreshed(refresh_state(project)) {
                Refreshed::Submit(work, submitting) => {
                    let sent = self.send(work);
                    submitting.sent(sent)?
                }
                Refreshed::Skip(rest) => rest,
            };
        }
        Ok(())
    }

    fn route(&self, project_name: &ProjectName, route: &str) -> Result<RouteRequest, Failure<String>> {
        let request = self.service.route(project_name, route.to_string());
        let reply = self.fetch_optional(request.statement(), |row| {
            project_from_json(&row.get::<String, _>("project_state"))
        });
        let (project, target) = request.project_found(reply)?;
        let key = target.target_found(target_ip(&project))?;
        let reply = self.fetch_optional(key.statement(), |row| row.get("initial_key"));
        Ok(key.key_found(reply)?)
    }
}

fn account(name: &str) -> AccountName {
    AccountName(name.to_string())
}

fn project(name: &str) -> ProjectName {
    ProjectName(name.to_string())
}

fn kind<X>(r: Result<X, Error>) -> ErrorKind {
    match r {
        Ok(_) => panic!("an error was expected"),
        Err(err) => err.kind(),
    }
}

fn gateway_kind<X>(r: Result<X, Failure<String>>) -> ErrorKind {
    match r {
        Err(Failure::Gateway(err)) => err.kind(),
        _ => panic!("an error of the gateway was expected"),
    }
}

fn drain(receiver: &mut Receiver<Work<State>>) -> Vec<Work<State>> {
    let mut works = Vec::new();
    while let Ok(work) = receiver.try_recv() {
        works.push(work);
    }
    works
}

#[test]
fn service_create_find_user() {
    let svc = World::new();

    let account_name = account("test_user_123");

    assert_eq!(
        kind(svc.user_from_account_name(account_name.clone())),
        ErrorKind::UserNotFound
    );

    assert_eq!(
        kind(svc.user_from_key(Key("123".to_string()))),
        ErrorKind::UserNotFound
    );

    let user = svc.create_user(account_name.clone()).unwrap();

    assert_eq!(
        svc.user_from_account_name(account_name.clone()).unwrap(),
        user
    );

    assert!(!svc.is_super_user(&account_name).unwrap());

    let User { name, key, projects, super_user } = user;

    assert!(projects.is_empty());

    assert!(!super_user);

    assert_eq!(name, account_name);

    assert_eq!(
        kind(svc.create_user(account_name.clone())),
        ErrorKind::UserAlreadyExists
    );

    let user_key = svc.key_from_account_name(&account_name).unwrap();

    assert_eq!(key, user_key);
}

#[test]
fn service_create_find_delete_project() {
    let mut svc = World::new();

    let neo = account("neo");
    let matrix = project("matrix");

    let creating_same_project_name = |project: &Project<State>, project_name: &ProjectName| {
        matches!(
            project,
            Project::Creating(creating) if creating.project_name() == project_name
        )
    };

    svc.create_user(neo.clone()).unwrap();

    let mut captured = svc.worker();

    let project = svc.create_project(matrix.clone(), neo.clone()).unwrap();

    let works = drain(&mut captured);
    assert_eq!(works.len(), 1);
    assert!(creating_same_project_name(&works[0].work, &matrix));

    assert!(creating_same_project_name(&project, &matrix));

    assert_eq!(svc.find_project(&matrix).unwrap(), project);

    let mut captured = svc.worker();

    svc.destroy_project(matrix.clone(), neo).unwrap();

    // Which drops the only sender, thus breaking the work loop
    svc.service.set_sender(None).unwrap();

    for work in drain(&mut captured) {
        assert!(matches!(&work.work, Project::Advanced(State::Destroyed)));
        svc.update_project(&matrix, &work.work).unwrap();
    }

    assert!(matches!(
        svc.find_project(&matrix).unwrap(),
        Project::Advanced(State::Destroyed)
    ));
}

#[test]
fn user_is_found_by_key() {
    let svc = World::new();
    let trinity = svc.create_user(account("trinity")).unwrap();
    let neo = svc.create_user(account("neo")).unwrap();
    assert_ne!(trinity.key, neo.key);
    assert_eq!(svc.account_name_from_key(&neo.key).unwrap(), neo.name);
    assert_eq!(svc.user_from_key(Key(neo.key.0.clone())).unwrap(), neo);
    assert_eq!(svc.user_from_key(Key(trinity.key.0.clone())).unwrap(), trinity);
    assert_eq!(
        kind(svc.account_name_from_key(&Key("nobody's".to_string()))),
        ErrorKind::UserNotFound
    );
}

#[test]
fn refused_account_changes_nothing() {
    let svc = World::new();
    let neo = svc.create_user(account("neo")).unwrap();
    assert_eq!(kind(svc.create_user(account("neo"))), ErrorKind::UserAlreadyExists);
    assert_eq!(svc.user_from_account_name(account("neo")).unwrap(), neo);
}

#[test]
fn keys_are_letters_and_digits() {
    let mut svc = World::new();
    let neo = svc.create_user(account("neo")).unwrap();
    assert_eq!(neo.key.0.len(), 16);
    assert!(neo.key.0.chars().all(|c| c.is_ascii_alphanumeric()));
    let _captured = svc.worker();
    svc.create_project(project("matrix"), account("neo")).unwrap();
    let key = svc.control_key_from_project_name(&project("matrix")).unwrap();
    assert_eq!(key.len(), 32);
    assert!(key.chars().all(|c| c.is_ascii_alphanumeric()));
}

#[test]
fn super_user_is_set_and_taken_back() {
    let svc = World::new();
    svc.create_user(account("neo")).unwrap();
    svc.create_user(account("smith")).unwrap();
    svc.set_super_user(&account("neo"), true).unwrap();
    assert!(svc.is_super_user(&account("neo")).unwrap());
    assert!(svc.user_from_account_name(account("neo")).unwrap().super_user);
    assert!(!svc.is_super_user(&account("smith")).unwrap());
    svc.set_super_user(&account("neo"), false).unwrap();
    assert!(!svc.is_super_user(&account("neo")).unwrap());
}

#[test]
fn unknown_account_is_no_super_user() {
    let svc = World::new();
    assert!(!svc.is_super_user(&account("nobody")).unwrap());
    svc.set_super_user(&account("nobody"), true).unwrap();
    assert!(!svc.is_super_user(&account("nobody")).unwrap());
    assert_eq!(
        kind(svc.key_from_account_name(&account("nobody"))),
        ErrorKind::UserNotFound
    );
}

#[test]
fn user_lists_own_projects() {
    let mut svc = World::new();
    let _captured = svc.worker();
    svc.create_user(account("neo")).unwrap();
    svc.create_user(account("trinity")).unwrap();
    svc.create_project(project("matrix"), account("neo")).unwrap();
    svc.create_project(project("motorbike"), account("trinity")).unwrap();
    svc.create_project(project("zion"), account("neo")).unwrap();
    let mut projects = svc.user_from_account_name(account("neo")).unwrap().projects;
    projects.sort_by(|a, b| a.0.cmp(&b.0));
    assert_eq!(projects, vec![project("matrix"), project("zion")]);
}

#[test]
fn project_name_is_given_out_once() {
    let mut svc = World::new();
    let mut captured = svc.worker();
    let first = svc.create_project(project("matrix"), account("neo")).unwrap();
    assert_eq!(
        kind(svc.create_project(project("matrix"), account("smith"))),
        ErrorKind::ProjectAlreadyExists
    );
    assert_eq!(svc.find_project(&project("matrix")).unwrap(), first);
    let works = drain(&mut captured);
    assert_eq!(works.len(), 1);
    assert_eq!(works[0].project_name, project("matrix"));
    assert_eq!(works[0].account_name, account("neo"));
    assert_eq!(works[0].work, first);
}

#[test]
fn created_project_knows_prefix_and_key() {
    let mut svc = World::new();
    let _captured = svc.worker();
    let created = svc.create_project(project("matrix"), account("neo")).unwrap();
    let key = svc.control_key_from_project_name(&project("matrix")).unwrap();
    match created {
        Project::Creating(creating) => {
            assert_eq!(creating.prefix(), "dummy_prefix_");
            assert_eq!(creating.initial_key(), key);
        }
        Project::Advanced(_) => panic!("the project has left its first state"),
    }
}

#[test]
fn project_without_worker_stays_recorded() {
    let mut svc = World::new();
    assert_eq!(
        kind(svc.create_project(project("matrix"), account("neo"))),
        ErrorKind::NotReady
    );
    assert!(matches!(
        svc.find_project(&project("matrix")).unwrap(),
        Project::Creating(_)
    ));
}

#[test]
fn unknown_project_is_not_found() {
    let mut svc = World::new();
    let mut captured = svc.worker();
    let nowhere = project("nowhere");
    assert_eq!(kind(svc.find_project(&nowhere)), ErrorKind::ProjectNotFound);
    assert_eq!(
        kind(svc.control_key_from_project_name(&nowhere)),
        ErrorKind::ProjectNotFound
    );
    assert_eq!(
        gateway_kind(svc.destroy_project(nowhere.clone(), account("neo"))),
        ErrorKind::ProjectNotFound
    );
    assert_eq!(gateway_kind(svc.route(&nowhere, "/")), ErrorKind::ProjectNotFound);
    svc.update_project(&nowhere, &Project::Advanced(State::Destroyed)).unwrap();
    assert_eq!(kind(svc.find_project(&nowhere)), ErrorKind::ProjectNotFound);
    assert!(drain(&mut captured).is_empty());
}

#[test]
fn update_keeps_owner_and_key() {
    let mut svc = World::new();
    let _captured = svc.worker();
    svc.create_project(project("matrix"), account("neo")).unwrap();
    svc.create_project(project("zion"), account("morpheus")).unwrap();
    let key = svc.control_key_from_project_name(&project("matrix")).unwrap();
    let ready = Work {
        project_name: project("matrix"),
        account_name: account("neo"),
        work: Project::Advanced(State::Ready("10.0.0.7".to_string())),
    };
    let update = svc.service.update(&ready);
    let reply = svc.execute(update.statement());
    update.finish(reply).unwrap();
    assert_eq!(svc.find_project(&project("matrix")).unwrap(), ready.work);
    assert_eq!(svc.control_key_from_project_name(&project("matrix")).unwrap(), key);
    let listed = svc.iter_projects().unwrap();
    assert_eq!(listed.len(), 2);
    assert!(listed.contains(&ready));
    assert!(matches!(
        svc.find_project(&project("zion")).unwrap(),
        Project::Creating(_)
    ));
}

#[test]
fn sender_is_given_up_when_the_channel_closes() {
    let mut svc = World::new();
    let work = || Work {
        project_name: project("matrix"),
        account_name: account("neo"),
        work: Project::Advanced(State::Destroyed),
    };
    // none has been set
    assert_eq!(kind(svc.send(work())), ErrorKind::NotReady);
    let mut captured = svc.worker();
    assert_eq!(svc.send(work()), Ok(()));
    assert_eq!(drain(&mut captured), vec![work()]);
    drop(captured);
    // the channel has been closed
    assert_eq!(kind(svc.send(work())), ErrorKind::NotReady);
    assert!(svc
        .service
        .send::<State>(project("matrix"), account("neo"), work().work)
        .is_err());
    let mut captured = svc.worker();
    assert_eq!(svc.send(work()), Ok(()));
    assert_eq!(drain(&mut captured).len(), 1);
    // no further work is submitted
    svc.service.set_sender(None).unwrap();
    assert_eq!(kind(svc.send(work())), ErrorKind::NotReady);
    assert!(drain(&mut captured).is_empty());
}

#[test]
fn refresh_submits_what_could_be_refreshed() {
    let mut svc = World::new();
    let mut captured = svc.worker();
    svc.create_project(project("matrix"), account("neo")).unwrap();
    svc.create_project(project("zion"), account("morpheus")).unwrap();
    svc.create_project(project("nebuchadnezzar"), account("morpheus")).unwrap();
    drain(&mut captured);
    let refreshed = svc.refresh(|project| match project {
        Project::Creating(creating) if creating.project_name().0 == "zion" => {
            Err(Error::from_kind(ErrorKind::Internal))
        }
        Project::Creating(creating) => Ok(Project::Advanced(State::Ready(
            creating.project_name().0.clone(),
        ))),
        other => Ok(other),
    });
    assert_eq!(refreshed, Ok(()));
    let mut works = drain(&mut captured);
    works.sort_by(|a, b| a.project_name.0.cmp(&b.project_name.0));
    assert_eq!(
        works,
        vec![
            Work {
                project_name: project("matrix"),
                account_name: account("neo"),
                work: Project::Advanced(State::Ready("matrix".to_string())),
            },
            Work {
                project_name: project("nebuchadnezzar"),
                account_name: account("morpheus"),
                work: Project::Advanced(State::Ready("nebuchadnezzar".to_string())),
            },
        ]
    );
}

#[test]
fn refresh_ends_when_work_cannot_be_sent() {
    let mut svc = World::new();
    let captured = svc.worker();
    svc.create_project(project("matrix"), account("neo")).unwrap();
    svc.create_project(project("zion"), account("morpheus")).unwrap();
    drop(captured);
    let mut asked = 0;
    let refreshed = svc.refresh(|project| {
        asked += 1;
        Ok(project)
    });
    assert_eq!(kind(refreshed), ErrorKind::NotReady);
    assert_eq!(asked, 1);
}

#[test]
fn route_needs_an_address_and_carries_the_key() {
    let mut svc = World::new();
    let _captured = svc.worker();
    let matrix = project("matrix");
    svc.create_project(matrix.clone(), account("neo")).unwrap();
    assert_eq!(gateway_kind(svc.route(&matrix, "status")), ErrorKind::ProjectNotReady);
    svc.update_project(&matrix, &Project::Advanced(State::Ready("10.0.0.7".to_string())))
        .unwrap();
    let request = svc.route(&matrix, "status").unwrap();
    assert_eq!(request.target_ip, "10.0.0.7");
    assert_eq!(request.route, "status");
    assert_eq!(
        request.control_key,
        svc.control_key_from_project_name(&matrix).unwrap()
    );
}

#[test]
fn failing_database_is_internal() {
    let mut svc = World::new();
    let _captured = svc.worker();
    svc.runtime.block_on(svc.db.close());
    assert_eq!(kind(svc.create_user(account("neo"))), ErrorKind::Internal);
    assert_eq!(kind(svc.user_from_account_name(account("neo"))), ErrorKind::Internal);
    assert_eq!(kind(svc.user_from_key(Key("k".to_string()))), ErrorKind::Internal);
    assert_eq!(
        kind(svc.create_project(project("matrix"), account("neo"))),
        ErrorKind::Internal
    );
    assert_eq!(kind(svc.find_project(&project("matrix"))), ErrorKind::Internal);
    assert_eq!(kind(svc.is_super_user(&account("neo"))), ErrorKind::Internal);
    assert_eq!(kind(svc.set_super_user(&account("neo"), true)), ErrorKind::Internal);
    assert_eq!(kind(svc.iter_projects()), ErrorKind::Internal);
    assert_eq!(
        gateway_kind(svc.destroy_project(project("matrix"), account("neo"))),
        ErrorKind::Internal
    );
    assert_eq!(gateway_kind(svc.route(&project("matrix"), "/")), ErrorKind::Internal);
}

#[test]
fn missing_table_is_internal_and_keeps_its_source() {
    let svc = World::new();
    svc.runtime
        .block_on(sqlx::query("DROP TABLE accounts").execute(&svc.db))
        .unwrap();
    let err = svc.create_user(account("neo")).unwrap_err();
    assert_eq!(err.kind(), ErrorKind::Internal);
    match err.source {
        Some(StatementError::Database { code, .. }) => assert_eq!(code, Some("1".to_string())),
        other => panic!("{:?}", other),
    }
}

#[test]
fn project_may_come_before_its_account() {
    let mut svc = World::new();
    let _captured = svc.worker();
    svc.create_project(project("matrix"), account("neo")).unwrap();
    assert!(svc.create_user(account("neo")).unwrap().projects.is_empty());
    assert_eq!(
        svc.user_from_account_name(account("neo")).unwrap().projects,
        vec![project("matrix")]
    );
}

#[test]
fn creating_a_project_leaves_the_others_alone() {
    let mut svc = World::new();
    let _captured = svc.worker();
    let neo = svc.create_user(account("neo")).unwrap();
    let matrix = svc.create_project(project("matrix"), account("trinity")).unwrap();
    let key = svc.control_key_from_project_name(&project("matrix")).unwrap();
    svc.create_project(project("zion"), account("morpheus")).unwrap();
    assert_eq!(svc.find_project(&project("matrix")).unwrap(), matrix);
    assert_eq!(svc.control_key_from_project_name(&project("matrix")).unwrap(), key);
    assert_eq!(svc.user_from_account_name(account("neo")).unwrap(), neo);
    assert_eq!(svc.iter_projects().unwrap().len(), 2);
}

#[test]
fn failure_of_a_state_is_passed_on() {
    let mut svc = World::new();
    let mut captured = svc.worker();
    let matrix = project("matrix");
    svc.create_project(matrix.clone(), account("neo")).unwrap();
    svc.update_project(&matrix, &Project::Advanced(State::Stuck)).unwrap();
    drain(&mut captured);
    assert_eq!(
        svc.route(&matrix, "status").err(),
        Some(Failure::State("cannot be reached".to_string()))
    );
    assert_eq!(
        svc.destroy_project(matrix, account("neo")),
        Err(Failure::State("cannot be stopped".to_string()))
    );
    assert!(drain(&mut captured).is_empty());
}

#[test]
fn new_database_is_empty() {
    let svc = World::new();
    assert!(svc.iter_projects().unwrap().is_empty());
    assert_eq!(kind(svc.key_from_account_name(&account("neo"))), ErrorKind::UserNotFound);
}

#[test]
fn restart_keeps_accounts_and_projects() {
    let state = "sqlite:file:restart?mode=memory";
    let mut first = World::start(state, false);
    let _captured = first.worker();
    first.create_user(account("neo")).unwrap();
    first.set_super_user(&account("neo"), true).unwrap();
    let matrix = first.create_project(project("matrix"), account("neo")).unwrap();
    let key = first.control_key_from_project_name(&project("matrix")).unwrap();
    let neo = first.user_from_account_name(account("neo")).unwrap();
    // creating a database that is there leaves it alone
    for state_exists in [true, false] {
        let mut next = World::start(state, state_exists);
        assert_eq!(next.user_from_account_name(account("neo")).unwrap(), neo);
        assert_eq!(next.find_project(&project("matrix")).unwrap(), matrix);
        assert_eq!(next.control_key_from_project_name(&project("matrix")).unwrap(), key);
        assert_eq!(next.iter_projects().unwrap().len(), 1);
        // the sender is not carried over
        assert_eq!(
            gateway_kind(next.destroy_project(project("matrix"), account("neo"))),
            ErrorKind::NotReady
        );
    }
}

#[test]
fn database_of_another_version_is_refused() {
    let svc = World::new();
    let statement = "INSERT INTO _sqlx_migrations (version, description, success, checksum, \
                     execution_time) VALUES (3, 'later', TRUE, x'00', 0)";
    svc.runtime.block_on(sqlx::query(statement).execute(&svc.db)).unwrap();
    assert!(matches!(
        svc.runtime.block_on(migrator().run(&svc.db)),
        Err(MigrateError::VersionMissing(3))
    ));
}

#[test]
fn keys_lead_to_their_accounts_and_back() {
    let svc = World::new();
    for name in ["neo", "trinity"] {
        let user = svc.create_user(account(name)).unwrap();
        let key = svc.key_from_account_name(&account(name)).unwrap();
        assert_eq!(key, user.key);
        assert_eq!(svc.account_name_from_key(&key).unwrap(), account(name));
        assert_eq!(
            svc.user_from_key(key).unwrap(),
            svc.user_from_account_name(account(name)).unwrap()
        );
    }
}
