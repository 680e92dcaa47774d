//! The operations step by step, without a database.
use gateway::error::{Error, ErrorKind, StatementError};
use gateway::projects::{CreateProject, DestroyProject};
use gateway::refresh::Refreshed;
use gateway::service::{GatewayContext, GatewayService, Startup};
use gateway::statement::{migrations, Binding, Statement, CREATE_ACCOUNTS, CREATE_PROJECTS};
use gateway::types::{AccountName, Args, Key, Project, ProjectName, Work};
use gateway::users::CreateUser;

fn args() -> Args {
    Args { prefix: "shuttle_".to_string(), state: "gateway.sqlite".to_string() }
}

fn service() -> GatewayService<u8> {
    GatewayService::init(args(), true).0
}

fn account(name: &str) -> AccountName {
    AccountName(name.to_string())
}

fn project(name: &str) -> ProjectName {
    ProjectName(name.to_string())
}

fn failure(code: &str) -> StatementError {
    StatementError::Database { code: Some(code.to_string()), message: "no".to_string() }
}

/// A statement's SQL and its bindings, as text.
fn shown(statement: Statement<'_, u8>) -> (&'static str, Vec<String>) {
    let bindings = statement
        .bindings()
        .into_iter()
        .map(|binding| match binding {
            Binding::Text(text) => text.to_string(),
            Binding::Flag(flag) => flag.to_string(),
            Binding::State(state) => format!("{:?}", state),
        })
        .collect();
    (statement.text(), bindings)
}

#[test]
fn startup_creates_a_missing_database() {
    let (service, steps) = GatewayService::<u8>::init(args(), false);
    assert_eq!(service.args(), &args());
    assert_eq!(
        steps,
        vec![
            Startup::CreateDatabase("gateway.sqlite".to_string()),
            Startup::Connect("gateway.sqlite".to_string()),
            Startup::Migrate,
        ]
    );
    let (_, steps) = GatewayService::<u8>::init(args(), true);
    assert_eq!(
        steps,
        vec![Startup::Connect("gateway.sqlite".to_string()), Startup::Migrate]
    );
}

#[test]
fn migrations_come_in_the_order_of_their_versions() {
    let migrations = migrations();
    assert_eq!(migrations.len(), 2);
    assert_eq!((migrations[0].version, migrations[0].sql), (1, CREATE_PROJECTS));
    assert_eq!((migrations[1].version, migrations[1].sql), (2, CREATE_ACCOUNTS));
}

#[test]
fn service_hands_out_a_context() {
    let service = service();
    let context = service.context(&1u8, &2u16);
    assert_eq!(context.docker(), &1);
    assert_eq!(context.hyper(), &2);
    assert_eq!(context.args(), &args());
}

#[test]
fn new_service_has_no_worker() {
    let service = service();
    let sent = service.send::<u8>(project("p"), account("a"), Project::Advanced(1));
    assert_eq!(sent.err(), Some(Error::from_kind(ErrorKind::NotReady)));
}

#[test]
fn delivery_keeps_or_gives_up_the_sender() {
    let mut service = service();
    service.set_sender(Some(7)).unwrap();
    {
        let delivery = service.send::<u8>(project("p"), account("a"), Project::Advanced(1));
        let delivery = delivery.ok().unwrap();
        assert_eq!(delivery.sender, &7);
        assert_eq!(
            delivery.work,
            Work { project_name: project("p"), account_name: account("a"), work: Project::Advanced(1) }
        );
    }
    assert_eq!(service.delivered(true), Ok(()));
    assert!(service.send::<u8>(project("p"), account("a"), Project::Advanced(1)).is_ok());
    assert_eq!(service.delivered(false), Err(Error::from_kind(ErrorKind::NotReady)));
    assert!(service.send::<u8>(project("p"), account("a"), Project::Advanced(1)).is_err());
    assert_eq!(service.delivered(true), Err(Error::from_kind(ErrorKind::NotReady)));
}

#[test]
fn context_hands_out_its_parts() {
    let (docker, hyper, args) = (1u8, 2u16, args());
    let context = GatewayContext::new(&docker, &hyper, &args);
    assert_eq!(context.docker(), &1);
    assert_eq!(context.hyper(), &2);
    assert_eq!(context.args(), &args);
}

#[test]
fn lookups_run_their_statements() {
    let service = service();
    let (neo, matrix, key) = (account("neo"), project("matrix"), Key("k".to_string()));
    assert_eq!(
        shown(service.find_project(&matrix).statement()),
        (
            "SELECT project_state FROM projects WHERE project_name=?1",
            vec!["matrix".to_string()]
        )
    );
    assert_eq!(
        shown(service.key_from_account_name(&neo).statement()),
        ("SELECT key FROM accounts WHERE account_name = ?1", vec!["neo".to_string()])
    );
    assert_eq!(
        shown(service.account_name_from_key(&key).statement()),
        ("SELECT account_name FROM accounts WHERE key = ?1", vec!["k".to_string()])
    );
    assert_eq!(
        shown(service.control_key_from_project_name(&matrix).statement()),
        (
            "SELECT initial_key FROM projects WHERE project_name = ?1",
            vec!["matrix".to_string()]
        )
    );
    assert_eq!(
        shown(service.is_super_user(&neo).statement()),
        ("SELECT super_user FROM accounts WHERE account_name = ?1", vec!["neo".to_string()])
    );
    assert_eq!(
        shown(service.iter_user_projects(&neo).statement()),
        (
            "SELECT project_name FROM projects WHERE account_name = ?1",
            vec!["neo".to_string()]
        )
    );
    assert_eq!(
        shown(service.iter_projects().statement()),
        ("SELECT * FROM projects", vec![])
    );
}

#[test]
fn changes_run_their_statements() {
    let service = service();
    let (neo, matrix) = (account("neo"), project("matrix"));
    let state = Project::Advanced(3);
    assert_eq!(
        shown(service.update_project(&matrix, &state).statement()),
        (
            "UPDATE projects SET project_state = ?1 WHERE project_name = ?2",
            vec!["Advanced(3)".to_string(), "matrix".to_string()]
        )
    );
    assert_eq!(
        shown(service.set_super_user(&neo, true).statement()),
        (
            "UPDATE accounts SET super_user = ?1 WHERE account_name = ?2",
            vec!["true".to_string(), "neo".to_string()]
        )
    );
    let creation = service.create_user_with_key(account("neo"), Key("k".to_string()));
    assert_eq!(
        shown(creation.statement()),
        (
            "INSERT INTO accounts (account_name, key) VALUES (?1, ?2)",
            vec!["neo".to_string(), "k".to_string()]
        )
    );
    let creation: CreateProject<u8> =
        service.create_project_with_key(project("matrix"), account("neo"), "k".to_string());
    let (text, bindings) = shown(creation.statement());
    assert_eq!(
        text,
        "INSERT INTO projects (project_name, account_name, initial_key, project_state) VALUES (?1, ?2, ?3, ?4)"
    );
    assert_eq!(bindings[..3], ["matrix".to_string(), "neo".to_string(), "k".to_string()]);
    assert_eq!(bindings[3], format!("{:?}", creation.project));
}

#[test]
fn lookup_failures_have_their_kinds() {
    let service = service();
    let (neo, matrix, key) = (account("neo"), project("matrix"), Key("k".to_string()));
    assert_eq!(
        service.find_project(&matrix).finish::<u8>(Ok(None)),
        Err(Error::from_kind(ErrorKind::ProjectNotFound))
    );
    assert_eq!(
        service.find_project(&matrix).finish::<u8>(Err(failure("5"))),
        Err(Error::source(ErrorKind::Internal, failure("5")))
    );
    assert_eq!(
        service.find_project(&matrix).finish(Ok(Some(Project::Advanced(1u8)))),
        Ok(Project::Advanced(1))
    );
    assert_eq!(
        service.key_from_account_name(&neo).finish(Ok(None)),
        Err(Error::from(ErrorKind::UserNotFound))
    );
    assert_eq!(
        service.account_name_from_key(&key).finish(Ok(None)),
        Err(Error::from(ErrorKind::UserNotFound))
    );
    assert_eq!(
        service.control_key_from_project_name(&matrix).finish(Ok(None)),
        Err(Error::from(ErrorKind::ProjectNotFound))
    );
    assert_eq!(service.is_super_user(&neo).finish(Ok(None)), Ok(false));
    assert_eq!(service.is_super_user(&neo).finish(Ok(Some(true))), Ok(true));
    assert_eq!(
        service.is_super_user(&neo).finish(Err(failure("5"))),
        Err(Error::from(failure("5")))
    );
}

#[test]
fn only_a_primary_key_clash_means_that_a_name_is_taken() {
    let creation = || CreateUser { name: account("neo"), key: Key("k".to_string()) };
    assert_eq!(
        creation().finish(Err(failure("1555"))),
        Err(Error::from_kind(ErrorKind::UserAlreadyExists))
    );
    assert_eq!(
        creation().finish(Err(failure("2067"))),
        Err(Error::source(ErrorKind::Internal, failure("2067")))
    );
    let lost = || StatementError::Other { message: "1555".to_string() };
    assert_eq!(
        creation().finish(Err(lost())),
        Err(Error::source(ErrorKind::Internal, lost()))
    );
    let creation = || -> CreateProject<u8> {
        service().create_project_with_key(project("p"), account("a"), "k".to_string())
    };
    let refused = |err| creation().inserted(Err(err)).err().unwrap();
    assert_eq!(refused(failure("1555")), Error::from_kind(ErrorKind::ProjectAlreadyExists));
    assert_eq!(refused(failure("787")), Error::source(ErrorKind::Internal, failure("787")));
    let bare = || StatementError::Database { code: None, message: "?".to_string() };
    assert_eq!(refused(bare()), Error::source(ErrorKind::Internal, bare()));
}

#[test]
fn created_project_is_given_back_only_if_it_was_sent() {
    let creation: CreateProject<u8> =
        service().create_project_with_key(project("p"), account("a"), "k".to_string());
    let (work, recorded) = creation.inserted(Ok(())).ok().unwrap();
    assert_eq!(work.work, recorded.project);
    let not_ready = || Error::from_kind(ErrorKind::NotReady);
    assert_eq!(recorded.finish(Err(not_ready())), Err(not_ready()));
}

#[test]
fn destruction_stops_at_its_first_failure() {
    let destruction =
        || DestroyProject { project_name: project("p"), account_name: account("a") };
    assert_eq!(
        destruction().project_found::<u8>(Ok(None)).err(),
        Some(Error::from_kind(ErrorKind::ProjectNotFound))
    );
    let (state, destroying) = destruction()
        .project_found(Ok(Some(Project::Advanced(1u8))))
        .ok()
        .unwrap();
    assert_eq!(state, Project::Advanced(1));
    assert_eq!(destroying.destroyed::<u8, _>(Err("cannot stop")), Err("cannot stop"));
    let (_, destroying) = destruction()
        .project_found(Ok(Some(Project::Advanced(1u8))))
        .ok()
        .unwrap();
    assert_eq!(
        destroying.destroyed::<u8, &str>(Ok(Project::Advanced(2u8))),
        Ok(Work { project_name: project("p"), account_name: account("a"), work: Project::Advanced(2) })
    );
}

#[test]
fn refresh_goes_through_the_projects_in_order() {
    let work = |name: &str, state: u8| Work {
        project_name: project(name),
        account_name: account("a"),
        work: Project::Advanced(state),
    };
    let refresh = service().refresh(vec![work("x", 1), work("y", 2), work("z", 3)]);
    let (state, refreshing) = refresh.next().unwrap();
    assert_eq!(state, Project::Advanced(1));
    assert_eq!(refreshing.project_name, project("x"));
    let refresh = match refreshing.refreshed(Err("gone")) {
        Refreshed::Skip(rest) => rest,
        Refreshed::Submit(..) => panic!("nothing to submit"),
    };
    let (state, refreshing) = refresh.next().unwrap();
    assert_eq!(state, Project::Advanced(2));
    let refresh = match refreshing.refreshed::<()>(Ok(Project::Advanced(20))) {
        Refreshed::Submit(sent, submitting) => {
            assert_eq!(sent, work("y", 20));
            submitting.sent(Ok(())).ok().unwrap()
        }
        Refreshed::Skip(_) => panic!("it was refreshed"),
    };
    let (state, refreshing) = refresh.next().unwrap();
    assert_eq!(state, Project::Advanced(3));
    match refreshing.refreshed::<()>(Ok(Project::Advanced(30))) {
        Refreshed::Submit(sent, submitting) => {
            assert_eq!(sent, work("z", 30));
            let refresh = submitting.sent(Ok(())).ok().unwrap();
            assert!(refresh.next().is_none());
        }
        Refreshed::Skip(_) => panic!("it was refreshed"),
    }
    assert!(service().refresh::<u8>(vec![]).next().is_none());
}

#[test]
fn user_lookup_stops_at_its_first_failure() {
    let service = service();
    let lookup = service.user_from_account_name(account("neo"));
    assert_eq!(lookup.key_found(Err(failure("5"))).err(), Some(Error::from(failure("5"))));
    let lookup = service.user_from_account_name(account("neo"));
    let standing = lookup.key_found(Ok(Some(Key("k".to_string())))).ok().unwrap();
    assert_eq!(standing.standing_found(Err(failure("6"))).err(), Some(Error::from(failure("6"))));
    let lookup = service.user_from_key(Key("k".to_string()));
    let standing = lookup.account_found(Ok(Some(account("neo")))).ok().unwrap();
    let projects = standing.standing_found(Ok(Some(true))).ok().unwrap();
    assert_eq!(projects.finish(Err(failure("7"))), Err(Error::from(failure("7"))));
}
