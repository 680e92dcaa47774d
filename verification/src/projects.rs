//! The operations that create and destroy projects.
use vstd::prelude::*;

use crate::error::{Error, ErrorKind, Failure, StatementError};
use crate::lookup::{found, FindProject};
use crate::random::{alphanumeric_text, draw, drawn, INITIAL_KEY_LENGTH};
use crate::service::GatewayService;
use crate::statement::Statement;
use crate::types::{
    AccountName, CreatingView, Project, ProjectCreating, ProjectName, ProjectView, Work,
};

verus! {

/// What recording a new project comes to, by the reply to its statement.
pub open spec fn recorded(reply: Result<(), StatementError>) -> Result<(), Error> {
    match reply {
        Ok(()) => Ok(()),
        Err(err) => if err.is_clash() {
            Err(Error::plain(ErrorKind::ProjectAlreadyExists))
        } else {
            Err(Error::caused(ErrorKind::Internal, err))
        },
    }
}

/// A project is being created. It is being recorded.
pub struct CreateProject<T> {
    /// The work that is sent once the project is recorded.
    pub work: Work<T>,
    /// The key that the project is created with.
    pub initial_key: String,
    /// The state that is recorded.
    pub project: Project<T>,
}

/// A project is being created. It is recorded, and its work is being sent.
pub struct RecordedProject<T> {
    pub project: Project<T>,
}

impl<T> CreateProject<T> {
    /// What the operation comes to, by the reply to its statement and by what
    /// came of sending its work.
    pub open spec fn outcome(
        self,
        reply: Result<(), StatementError>,
        sent: Result<(), Error>,
    ) -> Result<Project<T>, Error> {
        match recorded(reply) {
            Err(err) => Err(err),
            Ok(()) => match sent {
                Err(err) => Err(err),
                Ok(()) => Ok(self.project),
            },
        }
    }

    pub fn statement(&self) -> (statement: Statement<'_, T>)
        ensures
            statement == (Statement::InsertProject {
                project_name: &self.work.project_name,
                account_name: &self.work.account_name,
                initial_key: &self.initial_key,
                project_state: &self.project,
            }),
    {
        Statement::InsertProject {
            project_name: &self.work.project_name,
            account_name: &self.work.account_name,
            initial_key: &self.initial_key,
            project_state: &self.project,
        }
    }

    /// If the project could be recorded, its work is to be sent.
    pub fn inserted(self, reply: Result<(), StatementError>) -> (r: Result<
        (Work<T>, RecordedProject<T>),
        Error,
    >)
        ensures
            match recorded(reply) {
                Ok(()) => r == Ok::<(Work<T>, RecordedProject<T>), Error>(
                    (self.work, RecordedProject { project: self.project }),
                ),
                Err(err) => r == Err::<(Work<T>, RecordedProject<T>), Error>(err),
            },
            forall|sent| #[trigger]
                self.outcome(reply, sent) == match r {
                    Ok((_, next)) => next.outcome(sent),
                    Err(err) => Err(err),
                },
    {
        match reply {
            Ok(()) => Ok((self.work, RecordedProject { project: self.project })),
            Err(err) => {
                // If the error is a broken primary key constraint, this is a
                // project name clash
                if err.clashes() {
                    Err(Error::from_kind(ErrorKind::ProjectAlreadyExists))
                } else {
                    // Otherwise this is internal
                    Err(Error::from(err))
                }
            },
        }
    }
}

impl<T> RecordedProject<T> {
    /// What the operation comes to, by what came of sending its work.
    pub open spec fn outcome(self, sent: Result<(), Error>) -> Result<Project<T>, Error> {
        match sent {
            Err(err) => Err(err),
            Ok(()) => Ok(self.project),
        }
    }

    pub fn finish(self, sent: Result<(), Error>) -> (r: Result<Project<T>, Error>)
        ensures
            r == self.outcome(sent),
            r is Ok <==> sent is Ok,
    {
        match sent {
            Err(err) => Err(err),
            Ok(()) => Ok(self.project),
        }
    }
}

/// A project is being destroyed. Its state is being looked up.
pub struct DestroyProject {
    pub project_name: ProjectName,
    pub account_name: AccountName,
}

/// A project is being destroyed. The state that leads to its end is being made
/// from the state it is in.
pub struct DestroyingProject {
    pub project_name: ProjectName,
    pub account_name: AccountName,
}

/// What [`destroy_project`](GatewayService::destroy_project) comes to, by the
/// reply to its statement, by the state that leads to the project's end, and by
/// what came of sending that state to the worker.
pub open spec fn destroy_project_outcome<T, E>(
    reply: Result<Option<Project<T>>, StatementError>,
    destroyed: Result<Project<T>, E>,
    sent: Result<(), Error>,
) -> Result<(), Failure<E>> {
    match found(reply, ErrorKind::ProjectNotFound) {
        Err(err) => Err(Failure::Gateway(err)),
        Ok(_) => destroying_outcome(destroyed, sent),
    }
}

/// What destroying a project comes to once its state is known.
pub open spec fn destroying_outcome<T, E>(
    destroyed: Result<Project<T>, E>,
    sent: Result<(), Error>,
) -> Result<(), Failure<E>> {
    match destroyed {
        Err(err) => Err(Failure::State(err)),
        Ok(_) => match sent {
            Err(err) => Err(Failure::Gateway(err)),
            Ok(()) => Ok(()),
        },
    }
}

impl DestroyProject {
    pub fn statement<T>(&self) -> (statement: Statement<'_, T>)
        ensures
            statement == (Statement::SelectProjectState::<T> { project_name: &self.project_name }),
    {
        FindProject { project_name: &self.project_name }.statement()
    }

    /// If there is such a project, the state that leads to its end is to be
    /// made from its state.
    pub fn project_found<T>(self, reply: Result<Option<Project<T>>, StatementError>) -> (r: Result<
        (Project<T>, DestroyingProject),
        Error,
    >)
        ensures
            match found(reply, ErrorKind::ProjectNotFound) {
                Ok(project) => r == Ok::<(Project<T>, DestroyingProject), Error>(
                    (
                        project,
                        DestroyingProject {
                            project_name: self.project_name,
                            account_name: self.account_name,
                        },
                    ),
                ),
                Err(err) => r == Err::<(Project<T>, DestroyingProject), Error>(err),
            },
    {
        match (FindProject { project_name: &self.project_name }).finish(reply) {
            Ok(project) => Ok(
                (
                    project,
                    DestroyingProject {
                        project_name: self.project_name,
                        account_name: self.account_name,
                    },
                ),
            ),
            Err(err) => Err(err),
        }
    }
}

impl DestroyingProject {
    /// If the project can be destroyed, the work is to be sent, and what comes
    /// of that is what comes of the operation. If it cannot, the error is the
    /// one that its state gave.
    pub fn destroyed<T, E>(self, destroyed: Result<Project<T>, E>) -> (r: Result<Work<T>, E>)
        ensures
            r == match destroyed {
                Ok(work) => Ok(
                    Work {
                        project_name: self.project_name,
                        account_name: self.account_name,
                        work,
                    },
                ),
                Err(err) => Err(err),
            },
            forall|sent: Result<(), Error>| #[trigger]
                destroying_outcome(destroyed, sent) == match (r, sent) {
                    (Err(err), _) => Err(Failure::State(err)),
                    (Ok(_), Err(err)) => Err(Failure::Gateway(err)),
                    (Ok(_), Ok(())) => Ok(()),
                },
    {
        match destroyed {
            Ok(work) => Ok(
                Work { project_name: self.project_name, account_name: self.account_name, work },
            ),
            Err(err) => Err(err),
        }
    }
}

impl<S> GatewayService<S> {
    /// Create a project with a fresh key: record it in its first state and send
    /// it to the worker. If there is a project of that name, the error is
    /// [`ErrorKind::ProjectAlreadyExists`]; if no worker takes it, it stays
    /// recorded and the error is [`ErrorKind::NotReady`].
    pub fn create_project<T>(&self, project_name: ProjectName, account_name: AccountName) -> (r:
        CreateProject<T>)
        ensures
            drawn(r.initial_key, INITIAL_KEY_LENGTH),
            alphanumeric_text(r.initial_key@, INITIAL_KEY_LENGTH as nat),
            begins(r, project_name, account_name, self@.args.prefix),
    {
        self.create_project_with_key(
            project_name,
            account_name,
            draw(INITIAL_KEY_LENGTH),
        )
    }

    /// Create a project with the key `initial_key`.
    pub fn create_project_with_key<T>(
        &self,
        project_name: ProjectName,
        account_name: AccountName,
        initial_key: String,
    ) -> (r: CreateProject<T>)
        ensures
            r.initial_key == initial_key,
            begins(r, project_name, account_name, self@.args.prefix),
    {
        let creating = ProjectCreating::new(
            project_name.clone(),
            self.args().prefix.clone(),
            initial_key.clone(),
        );
        let work = Work { project_name, account_name, work: Project::Creating(creating.clone()) };
        CreateProject { work, initial_key, project: Project::Creating(creating) }
    }

    /// Destroy a project: look up its state, and send the state that leads to
    /// its end to the worker. If there is no such project, the error is
    /// [`ErrorKind::ProjectNotFound`].
    pub fn destroy_project(&self, project_name: ProjectName, account_name: AccountName) -> (r:
        DestroyProject)
        ensures
            r == (DestroyProject { project_name, account_name }),
    {
        DestroyProject { project_name, account_name }
    }
}

/// `creation` records the project `project_name` of `account_name` in its first
/// state, with its key, and sends exactly what it records.
pub open spec fn begins<T>(
    creation: CreateProject<T>,
    project_name: ProjectName,
    account_name: AccountName,
    prefix: String,
) -> bool {
    &&& creation.project@ == ProjectView::<T>::Creating(
        CreatingView {
            project_name: project_name@,
            prefix: prefix@,
            initial_key: creation.initial_key@,
        },
    )
    &&& creation.work == Work { project_name, account_name, work: creation.project }
}

} // verus!
