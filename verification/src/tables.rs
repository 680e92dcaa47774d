//! What the database holds, and what the gateway's statements do to it.
//!
//! The tables are a mathematical model: the properties of the gateway that
//! reach over several statements are stated over it.
use vstd::prelude::*;

use crate::error::StatementError;
use crate::service::Startup;
use crate::statement::{BindingView, Statement};
use crate::types::{
    names_view, works_view, AccountName, Key, Project, ProjectName, ProjectView, Work, WorkView,
};

verus! {

/// A row of the table of accounts, without its name.
pub struct AccountRow {
    pub key: Seq<char>,
    pub super_user: bool,
}

/// A row of the table of projects, without its name.
pub struct ProjectRow<T> {
    pub account_name: Seq<char>,
    pub initial_key: Seq<char>,
    pub state: ProjectView<T>,
}

/// The two tables, each under its primary key, the name.
#[verifier::ext_equal]
pub struct Tables<T> {
    pub accounts: Map<Seq<char>, AccountRow>,
    pub projects: Map<Seq<char>, ProjectRow<T>>,
}

/// What the database answers to a statement it has carried out or, for
/// `Clash`, refused because of a primary key.
pub enum Answer<T> {
    State(Option<ProjectView<T>>),
    Text(Option<Seq<char>>),
    Flag(Option<bool>),
    Names(Seq<Seq<char>>),
    Works(Seq<WorkView<T>>),
    Done,
    Clash,
}

impl<T> Tables<T> {
    /// No accounts and no projects.
    pub open spec fn empty() -> Tables<T> {
        Tables { accounts: Map::empty(), projects: Map::empty() }
    }

    /// `names` are the projects of the account `owner`, each once.
    pub open spec fn lists_projects_of(self, owner: Seq<char>, names: Seq<Seq<char>>) -> bool {
        &&& names.no_duplicates()
        &&& forall|name: Seq<char>|
            names.contains(name) <==> (#[trigger] self.projects.contains_key(name)
                && self.projects[name].account_name == owner)
    }

    /// `works` are the rows of the table of projects, each once.
    pub open spec fn lists_projects(self, works: Seq<WorkView<T>>) -> bool {
        &&& forall|i: int, j: int|
            0 <= i < j < works.len() ==> #[trigger] works[i].project_name
                != #[trigger] works[j].project_name
        &&& forall|i: int|
            0 <= i < works.len() ==> {
                let work = #[trigger] works[i];
                &&& self.projects.contains_key(work.project_name)
                &&& self.projects[work.project_name].account_name == work.account_name
                &&& self.projects[work.project_name].state == work.work
            }
        &&& forall|name: Seq<char>| #[trigger]
            self.projects.contains_key(name) ==> exists|i: int|
                0 <= i < works.len() && (#[trigger] works[i]).project_name == name
    }

    /// The row of the account `name`, if there is one.
    pub open spec fn account(self, name: Seq<char>) -> Option<AccountRow> {
        if self.accounts.contains_key(name) {
            Some(self.accounts[name])
        } else {
            None
        }
    }

    /// The row of the project `name`, if there is one.
    pub open spec fn project(self, name: Seq<char>) -> Option<ProjectRow<T>> {
        if self.projects.contains_key(name) {
            Some(self.projects[name])
        } else {
            None
        }
    }

    /// These tables with `row` for the account `name`.
    pub open spec fn with_account(self, name: Seq<char>, row: AccountRow) -> Tables<T> {
        Tables { accounts: self.accounts.insert(name, row), ..self }
    }

    /// These tables with `row` for the project `name`.
    pub open spec fn with_project(self, name: Seq<char>, row: ProjectRow<T>) -> Tables<T> {
        Tables { projects: self.projects.insert(name, row), ..self }
    }

    /// The database, holding these tables, runs the SQL `sql` with `parameters`
    /// (or refuses it because of a primary key), answers `answer`, and then holds
    /// `after`. Of another SQL, or one with other parameters, nothing is known.
    pub open spec fn executes(
        self,
        sql: Seq<char>,
        parameters: Seq<BindingView<T>>,
        answer: Answer<T>,
        after: Tables<T>,
    ) -> bool {
        let one_text = parameters.len() == 1 && parameters[0] is Text;
        let first = parameters[0]->Text_0;
        let second = parameters[1]->Text_0;
        &&& (sql == "SELECT * FROM projects"@ && parameters.len() == 0) ==> {
            &&& answer matches Answer::Works(works) && self.lists_projects(works)
            &&& after == self
        }
        &&& (sql == "SELECT project_state FROM projects WHERE project_name=?1"@ && one_text) ==> {
            &&& answer == Answer::State(
                match self.project(first) {
                    Some(row) => Some(row.state),
                    None => None,
                },
            )
            &&& after == self
        }
        &&& (sql == "UPDATE projects SET project_state = ?1 WHERE project_name = ?2"@
            && parameters.len() == 2 && parameters[0] is State && parameters[1] is Text) ==> {
            &&& answer == Answer::<T>::Done
            &&& after == match self.project(second) {
                Some(row) => self.with_project(
                    second,
                    ProjectRow { state: parameters[0]->State_0@, ..row },
                ),
                None => self,
            }
        }
        &&& (sql == "SELECT key FROM accounts WHERE account_name = ?1"@ && one_text) ==> {
            &&& answer == Answer::<T>::Text(
                match self.account(first) {
                    Some(row) => Some(row.key),
                    None => None,
                },
            )
            &&& after == self
        }
        &&& (sql == "SELECT account_name FROM accounts WHERE key = ?1"@ && one_text) ==> {
            &&& answer matches Answer::Text(found) && match found {
                Some(name) => self.accounts.contains_key(name) && self.accounts[name].key == first,
                None => forall|name: Seq<char>| #[trigger]
                    self.accounts.contains_key(name) ==> self.accounts[name].key != first,
            }
            &&& after == self
        }
        &&& (sql == "SELECT initial_key FROM projects WHERE project_name = ?1"@ && one_text) ==> {
            &&& answer == Answer::<T>::Text(
                match self.project(first) {
                    Some(row) => Some(row.initial_key),
                    None => None,
                },
            )
            &&& after == self
        }
        &&& (sql == "INSERT INTO accounts (account_name, key) VALUES (?1, ?2)"@ && parameters.len()
            == 2 && parameters[0] is Text && parameters[1] is Text) ==> if self.account(
            first,
        ) is Some {
            &&& answer == Answer::<T>::Clash
            &&& after == self
        } else {
            &&& answer == Answer::<T>::Done
            &&& after == self.with_account(first, AccountRow { key: second, super_user: false })
        }
        &&& (sql == "SELECT super_user FROM accounts WHERE account_name = ?1"@ && one_text) ==> {
            &&& answer == Answer::<T>::Flag(
                match self.account(first) {
                    Some(row) => Some(row.super_user),
                    None => None,
                },
            )
            &&& after == self
        }
        &&& (sql == "UPDATE accounts SET super_user = ?1 WHERE account_name = ?2"@
            && parameters.len() == 2 && parameters[0] is Flag && parameters[1] is Text) ==> {
            &&& answer == Answer::<T>::Done
            &&& after == match self.account(second) {
                Some(row) => self.with_account(
                    second,
                    AccountRow { super_user: parameters[0]->Flag_0, ..row },
                ),
                None => self,
            }
        }
        &&& (sql == "SELECT project_name FROM projects WHERE account_name = ?1"@ && one_text) ==> {
            &&& answer matches Answer::Names(names) && self.lists_projects_of(first, names)
            &&& after == self
        }
        &&& (sql
            == "INSERT INTO projects (project_name, account_name, initial_key, project_state) VALUES (?1, ?2, ?3, ?4)"@
            && parameters.len() == 4 && parameters[0] is Text && parameters[1] is Text
            && parameters[2] is Text && parameters[3] is State) ==> if self.project(
            first,
        ) is Some {
            &&& answer == Answer::<T>::Clash
            &&& after == self
        } else {
            &&& answer == Answer::<T>::Done
            &&& after == self.with_project(
                first,
                ProjectRow {
                    account_name: second,
                    initial_key: parameters[2]->Text_0,
                    state: parameters[3]->State_0@,
                },
            )
        }
    }

    /// The database, holding these tables, carries out `statement` (or refuses
    /// it because of a primary key), answers `answer`, and then holds `after`:
    /// it runs the SQL of the statement with the values bound to its parameters.
    pub open spec fn runs<'a>(
        self,
        statement: Statement<'a, T>,
        answer: Answer<T>,
        after: Tables<T>,
    ) -> bool {
        self.executes(statement.sql(), statement.parameters(), answer, after)
    }
}

impl<T> Tables<T> {
    /// The database, holding these tables, carries out `statement` (or refuses
    /// it because of a primary key), a reply reports what it answered, and it
    /// then holds `after`.
    pub open spec fn answers<'a>(
        self,
        statement: Statement<'a, T>,
        reported: Option<Answer<T>>,
        after: Tables<T>,
    ) -> bool {
        reported matches Some(answer) && self.runs(statement, answer, after)
    }
}

/// A database: whether its tables are set up, and what they hold.
pub struct Database<T> {
    pub set_up: bool,
    pub tables: Tables<T>,
}

/// The databases that there are, by their paths, and the path of the one that
/// the gateway is connected to.
#[verifier::ext_equal]
pub struct Storage<T> {
    pub databases: Map<Seq<char>, Database<T>>,
    pub connected: Option<Seq<char>>,
}

impl<T> Storage<T> {
    /// What there is once `step` has been taken with success. A database that is there is not
    /// created anew, and setting up the tables changes no row.
    pub open spec fn after_step(self, step: Startup) -> Storage<T> {
        match step {
            Startup::CreateDatabase(path) => if self.databases.contains_key(path@) {
                self
            } else {
                Storage {
                    databases: self.databases.insert(
                        path@,
                        Database { set_up: false, tables: Tables::empty() },
                    ),
                    ..self
                }
            },
            Startup::Connect(path) => Storage { connected: Some(path@), ..self },
            Startup::Migrate => match self.connected {
                Some(path) => Storage {
                    databases: self.databases.insert(
                        path,
                        Database { set_up: true, ..self.databases[path] },
                    ),
                    ..self
                },
                None => self,
            },
        }
    }

    /// `step` can be taken with success: what is connected to is there, and what
    /// the migrations are applied to is connected to.
    pub open spec fn can_take(self, step: Startup) -> bool {
        match step {
            Startup::CreateDatabase(_) => true,
            Startup::Connect(path) => self.databases.contains_key(path@),
            Startup::Migrate => self.connected matches Some(path) && self.databases.contains_key(
                path,
            ),
        }
    }

    /// What there is once `steps` have been taken, one after the other.
    pub open spec fn after_steps(self, steps: Seq<Startup>) -> Storage<T>
        decreases steps.len(),
    {
        if steps.len() == 0 {
            self
        } else {
            self.after_step(steps[0]).after_steps(steps.drop_first())
        }
    }
}

/// The answer that a reply to an `INSERT` or an `UPDATE` reports, if it reports
/// one.
pub open spec fn written<T>(reply: Result<(), StatementError>) -> Option<Answer<T>> {
    match reply {
        Ok(()) => Some(Answer::Done),
        Err(err) => if err.is_clash() {
            Some(Answer::Clash)
        } else {
            None
        },
    }
}

/// The answer that a reply with at most one project state reports.
pub open spec fn state_read<T>(reply: Result<Option<Project<T>>, StatementError>) -> Option<
    Answer<T>,
> {
    match reply {
        Ok(Some(project)) => Some(Answer::State(Some(project@))),
        Ok(None) => Some(Answer::State(None)),
        Err(_) => None,
    }
}

/// The answer that a reply with at most one account key reports.
pub open spec fn key_read<T>(reply: Result<Option<Key>, StatementError>) -> Option<Answer<T>> {
    match reply {
        Ok(Some(key)) => Some(Answer::Text(Some(key@))),
        Ok(None) => Some(Answer::Text(None)),
        Err(_) => None,
    }
}

/// The answer that a reply with at most one account name reports.
pub open spec fn account_read<T>(reply: Result<Option<AccountName>, StatementError>) -> Option<
    Answer<T>,
> {
    match reply {
        Ok(Some(name)) => Some(Answer::Text(Some(name@))),
        Ok(None) => Some(Answer::Text(None)),
        Err(_) => None,
    }
}

/// The answer that a reply with at most one text reports.
pub open spec fn text_read<T>(reply: Result<Option<String>, StatementError>) -> Option<Answer<T>> {
    match reply {
        Ok(Some(text)) => Some(Answer::Text(Some(text@))),
        Ok(None) => Some(Answer::Text(None)),
        Err(_) => None,
    }
}

/// The answer that a reply with at most one flag reports.
pub open spec fn flag_read<T>(reply: Result<Option<bool>, StatementError>) -> Option<Answer<T>> {
    match reply {
        Ok(flag) => Some(Answer::Flag(flag)),
        Err(_) => None,
    }
}

/// The answer that a reply with a list of project names reports.
pub open spec fn names_read<T>(reply: Result<Vec<ProjectName>, StatementError>) -> Option<
    Answer<T>,
> {
    match reply {
        Ok(names) => Some(Answer::Names(names_view(names@))),
        Err(_) => None,
    }
}

/// The answer that a reply with a list of projects reports.
pub open spec fn works_read<T>(reply: Result<Vec<Work<T>>, StatementError>) -> Option<Answer<T>> {
    match reply {
        Ok(works) => Some(Answer::Works(works_view(works@))),
        Err(_) => None,
    }
}

} // verus!
