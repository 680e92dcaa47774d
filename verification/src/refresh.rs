//! Refreshing all projects.
use vstd::prelude::*;

use crate::error::Error;
use crate::service::GatewayService;
use crate::types::{AccountName, Project, ProjectName, Work};

verus! {

/// What became of one project.
pub enum Fate<T> {
    /// Its state could not be refreshed.
    Unrefreshed,
    /// Its state was refreshed and sent to the worker, with that outcome.
    Refreshed { state: Project<T>, sent: Result<(), Error> },
}

/// What refreshing comes to, by the fates of the projects: the first failure
/// to send one ends it; that one cannot be refreshed does not.
pub open spec fn refresh_outcome<T>(fates: Seq<Fate<T>>) -> Result<(), Error>
    decreases fates.len(),
{
    if fates.len() == 0 {
        Ok(())
    } else {
        match fates[0] {
            Fate::Refreshed { sent: Err(err), .. } => Err(err),
            _ => refresh_outcome(fates.drop_first()),
        }
    }
}

/// The work that is submitted, in order. Where sending one fails, that one
/// comes last, though it did not reach the worker.
pub open spec fn submissions<T>(works: Seq<Work<T>>, fates: Seq<Fate<T>>) -> Seq<Work<T>>
    decreases works.len(),
{
    if works.len() == 0 || fates.len() == 0 {
        Seq::empty()
    } else {
        let rest = submissions(works.drop_first(), fates.drop_first());
        match fates[0] {
            Fate::Unrefreshed => rest,
            Fate::Refreshed { state, sent } => seq![Work { work: state, ..works[0] }] + (if sent is Ok {
                rest
            } else {
                Seq::empty()
            }),
        }
    }
}

/// The projects still to be refreshed.
pub struct Refresh<T> {
    // the first to be refreshed comes last
    stack: Vec<Work<T>>,
}

/// The state of one project is being refreshed.
pub struct Refreshing<T> {
    pub project_name: ProjectName,
    pub account_name: AccountName,
    pub rest: Refresh<T>,
}

/// The refreshed state of one project is being sent to the worker.
pub struct Submitting<T> {
    pub rest: Refresh<T>,
}

/// What is to be done with a project whose state was to be refreshed.
pub enum Refreshed<T> {
    /// Send this work to the worker.
    Submit(Work<T>, Submitting<T>),
    /// Leave it for now, and go on with the others.
    Skip(Refresh<T>),
}

impl<T> Refresh<T> {
    /// The projects still to be refreshed, in order.
    pub closed spec fn pending(self) -> Seq<Work<T>> {
        self.stack@.reverse()
    }

    /// The work that is submitted from here on, by the fates of the pending
    /// projects.
    pub open spec fn submissions(self, fates: Seq<Fate<T>>) -> Seq<Work<T>> {
        submissions(self.pending(), fates)
    }

    fn new(works: Vec<Work<T>>) -> (r: Self)
        ensures
            r.pending() == works@,
    {
        let ghost all = works@;
        let mut works = works;
        let mut stack: Vec<Work<T>> = Vec::new();
        while works.len() > 0
            invariant
                works@ + stack@.reverse() == all,
            decreases works.len(),
        {
            let ghost before = works@;
            let ghost stacked = stack@;
            match works.pop() {
                Some(work) => {
                    stack.push(work);
                    assert(before == works@.push(work));
                    assert(stack@.reverse() =~= seq![work] + stacked.reverse());
                    assert(works@ + stack@.reverse() =~= before + stacked.reverse());
                },
                None => {},
            }
        }
        assert(stack@.reverse() =~= all);
        Refresh { stack }
    }

    /// The next project: its state is to be refreshed. `None` if all projects
    /// are done, and refreshing has succeeded.
    pub fn next(self) -> (r: Option<(Project<T>, Refreshing<T>)>)
        ensures
            match r {
                Some((project, next)) => {
                    &&& self.pending().len() > 0
                    &&& self.pending()[0] == Work {
                        project_name: next.project_name,
                        account_name: next.account_name,
                        work: project,
                    }
                    &&& next.rest.pending() == self.pending().drop_first()
                    &&& forall|fates: Seq<Fate<T>>|
                        fates.len() > 0 ==> #[trigger] self.submissions(fates)
                            == next.submissions(fates)
                },
                None => self.pending().len() == 0,
            },
    {
        let mut stack = self.stack;
        let ghost before = stack@;
        match stack.pop() {
            Some(work) => {
                assert(before == stack@.push(work));
                assert(stack@.reverse() =~= before.reverse().drop_first());
                let rest = Refresh { stack };
                let next = Refreshing {
                    project_name: work.project_name,
                    account_name: work.account_name,
                    rest,
                };
                Some((work.work, next))
            },
            None => None,
        }
    }
}

impl<T> Refreshing<T> {
    /// The work that is submitted from here on, by the fates of this project and
    /// the pending ones.
    pub open spec fn submissions(self, fates: Seq<Fate<T>>) -> Seq<Work<T>> {
        match fates[0] {
            Fate::Unrefreshed => self.rest.submissions(fates.drop_first()),
            Fate::Refreshed { state, .. } => seq![
                Work {
                    project_name: self.project_name,
                    account_name: self.account_name,
                    work: state,
                },
            ] + (Submitting { rest: self.rest }).submissions(fates),
        }
    }

    /// A refreshed state is to be sent to the worker; a project that could not
    /// be refreshed is skipped.
    pub fn refreshed<X>(self, state: Result<Project<T>, X>) -> (r: Refreshed<T>)
        ensures
            r == match state {
                Ok(work) => Refreshed::Submit(
                    Work {
                        project_name: self.project_name,
                        account_name: self.account_name,
                        work,
                    },
                    Submitting { rest: self.rest },
                ),
                Err(_) => Refreshed::Skip(self.rest),
            },
            match r {
                Refreshed::Submit(work, next) => forall|fates: Seq<Fate<T>>|
                    fates.len() > 0 && fates[0] is Refreshed && Ok::<Project<T>, X>(
                        fates[0]->state,
                    ) == state ==> #[trigger] self.submissions(fates) == seq![work]
                        + next.submissions(fates),
                Refreshed::Skip(rest) => forall|fates: Seq<Fate<T>>|
                    fates.len() > 0 && fates[0] is Unrefreshed ==> {
                        &&& #[trigger] self.submissions(fates) == rest.submissions(
                            fates.drop_first(),
                        )
                        &&& refresh_outcome(fates) == refresh_outcome(fates.drop_first())
                    },
            },
    {
        match state {
            Ok(work) => Refreshed::Submit(
                Work { project_name: self.project_name, account_name: self.account_name, work },
                Submitting { rest: self.rest },
            ),
            Err(_) => Refreshed::Skip(self.rest),
        }
    }
}

impl<T> Submitting<T> {
    /// The work that is submitted after this one, by the fates of this project and
    /// the pending ones.
    pub open spec fn submissions(self, fates: Seq<Fate<T>>) -> Seq<Work<T>> {
        if fates[0]->sent is Ok {
            self.rest.submissions(fates.drop_first())
        } else {
            Seq::empty()
        }
    }

    /// If the work could not be sent, refreshing ends with that error.
    pub fn sent(self, sent: Result<(), Error>) -> (r: Result<Refresh<T>, Error>)
        ensures
            r == match sent {
                Ok(()) => Ok(self.rest),
                Err(err) => Err(err),
            },
            forall|fates: Seq<Fate<T>>|
                fates.len() > 0 && fates[0] is Refreshed && fates[0]->sent == sent ==> {
                    &&& #[trigger] self.submissions(fates) == match r {
                        Ok(rest) => rest.submissions(fates.drop_first()),
                        Err(_) => Seq::empty(),
                    }
                    &&& refresh_outcome(fates) == match r {
                        Ok(_) => refresh_outcome(fates.drop_first()),
                        Err(err) => Err(err),
                    }
                },
    {
        match sent {
            Ok(()) => Ok(self.rest),
            Err(err) => Err(err),
        }
    }
}

impl<S> GatewayService<S> {
    /// Goes through all projects, as [`iter_projects`](GatewayService::iter_projects)
    /// lists them, refreshing their state and queuing them up to be advanced if
    /// appropriate.
    pub fn refresh<T>(&self, projects: Vec<Work<T>>) -> (r: Refresh<T>)
        ensures
            r.pending() == projects@,
    {
        Refresh::new(projects)
    }
}

} // verus!
