//! The service itself: what it was started with and where it submits work.
use vstd::prelude::*;

use crate::error::{Error, ErrorKind};
use crate::types::{AccountName, Args, Project, ProjectName, Work};

verus! {

/// The gateway. `S` is the sending end of the channel by which work reaches
/// the worker.
pub struct GatewayService<S> {
    sender: Option<S>,
    args: Args,
}

/// What a [`GatewayService`] says.
pub struct ServiceView<S> {
    pub sender: Option<S>,
    pub args: Args,
}

impl<S> View for GatewayService<S> {
    type V = ServiceView<S>;

    closed spec fn view(&self) -> ServiceView<S> {
        ServiceView { sender: self.sender, args: self.args }
    }
}

/// A step of the start of the gateway.
#[derive(Debug, PartialEq, Eq)]
pub enum Startup {
    /// Create an empty database at this path.
    CreateDatabase(String),
    /// Connect to the database at this path.
    Connect(String),
    /// Apply the [`migrations`](crate::statement::migrations) that the database
    /// has not seen yet, in order. A database that has seen others, or that one
    /// of them was applied to only in part, is refused.
    Migrate,
}

/// The steps of the start with the database at the path `state`, in order:
/// `state_exists` tells whether there is one.
pub open spec fn startup(state: String, state_exists: bool) -> Seq<Startup> {
    (if state_exists {
        Seq::empty()
    } else {
        seq![Startup::CreateDatabase(state)]
    }) + seq![Startup::Connect(state), Startup::Migrate]
}

/// A service that was just started: it has no sender.
pub open spec fn fresh<S>(args: Args) -> ServiceView<S> {
    ServiceView { sender: None, args }
}

/// Work that is to be sent to the worker by `sender`.
pub struct Delivery<'s, S, T> {
    pub sender: &'s S,
    pub work: Work<T>,
}

/// What sending comes to, by `sender` and by whether the channel took the
/// work.
pub open spec fn send_outcome<S>(sender: Option<S>, accepted: bool) -> Result<(), Error> {
    if sender is Some && accepted {
        Ok(())
    } else {
        Err(Error::plain(ErrorKind::NotReady))
    }
}

/// The sender that the service has left once it has tried to send work by
/// `sender`: a channel that refuses work is closed, and is not tried again.
pub open spec fn sender_left<S>(sender: Option<S>, accepted: bool) -> Option<S> {
    if accepted {
        sender
    } else {
        None
    }
}

impl<S> GatewayService<S> {
    /// Initialize the service, and say how to bring up the database that it
    /// needs: `state_exists` tells whether there is one at the path in `args`.
    ///
    /// The steps are to be taken in order, and none may fail. The service has
    /// no worker yet.
    pub fn init(args: Args, state_exists: bool) -> (r: (Self, Vec<Startup>))
        ensures
            r.0@ == fresh::<S>(args),
            r.1@ == startup(args.state, state_exists),
    {
        let mut steps: Vec<Startup> = Vec::new();
        if !state_exists {
            steps.push(Startup::CreateDatabase(args.state.clone()));
        }
        steps.push(Startup::Connect(args.state.clone()));
        steps.push(Startup::Migrate);
        (GatewayService { sender: None, args }, steps)
    }

    /// What the service was started with.
    pub fn args(&self) -> (args: &Args)
        ensures
            *args == self@.args,
    {
        &self.args
    }

    /// What the states of a project work with: the container engine and the HTTP
    /// client given, and what the service was started with.
    pub fn context<'c, D, H>(&'c self, docker: &'c D, hyper: &'c H) -> (r: GatewayContext<
        'c,
        D,
        H,
    >)
        ensures
            r@ == (ContextView { docker: *docker, hyper: *hyper, args: self@.args }),
    {
        GatewayContext::new(docker, hyper, &self.args)
    }

    /// Set the sender to which work will be submitted. If `sender` is `None`,
    /// no further work will be submitted.
    pub fn set_sender(&mut self, sender: Option<S>) -> (r: Result<(), Error>)
        ensures
            r == Ok::<(), Error>(()),
            final(self)@ == (ServiceView { sender, ..old(self)@ }),
    {
        self.sender = sender;
        Ok(())
    }

    /// Send work to the sender set with [`set_sender`](GatewayService::set_sender).
    ///
    /// If none is set, nothing is sent and the error is
    /// [`ErrorKind::NotReady`]. Otherwise the caller sends the work and reports
    /// to [`delivered`](GatewayService::delivered) what came of it.
    pub fn send<T>(
        &self,
        project_name: ProjectName,
        account_name: AccountName,
        work: Project<T>,
    ) -> (r: Result<Delivery<'_, S, T>, Error>)
        ensures
            match self@.sender {
                Some(sender) => r == Ok::<Delivery<'_, S, T>, Error>(
                    (Delivery {
                        sender: &sender,
                        work: (Work { project_name, account_name, work }),
                    }),
                ),
                None => r == Err::<Delivery<'_, S, T>, Error>(Error::plain(ErrorKind::NotReady)),
            },
    {
        match &self.sender {
            Some(sender) => {
                let work = Work { project_name, account_name, work };
                Ok(Delivery { sender, work })
            },
            None => Err(Error::from_kind(ErrorKind::NotReady)),
        }
    }

    /// Finish [`send`](GatewayService::send): `accepted` tells whether the
    /// channel took the work.
    ///
    /// If it did not, because the receiving end was dropped or stopped, the
    /// error is [`ErrorKind::NotReady`] and the sender is given up. That is the
    /// sender that is set now: the caller sees to it that no other was set since
    /// [`send`](GatewayService::send) gave out the one that was tried.
    pub fn delivered(&mut self, accepted: bool) -> (r: Result<(), Error>)
        ensures
            r == send_outcome(old(self)@.sender, accepted),
            final(self)@ == (ServiceView {
                sender: sender_left(old(self)@.sender, accepted),
                ..old(self)@
            }),
            r is Ok <==> old(self)@.sender is Some && accepted,
            accepted ==> final(self)@.sender == old(self)@.sender,
            !accepted ==> final(self)@.sender is None,
    {
        if !accepted {
            self.sender = None;
        }
        if self.sender.is_some() {
            Ok(())
        } else {
            Err(Error::from_kind(ErrorKind::NotReady))
        }
    }
}

/// What the states of a project work with: the container engine, the HTTP
/// client, and what the gateway was started with.
pub struct GatewayContext<'c, D, H> {
    docker: &'c D,
    hyper: &'c H,
    args: &'c Args,
}

/// What a [`GatewayContext`] says.
pub struct ContextView<D, H> {
    pub docker: D,
    pub hyper: H,
    pub args: Args,
}

impl<'c, D, H> View for GatewayContext<'c, D, H> {
    type V = ContextView<D, H>;

    closed spec fn view(&self) -> ContextView<D, H> {
        ContextView { docker: *self.docker, hyper: *self.hyper, args: *self.args }
    }
}

impl<'c, D, H> GatewayContext<'c, D, H> {
    pub fn new(docker: &'c D, hyper: &'c H, args: &'c Args) -> (r: Self)
        ensures
            r@ == (ContextView { docker: *docker, hyper: *hyper, args: *args }),
    {
        GatewayContext { docker, hyper, args }
    }

    pub fn docker(&self) -> (docker: &'c D)
        ensures
            *docker == self@.docker,
    {
        self.docker
    }

    pub fn hyper(&self) -> (hyper: &'c H)
        ensures
            *hyper == self@.hyper,
    {
        self.hyper
    }

    pub fn args(&self) -> (args: &'c Args)
        ensures
            *args == self@.args,
    {
        self.args
    }
}

} // verus!
