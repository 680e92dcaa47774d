//! Passing a request on to a project.
use axum::http::header::{HeaderMap, HeaderValue};
use vstd::prelude::*;

use crate::error::{Error, ErrorKind, Failure, StatementError};
use crate::http::{
    append_header, authorization_name, basic_authorization, basic_credentials, before_fragment,
    header_bytes, header_entries, header_name, parse_uri, remove_header, uri_accepts,
    HEADER_NAMES_ALWAYS_TAKEN,
};
use crate::lookup::{found, ControlKeyFromProjectName, FindProject};
use crate::service::GatewayService;
use crate::statement::Statement;
use crate::types::{Project, ProjectName};

verus! {

/// The address that the gateway gives as the client's when it passes a request
/// on.
pub const CLIENT_IP: &'static str = "127.0.0.1";

/// `route` with a `/` in front, unless it has one.
pub open spec fn absolute(route: Seq<char>) -> Seq<char> {
    if route.len() > 0 && route[0] == '/' {
        route
    } else {
        seq!['/'] + route
    }
}

/// Where the project that runs at `target_ip` takes requests.
pub open spec fn control_url(target_ip: Seq<char>) -> Seq<char> {
    "http://"@ + target_ip + ":8001"@
}

/// The headers `entries` with the credentials of a project whose key is
/// `control_key`, in place of any others.
pub open spec fn authorized(
    entries: Map<Seq<char>, Seq<Seq<u8>>>,
    control_key: Seq<char>,
) -> Map<Seq<char>, Seq<Seq<u8>>> {
    entries.insert("authorization"@, seq![basic_credentials(control_key, ""@)])
}

/// What asking a project for its address comes to, where it is an error that
/// it has none.
pub open spec fn target_outcome<E>(target_ip: Result<Option<String>, E>) -> Result<
    String,
    Failure<E>,
> {
    match target_ip {
        Ok(Some(ip)) => Ok(ip),
        Ok(None) => Err(Failure::Gateway(Error::plain(ErrorKind::ProjectNotReady))),
        Err(err) => Err(Failure::State(err)),
    }
}

/// What passing a request on comes to, once there is such a project and before
/// the request is rewritten: the address and the key of the project.
pub open spec fn destination<E>(
    target_ip: Result<Option<String>, E>,
    control_key: Result<Option<String>, StatementError>,
) -> Result<(String, String), Failure<E>> {
    match target_outcome(target_ip) {
        Err(err) => Err(err),
        Ok(ip) => match found(control_key, ErrorKind::ProjectNotFound) {
            Err(err) => Err(Failure::Gateway(err)),
            Ok(key) => Ok((ip, key)),
        },
    }
}

/// What [`route`](GatewayService::route) comes to before the request is
/// rewritten: the address and the key of the project.
pub open spec fn route_outcome<T, E>(
    project: Result<Option<Project<T>>, StatementError>,
    target_ip: Result<Option<String>, E>,
    control_key: Result<Option<String>, StatementError>,
) -> Result<(String, String), Failure<E>> {
    match found(project, ErrorKind::ProjectNotFound) {
        Err(err) => Err(Failure::Gateway(err)),
        Ok(_) => destination(target_ip, control_key),
    }
}

/// A request is being passed on. The state of the project is being looked up.
pub struct Route<'a> {
    pub project_name: &'a ProjectName,
    pub route: String,
}

/// A request is being passed on. The state of the project is being asked for
/// the project's address.
pub struct RouteTarget<'a> {
    pub project_name: &'a ProjectName,
    pub route: String,
}

/// A request is being passed on. The key of the project is being looked up.
pub struct RouteKey<'a> {
    pub project_name: &'a ProjectName,
    pub route: String,
    pub target_ip: String,
}

/// A request is being passed on. The request is to be rewritten.
pub struct RouteRequest {
    pub route: String,
    pub target_ip: String,
    pub control_key: String,
}

/// A rewritten request is being passed on: its URI, where it goes, and which
/// address it is said to come from.
#[derive(Debug, PartialEq, Eq)]
pub struct Forward {
    pub uri: String,
    pub target_url: String,
    pub client_ip: &'static str,
}

/// The headers of a request take no more names.
#[derive(Clone, Copy, Debug, PartialEq, Eq, Structural)]
pub struct HeadersFull;

impl<'a> Route<'a> {
    pub fn statement<T>(&self) -> (statement: Statement<'a, T>)
        ensures
            statement == (Statement::SelectProjectState::<T> { project_name: self.project_name }),
    {
        FindProject { project_name: self.project_name }.statement()
    }

    /// If there is such a project, its state is to be asked for its address.
    pub fn project_found<T>(self, reply: Result<Option<Project<T>>, StatementError>) -> (r: Result<
        (Project<T>, RouteTarget<'a>),
        Error,
    >)
        ensures
            match found(reply, ErrorKind::ProjectNotFound) {
                Ok(project) => r == Ok::<(Project<T>, RouteTarget<'a>), Error>(
                    (project, RouteTarget { project_name: self.project_name, route: self.route }),
                ),
                Err(err) => r == Err::<(Project<T>, RouteTarget<'a>), Error>(err),
            },
    {
        match (FindProject { project_name: self.project_name }).finish(reply) {
            Ok(project) => Ok(
                (project, RouteTarget { project_name: self.project_name, route: self.route }),
            ),
            Err(err) => Err(err),
        }
    }
}

impl<'a> RouteTarget<'a> {
    /// If the project has an address, its key is to be looked up. If its state
    /// fails to tell, the error is the one that the state gave.
    pub fn target_found<E>(self, target_ip: Result<Option<String>, E>) -> (r: Result<
        RouteKey<'a>,
        Failure<E>,
    >)
        ensures
            match target_outcome(target_ip) {
                Ok(target_ip) => r == Ok::<RouteKey<'a>, Failure<E>>(
                    RouteKey { project_name: self.project_name, route: self.route, target_ip },
                ),
                Err(err) => r == Err::<RouteKey<'a>, Failure<E>>(err),
            },
            target_ip matches Ok(Some(ip)) ==> (r matches Ok(next) && next.target_ip == ip),
            forall|control_key| #[trigger]
                destination(target_ip, control_key) == match r {
                    Ok(next) => match next.outcome(control_key) {
                        Ok(target) => Ok(target),
                        Err(err) => Err(Failure::Gateway(err)),
                    },
                    Err(err) => Err(err),
                },
    {
        match target_ip {
            Ok(Some(target_ip)) => Ok(
                RouteKey { project_name: self.project_name, route: self.route, target_ip },
            ),
            Ok(None) => Err(Failure::Gateway(Error::from_kind(ErrorKind::ProjectNotReady))),
            Err(err) => Err(Failure::State(err)),
        }
    }
}

impl<'a> RouteKey<'a> {
    /// What the operation comes to from here on, before the request is
    /// rewritten.
    pub open spec fn outcome(self, control_key: Result<Option<String>, StatementError>) -> Result<
        (String, String),
        Error,
    > {
        match found(control_key, ErrorKind::ProjectNotFound) {
            Err(err) => Err(err),
            Ok(key) => Ok((self.target_ip, key)),
        }
    }

    pub fn statement<T>(&self) -> (statement: Statement<'a, T>)
        ensures
            statement == (Statement::SelectInitialKey::<T> { project_name: self.project_name }),
    {
        ControlKeyFromProjectName { project_name: self.project_name }.statement()
    }

    /// If there is a key, the request is to be rewritten.
    pub fn key_found(self, reply: Result<Option<String>, StatementError>) -> (r: Result<
        RouteRequest,
        Error,
    >)
        ensures
            match found(reply, ErrorKind::ProjectNotFound) {
                Ok(control_key) => r == Ok::<RouteRequest, Error>(
                    RouteRequest { route: self.route, target_ip: self.target_ip, control_key },
                ),
                Err(err) => r == Err::<RouteRequest, Error>(err),
            },
            self.outcome(reply) == match r {
                Ok(next) => Ok((next.target_ip, next.control_key)),
                Err(err) => Err(err),
            },
    {
        match (ControlKeyFromProjectName { project_name: self.project_name }).finish(reply) {
            Ok(control_key) => Ok(
                RouteRequest { route: self.route, target_ip: self.target_ip, control_key },
            ),
            Err(err) => Err(err),
        }
    }
}

/// Put `credentials` into the headers, in place of any others. The result is
/// `false` if the headers take no more names: then there are no credentials in
/// them.
pub fn replace_credentials(headers: &mut HeaderMap<HeaderValue>, credentials: HeaderValue) -> (done:
    bool)
    ensures
        done ==> header_entries(*final(headers)) == header_entries(*old(headers)).insert(
            "authorization"@,
            seq![header_bytes(credentials)],
        ),
        !done ==> header_entries(*final(headers)) == header_entries(*old(headers)).remove(
            "authorization"@,
        ),
        header_entries(*old(headers)).dom().len() <= HEADER_NAMES_ALWAYS_TAKEN ==> done,
{
    let name = authorization_name();
    proof {
        reveal_strlit("authorization");
        assert(header_name(name@));
    }
    remove_header(headers, name);
    let ghost removed = header_entries(*headers);
    let done = append_header(headers, name, credentials);
    proof {
        let before = header_entries(*old(headers));
        assert(removed.dom() =~= before.dom().remove(name@));
        assert(before.dom() =~= removed.dom() || before.dom() =~= removed.dom().insert(name@));
        if done {
            assert(header_entries(*headers) =~= before.insert(
                name@,
                seq![header_bytes(credentials)],
            ));
        }
    }
    done
}

/// The route with a `/` in front, unless it has one.
pub fn make_absolute(route: String) -> (r: String)
    ensures
        r@ == absolute(route@),
{
    if !route.as_str().is_empty() && route.as_str().get_char(0) == '/' {
        route
    } else {
        proof {
            reveal_strlit("/");
        }
        let r = "/".to_owned().concat(route.as_str());
        assert(r@ =~= seq!['/'] + route@);
        r
    }
}

impl RouteRequest {
    /// Whether the route is a URI. Only a request with such a route can be
    /// passed on.
    pub fn routable(&self) -> (routable: bool)
        ensures
            routable == uri_accepts(absolute(self.route@)),
    {
        let route = make_absolute(self.route.clone());
        parse_uri(route.as_str()).is_some()
    }

    /// Rewrite the request: its headers here, its URI and its destination in
    /// the result. The route has to be [`routable`](RouteRequest::routable).
    pub fn rewrite(self, headers: &mut HeaderMap<HeaderValue>) -> (r: Result<Forward, HeadersFull>)
        requires
            uri_accepts(absolute(self.route@)),
        ensures
            match r {
                Ok(forward) => {
                    &&& forward.uri@ == before_fragment(absolute(self.route@))
                    &&& forward.target_url@ == control_url(self.target_ip@)
                    &&& forward.client_ip@ == "127.0.0.1"@
                    &&& header_entries(*final(headers)) == authorized(
                        header_entries(*old(headers)),
                        self.control_key@,
                    )
                },
                Err(_) => {
                    &&& header_entries(*old(headers)).dom().len() > HEADER_NAMES_ALWAYS_TAKEN
                    &&& header_entries(*final(headers)) == header_entries(*old(headers)).remove(
                        "authorization"@,
                    )
                },
            },
    {
        let credentials = basic_authorization(self.control_key.as_str(), "");
        if !replace_credentials(headers, credentials) {
            return Err(HeadersFull);
        }
        let route = make_absolute(self.route);
        let uri = parse_uri(route.as_str()).unwrap();
        let target_url = "http://".to_owned().concat(self.target_ip.as_str()).concat(":8001");
        Ok(Forward { uri, target_url, client_ip: CLIENT_IP })
    }
}

impl Forward {
    /// Finish: the answer of the project is the result. If the request could
    /// not be passed on, or the project did not answer, the error is
    /// [`ErrorKind::ProjectUnavailable`].
    pub fn finish<R, X>(self, answer: Result<R, X>) -> (r: Result<R, Error>)
        ensures
            r == match answer {
                Ok(response) => Ok(response),
                Err(_) => Err(Error::plain(ErrorKind::ProjectUnavailable)),
            },
    {
        match answer {
            Ok(response) => Ok(response),
            Err(_) => Err(Error::from_kind(ErrorKind::ProjectUnavailable)),
        }
    }
}

impl<S> GatewayService<S> {
    /// Pass a request on to a project, at the path `route`.
    pub fn route<'a>(&self, project_name: &'a ProjectName, route: String) -> (r: Route<'a>)
        ensures
            r == (Route { project_name, route }),
    {
        Route { project_name, route }
    }
}

} // verus!
