//! Opening a websocket to an app: the authentication that it takes, and the connection itself.
use super::{is_admin_connect, AdminConnect, HolochainRuntime};
use crate::auth::{
    find_auth, is_first_for, knows, no_two_alike, AppWebsocketAuth, AppWebsocketAuthView,
};
use crate::error::Error;
use crate::keystore::ConductorLairClient;
use crate::origins::AllowedOrigins;
use vstd::pervasive::cloned;
use vstd::prelude::*;

verus! {

/// How long an authentication token stays valid, in seconds.
pub const TOKEN_EXPIRY_SECS: u64 = 999999999;

/// The address that app interfaces are reached at.
pub const LOCALHOST: &'static str = "127.0.0.1";

/// The header that names the origin of a connection.
pub const ORIGIN_HEADER: &'static str = "Origin";

/// The app to authenticate with, and the origins that may connect to it.
#[derive(Debug, PartialEq)]
pub struct AuthRequest {
    pub app_id: String,
    pub allowed_origins: AllowedOrigins,
}

/// An interface to attach to the conductor.
#[derive(Debug, PartialEq)]
pub struct AttachAppInterface {
    /// The port to listen at; 0 for one that is free.
    pub port: u16,
    /// The address to bind to, where it is not the local one.
    pub danger_bind_addr: Option<String>,
    pub allowed_origins: AllowedOrigins,
    /// The one app that can be reached, where the interface is for one app.
    pub installed_app_id: Option<String>,
}

/// An authentication token to issue.
#[derive(Debug, PartialEq, Eq)]
pub struct IssueAppAuthToken {
    pub installed_app_id: String,
    pub expiry_seconds: u64,
    pub single_use: bool,
}

/// Where getting an authentication is: the call to make next, or how it ended.
#[derive(Debug, PartialEq)]
pub enum GetAppWebsocketAuth {
    /// Connect to the admin interface.
    ConnectAdmin { connect: AdminConnect, request: AuthRequest },
    /// Attach an interface for the app.
    AttachInterface { attach: AttachAppInterface, request: AuthRequest },
    /// Issue a token for the app.
    IssueToken { issue: IssueAppAuthToken, app_port: u16, request: AuthRequest },
    /// It is over.
    Done(Result<AppWebsocketAuth, Error>),
}

/// What came of a call. An interface is told by its port.
#[derive(Debug, PartialEq)]
pub enum AuthEvent {
    AdminConnected(Result<(), String>),
    InterfaceAttached(Result<u16, Error>),
    TokenIssued(Result<Vec<u8>, Error>),
}

impl AuthRequest {
    /// It is for the app and the origins given.
    pub open spec fn is_for(
        self,
        app_id: Seq<char>,
        allowed_origins: Option<Set<Seq<char>>>,
    ) -> bool {
        self.app_id@ == app_id && self.allowed_origins@ == allowed_origins
    }

    /// The authentication that the request ends with.
    pub open spec fn granted(self, app_port: u16, token: Seq<u8>) -> AppWebsocketAuthView {
        AppWebsocketAuthView {
            app_id: self.app_id@,
            app_websocket_port: app_port,
            allowed_origins: self.allowed_origins@,
            token,
        }
    }
}

/// The interface is for the app and the origins of the request, at any free port of this machine.
pub open spec fn is_attach(attach: AttachAppInterface, request: AuthRequest) -> bool {
    &&& attach.port == 0
    &&& attach.danger_bind_addr is None
    &&& attach.allowed_origins@ == request.allowed_origins@
    &&& attach.installed_app_id == Some(request.app_id)
}

/// The token is for the app of the request, for long and for many uses.
pub open spec fn is_issue(issue: IssueAppAuthToken, request: AuthRequest) -> bool {
    &&& issue.installed_app_id == request.app_id
    &&& issue.expiry_seconds == TOKEN_EXPIRY_SECS
    &&& !issue.single_use
}

/// Where getting an authentication begins, on a list and with the admin interface at the port: it
/// is over at once where the list has one, which is then the first of the list.
pub open spec fn is_beginning(
    get: GetAppWebsocketAuth,
    auths: Seq<AppWebsocketAuth>,
    admin_port: u16,
    app_id: Seq<char>,
    allowed_origins: Option<Set<Seq<char>>>,
) -> bool {
    if knows(auths, app_id, allowed_origins) {
        get matches GetAppWebsocketAuth::Done(Ok(auth)) && is_first_for(
            auth@,
            auths,
            app_id,
            allowed_origins,
        )
    } else {
        &&& get matches GetAppWebsocketAuth::ConnectAdmin { connect, request }
        &&& is_admin_connect(connect, admin_port)
        &&& request.is_for(app_id, allowed_origins)
    }
}

/// `after` is the list with one more authentication at its end.
pub open spec fn remembers(
    before: Seq<AppWebsocketAuth>,
    auth: AppWebsocketAuthView,
    after: Seq<AppWebsocketAuth>,
) -> bool {
    &&& after.len() == before.len() + 1
    &&& after.drop_last() == before
    &&& after.last()@ == auth
}

/// `next` is where getting the authentication is after the event, and `after` what the list is
/// then: an authentication that was issued is put on it. An event that does not answer the
/// call that it is at changes nothing.
pub open spec fn steps(
    get: GetAppWebsocketAuth,
    event: AuthEvent,
    next: GetAppWebsocketAuth,
    before: Seq<AppWebsocketAuth>,
    after: Seq<AppWebsocketAuth>,
) -> bool {
    match (get, event) {
        (
            GetAppWebsocketAuth::ConnectAdmin { request, .. },
            AuthEvent::AdminConnected(connected),
        ) => {
            &&& after == before
            &&& match connected {
                Ok(()) => next matches GetAppWebsocketAuth::AttachInterface {
                    attach,
                    request: kept,
                } && kept == request && is_attach(attach, request),
                Err(cause) => next == GetAppWebsocketAuth::Done(
                    Err(Error::WebsocketConnectionError(cause)),
                ),
            }
        },
        (
            GetAppWebsocketAuth::AttachInterface { request, .. },
            AuthEvent::InterfaceAttached(attached),
        ) => {
            &&& after == before
            &&& match attached {
                Ok(port) => next matches GetAppWebsocketAuth::IssueToken {
                    issue,
                    app_port,
                    request: kept,
                } && kept == request && app_port == port && is_issue(issue, request),
                Err(error) => next == GetAppWebsocketAuth::Done(Err(error)),
            }
        },
        (
            GetAppWebsocketAuth::IssueToken { app_port, request, .. },
            AuthEvent::TokenIssued(issued),
        ) => match issued {
            Ok(token) => {
                &&& next matches GetAppWebsocketAuth::Done(Ok(auth))
                &&& auth@ == request.granted(app_port, token@)
                &&& remembers(before, auth@, after)
            },
            Err(error) => next == GetAppWebsocketAuth::Done(Err(error)) && after == before,
        },
        _ => next == get && after == before,
    }
}

impl GetAppWebsocketAuth {
    /// Takes what came of the call that it is at, and gives where it is then. The list is that of
    /// the runtime. That no two authentications are alike takes that nothing else puts any on it
    /// meanwhile.
    pub fn advance(
        self,
        event: AuthEvent,
        auths: &mut Vec<AppWebsocketAuth>,
    ) -> (next: GetAppWebsocketAuth)
        ensures
            steps(self, event, next, old(auths)@, final(auths)@),
    {
        match (self, event) {
            (
                GetAppWebsocketAuth::ConnectAdmin { request, .. },
                AuthEvent::AdminConnected(connected),
            ) => match connected {
                Ok(()) => {
                    let attach = AttachAppInterface {
                        port: 0,
                        danger_bind_addr: None,
                        allowed_origins: request.allowed_origins.clone(),
                        installed_app_id: Some(request.app_id.clone()),
                    };
                    GetAppWebsocketAuth::AttachInterface { attach, request }
                },
                Err(cause) => GetAppWebsocketAuth::Done(
                    Err(Error::WebsocketConnectionError(cause)),
                ),
            },
            (
                GetAppWebsocketAuth::AttachInterface { request, .. },
                AuthEvent::InterfaceAttached(attached),
            ) => match attached {
                Ok(app_port) => {
                    let issue = IssueAppAuthToken {
                        installed_app_id: request.app_id.clone(),
                        expiry_seconds: TOKEN_EXPIRY_SECS,
                        single_use: false,
                    };
                    GetAppWebsocketAuth::IssueToken { issue, app_port, request }
                },
                Err(error) => GetAppWebsocketAuth::Done(Err(error)),
            },
            (
                GetAppWebsocketAuth::IssueToken { app_port, request, .. },
                AuthEvent::TokenIssued(issued),
            ) => match issued {
                Ok(token) => {
                    let auth = AppWebsocketAuth {
                        app_id: request.app_id,
                        app_websocket_port: app_port,
                        allowed_origins: request.allowed_origins,
                        token,
                    };
                    auths.push(auth.clone());
                    assert(auths@.drop_last() =~= old(auths)@);
                    GetAppWebsocketAuth::Done(Ok(auth))
                },
                Err(error) => GetAppWebsocketAuth::Done(Err(error)),
            },
            (get, _) => get,
        }
    }
}

impl<P, K, S, C> HolochainRuntime<P, K, S, C> {
    /// Begins to get an authentication for the app and the origins. One that was issued before is
    /// given again.
    pub fn get_app_websocket_auth(
        &self,
        app_id: &String,
        allowed_origins: AllowedOrigins,
    ) -> (get: GetAppWebsocketAuth)
        ensures
            is_beginning(
                get,
                self.apps_websockets_auths@,
                self.admin_port,
                app_id@,
                allowed_origins@,
            ),
    {
        match find_auth(&self.apps_websockets_auths, app_id, &allowed_origins) {
            Some(auth) => GetAppWebsocketAuth::Done(Ok(auth)),
            None => GetAppWebsocketAuth::ConnectAdmin {
                connect: self.admin_websocket(),
                request: AuthRequest { app_id: app_id.clone(), allowed_origins },
            },
        }
    }
}

/// A connection to open to an app interface.
#[derive(Debug, PartialEq, Eq)]
pub struct AppConnect<C> {
    pub host: &'static str,
    pub port: u16,
    /// The token to authenticate with.
    pub token: Vec<u8>,
    /// What signs the calls that are made over the connection.
    pub signer: ConductorLairClient<C>,
}

/// Where opening an app websocket is: the call to make next, or how it ended.
#[derive(Debug, PartialEq)]
pub enum OpenAppWebsocket<C> {
    /// Get an authentication.
    Authenticate {
        get: GetAppWebsocketAuth,
        allowed_origins: AllowedOrigins,
        signer: ConductorLairClient<C>,
    },
    /// Set the header of the connection to the origin.
    SetOrigin { header: &'static str, origin: String, connect: AppConnect<C> },
    /// Connect, with the header where one was set.
    Connect { connect: AppConnect<C> },
    /// It is over.
    Done(Result<(), Error>),
}

/// What came of a call.
#[derive(Debug, PartialEq)]
pub enum OpenEvent {
    Authenticate(AuthEvent),
    OriginSet(Result<(), Error>),
    Connected(Result<(), String>),
}

/// The connection is to the interface of the authentication, with its token, and with the signer.
pub open spec fn is_app_connect<C>(
    connect: AppConnect<C>,
    auth: AppWebsocketAuthView,
    signer: ConductorLairClient<C>,
) -> bool {
    &&& connect.host == LOCALHOST
    &&& connect.port == auth.app_websocket_port
    &&& connect.token@ == auth.token
    &&& connect.signer == signer
}

/// Connecting begins with naming the first origin of the list, where there is one.
pub open spec fn connects<C>(
    next: OpenAppWebsocket<C>,
    auth: AppWebsocketAuthView,
    allowed_origins: AllowedOrigins,
    signer: ConductorLairClient<C>,
) -> bool {
    match allowed_origins {
        AllowedOrigins::Origins(origins) if origins@.len() > 0 => {
            &&& next matches OpenAppWebsocket::SetOrigin { header, origin, connect }
            &&& header == ORIGIN_HEADER
            &&& origin == origins@[0]
            &&& is_app_connect(connect, auth, signer)
        },
        _ => next matches OpenAppWebsocket::Connect { connect } && is_app_connect(
            connect,
            auth,
            signer,
        ),
    }
}

/// Where opening the websocket is once getting the authentication is at `got`.
pub open spec fn goes_on<C>(
    got: GetAppWebsocketAuth,
    allowed_origins: AllowedOrigins,
    signer: ConductorLairClient<C>,
    next: OpenAppWebsocket<C>,
) -> bool {
    match got {
        GetAppWebsocketAuth::Done(Ok(auth)) => connects(next, auth@, allowed_origins, signer),
        GetAppWebsocketAuth::Done(Err(error)) => next == OpenAppWebsocket::<C>::Done(Err(error)),
        _ => next == (OpenAppWebsocket::Authenticate { get: got, allowed_origins, signer }),
    }
}

/// Where opening a websocket to the app begins. What signs is the Lair client of the keystore of
/// the conductor of the runtime.
pub open spec fn opens<P, K, S, C: Clone>(
    open: OpenAppWebsocket<C>,
    runtime: HolochainRuntime<P, K, S, C>,
    app_id: Seq<char>,
    allowed_origins: AllowedOrigins,
) -> bool {
    exists|get: GetAppWebsocketAuth, signer: ConductorLairClient<C>|
        {
            &&& #[trigger] is_beginning(
                get,
                runtime.apps_websockets_auths@,
                runtime.admin_port,
                app_id,
                allowed_origins@,
            )
            &&& cloned(runtime.conductor_handle, signer.conductor)
            &&& #[trigger] goes_on(get, allowed_origins, signer, open)
        }
}

/// `next` is where opening the websocket is after the event, and `after` what the list is then. An
/// event that does not answer the call that it is at changes nothing.
pub open spec fn open_steps<C>(
    open: OpenAppWebsocket<C>,
    event: OpenEvent,
    next: OpenAppWebsocket<C>,
    before: Seq<AppWebsocketAuth>,
    after: Seq<AppWebsocketAuth>,
) -> bool {
    match (open, event) {
        (
            OpenAppWebsocket::Authenticate { get, allowed_origins, signer },
            OpenEvent::Authenticate(event),
        ) => exists|got: GetAppWebsocketAuth|
            #[trigger] steps(get, event, got, before, after) && goes_on(
                got,
                allowed_origins,
                signer,
                next,
            ),
        (OpenAppWebsocket::SetOrigin { connect, .. }, OpenEvent::OriginSet(set)) => {
            &&& after == before
            &&& match set {
                Ok(()) => next == (OpenAppWebsocket::Connect { connect }),
                Err(error) => next == OpenAppWebsocket::<C>::Done(Err(error)),
            }
        },
        (OpenAppWebsocket::Connect { .. }, OpenEvent::Connected(connected)) => {
            &&& after == before
            &&& match connected {
                Ok(()) => next matches OpenAppWebsocket::Done(Ok(_)),
                Err(cause) => next == OpenAppWebsocket::<C>::Done(
                    Err(Error::WebsocketConnectionError(cause)),
                ),
            }
        },
        _ => next == open && after == before,
    }
}

fn go_on<C>(
    got: GetAppWebsocketAuth,
    allowed_origins: AllowedOrigins,
    signer: ConductorLairClient<C>,
) -> (next: OpenAppWebsocket<C>)
    ensures
        goes_on(got, allowed_origins, signer, next),
{
    match got {
        GetAppWebsocketAuth::Done(Ok(auth)) => {
            let connect = AppConnect {
                host: LOCALHOST,
                port: auth.app_websocket_port,
                token: auth.token,
                signer,
            };
            match allowed_origins.first_origin() {
                Some(origin) => OpenAppWebsocket::SetOrigin {
                    header: ORIGIN_HEADER,
                    origin,
                    connect,
                },
                None => OpenAppWebsocket::Connect { connect },
            }
        },
        GetAppWebsocketAuth::Done(Err(error)) => OpenAppWebsocket::Done(Err(error)),
        get => OpenAppWebsocket::Authenticate { get, allowed_origins, signer },
    }
}

impl<C> OpenAppWebsocket<C> {
    /// Takes what came of the call that it is at, and gives where it is then. The list is that of
    /// the runtime.
    pub fn advance(
        self,
        event: OpenEvent,
        auths: &mut Vec<AppWebsocketAuth>,
    ) -> (next: OpenAppWebsocket<C>)
        ensures
            open_steps(self, event, next, old(auths)@, final(auths)@),
    {
        match (self, event) {
            (
                OpenAppWebsocket::Authenticate { get, allowed_origins, signer },
                OpenEvent::Authenticate(event),
            ) => go_on(get.advance(event, auths), allowed_origins, signer),
            (
                OpenAppWebsocket::SetOrigin { connect, .. },
                OpenEvent::OriginSet(set),
            ) => match set {
                Ok(()) => OpenAppWebsocket::Connect { connect },
                Err(error) => OpenAppWebsocket::Done(Err(error)),
            },
            (OpenAppWebsocket::Connect { .. }, OpenEvent::Connected(connected)) => match connected {
                Ok(()) => OpenAppWebsocket::Done(Ok(())),
                Err(cause) => OpenAppWebsocket::Done(Err(Error::WebsocketConnectionError(cause))),
            },
            (open, _) => open,
        }
    }
}

impl<P, K, S, C: Clone> HolochainRuntime<P, K, S, C> {
    /// Begins to open a websocket to the app.
    pub fn app_websocket(
        &self,
        app_id: String,
        allowed_origins: AllowedOrigins,
    ) -> (open: OpenAppWebsocket<C>)
        ensures
            opens(open, *self, app_id@, allowed_origins),
    {
        let get = self.get_app_websocket_auth(&app_id, allowed_origins.clone());
        let signer = ConductorLairClient { conductor: self.conductor_handle.clone() };
        go_on(get, allowed_origins, signer)
    }
}

/// The states that getting an authentication goes through, the events that take it from each to
/// the next, and what the list is at each.
pub open spec fn is_run(
    states: Seq<GetAppWebsocketAuth>,
    events: Seq<AuthEvent>,
    lists: Seq<Seq<AppWebsocketAuth>>,
) -> bool {
    &&& states.len() == events.len() + 1
    &&& lists.len() == states.len()
    &&& forall|i: int|
        0 <= i < events.len() ==> steps(
            states[i],
            #[trigger] events[i],
            states[i + 1],
            lists[i],
            lists[i + 1],
        )
}

/// What holds of getting an authentication at any point, of the list that it began with and the
/// list as it is.
pub open spec fn keeps_list(
    get: GetAppWebsocketAuth,
    first: Seq<AppWebsocketAuth>,
    now: Seq<AppWebsocketAuth>,
    app_id: Seq<char>,
    allowed_origins: Option<Set<Seq<char>>>,
) -> bool {
    match get {
        GetAppWebsocketAuth::ConnectAdmin { request, .. } => now == first && !knows(
            first,
            app_id,
            allowed_origins,
        ) && request.is_for(app_id, allowed_origins),
        GetAppWebsocketAuth::AttachInterface { request, .. } => now == first && !knows(
            first,
            app_id,
            allowed_origins,
        ) && request.is_for(app_id, allowed_origins),
        GetAppWebsocketAuth::IssueToken { request, .. } => now == first && !knows(
            first,
            app_id,
            allowed_origins,
        ) && request.is_for(app_id, allowed_origins),
        GetAppWebsocketAuth::Done(Ok(auth)) => auth@.is_for(app_id, allowed_origins) && if knows(
            first,
            app_id,
            allowed_origins,
        ) {
            now == first && is_first_for(
                auth@,
                first,
                app_id,
                allowed_origins,
            )
        } else {
            remembers(first, auth@, now)
        },
        GetAppWebsocketAuth::Done(Err(_)) => now == first && !knows(
            first,
            app_id,
            allowed_origins,
        ),
    }
}

/// The list grows by an authentication exactly where one was issued, which is for the app and the
/// origins that were asked for; until then, and where getting one fails, the list stays as it was.
pub proof fn law_list_grows_by_what_was_issued(
    admin_port: u16,
    app_id: Seq<char>,
    allowed_origins: Option<Set<Seq<char>>>,
    states: Seq<GetAppWebsocketAuth>,
    events: Seq<AuthEvent>,
    lists: Seq<Seq<AppWebsocketAuth>>,
    i: int,
)
    requires
        is_run(states, events, lists),
        is_beginning(states[0], lists[0], admin_port, app_id, allowed_origins),
        0 <= i < states.len(),
    ensures
        keeps_list(states[i], lists[0], lists[i], app_id, allowed_origins),
    decreases i,
{
    if i > 0 {
        law_list_grows_by_what_was_issued(
            admin_port,
            app_id,
            allowed_origins,
            states,
            events,
            lists,
            i - 1,
        );
        assert(steps(states[i - 1], events[i - 1], states[i], lists[i - 1], lists[i]));
    }
}

/// The list begins with the earlier one.
pub open spec fn extends(later: Seq<AppWebsocketAuth>, earlier: Seq<AppWebsocketAuth>) -> bool {
    &&& earlier.len() <= later.len()
    &&& forall|k: int| 0 <= k < earlier.len() ==> #[trigger] later[k] == earlier[k]
}

/// Once an authentication was given, asking for one for the same app and the same origins is
/// answered with the same authentication, and without any call, on the list as it was left and on
/// every later one that begins with it.
pub proof fn law_second_request_is_answered_from_the_list(
    admin_port: u16,
    app_id: Seq<char>,
    allowed_origins: Option<Set<Seq<char>>>,
    states: Seq<GetAppWebsocketAuth>,
    events: Seq<AuthEvent>,
    lists: Seq<Seq<AppWebsocketAuth>>,
    later: Seq<AppWebsocketAuth>,
    later_port: u16,
    again: GetAppWebsocketAuth,
)
    requires
        is_run(states, events, lists),
        is_beginning(states[0], lists[0], admin_port, app_id, allowed_origins),
        states.last() matches GetAppWebsocketAuth::Done(Ok(_)),
        extends(later, lists.last()),
        is_beginning(again, later, later_port, app_id, allowed_origins),
    ensures
        states.last() matches GetAppWebsocketAuth::Done(Ok(auth)) && again matches
            GetAppWebsocketAuth::Done(Ok(same)) && same@ == auth@,
{
    let last = states.len() - 1;
    law_list_grows_by_what_was_issued(
        admin_port,
        app_id,
        allowed_origins,
        states,
        events,
        lists,
        last,
    );
    let auth = states.last()->Done_0->Ok_0@;
    let old_auths = lists[0];
    let new_auths = lists.last();
    if !knows(old_auths, app_id, allowed_origins) {
        assert(new_auths[new_auths.len() - 1]@.is_for(app_id, allowed_origins));
        assert forall|j: int| 0 <= j < old_auths.len() implies !(
        #[trigger] new_auths[j])@.is_for(app_id, allowed_origins) by {
            assert(new_auths.drop_last()[j] == new_auths[j]);
            assert(old_auths[j] == new_auths[j]);
        }
    }
    let later_auths = later;
    assert(is_first_for(auth, new_auths, app_id, allowed_origins));
    lemma_first_stays_first(auth, new_auths, later_auths, app_id, allowed_origins);
    lemma_first_is_unique(auth, again->Done_0->Ok_0@, later_auths, app_id, allowed_origins);
}

/// What is first for the app and the origins stays so when the list grows.
proof fn lemma_first_stays_first(
    auth: AppWebsocketAuthView,
    earlier: Seq<AppWebsocketAuth>,
    later: Seq<AppWebsocketAuth>,
    app_id: Seq<char>,
    allowed_origins: Option<Set<Seq<char>>>,
)
    requires
        is_first_for(auth, earlier, app_id, allowed_origins),
        extends(later, earlier),
    ensures
        is_first_for(auth, later, app_id, allowed_origins),
        knows(later, app_id, allowed_origins),
{
    let i = choose|i: int|
        {
            &&& 0 <= i < earlier.len()
            &&& (#[trigger] earlier[i])@ == auth
            &&& auth.is_for(app_id, allowed_origins)
            &&& forall|j: int|
                0 <= j < i ==> !(#[trigger] earlier[j])@.is_for(app_id, allowed_origins)
        };
    assert(later[i]@ == auth);
    assert forall|j: int| 0 <= j < i implies !(#[trigger] later[j])@.is_for(
        app_id,
        allowed_origins,
    ) by {
        assert(earlier[j] == later[j]);
    }
}

/// One request for an authentication, from its beginning to where it is.
pub struct AuthCall {
    pub admin_port: u16,
    pub app_id: Seq<char>,
    pub allowed_origins: Option<Set<Seq<char>>>,
    pub states: Seq<GetAppWebsocketAuth>,
    pub events: Seq<AuthEvent>,
    pub lists: Seq<Seq<AppWebsocketAuth>>,
}

impl AuthCall {
    /// It goes by what getting an authentication does.
    pub open spec fn is_valid(self) -> bool {
        &&& is_run(self.states, self.events, self.lists)
        &&& is_beginning(
            self.states[0],
            self.lists[0],
            self.admin_port,
            self.app_id,
            self.allowed_origins,
        )
    }

    /// The list that it began with.
    pub open spec fn first_list(self) -> Seq<AppWebsocketAuth> {
        self.lists[0]
    }

    /// The list that it left.
    pub open spec fn last_list(self) -> Seq<AppWebsocketAuth> {
        self.lists.last()
    }
}

/// The requests were made in turn, each on the list that the one before it left, on one runtime or
/// on several that share the list. This is what holding a lock on the list from the beginning of a
/// request to its end makes of requests that come at the same time.
pub open spec fn are_in_turn(calls: Seq<AuthCall>) -> bool {
    &&& forall|i: int| 0 <= i < calls.len() ==> (#[trigger] calls[i]).is_valid()
    &&& forall|i: int, j: int|
        0 <= i < calls.len() && j == i + 1 && j < calls.len() ==> (#[trigger] calls[j]).first_list()
            == (#[trigger] calls[i]).last_list()
}

/// Of two requests for the same app and the same origins, with any requests between them, of which
/// the earlier ended with an authentication, the later ends with the same one: the same app, port,
/// origins and token. It makes no call, so that it attaches no interface and issues no token, and
/// it leaves the list as it was.
pub proof fn law_equal_requests_get_one_authentication(calls: Seq<AuthCall>, i: int, j: int)
    requires
        are_in_turn(calls),
        0 <= i < j < calls.len(),
        calls[i].app_id == calls[j].app_id,
        calls[i].allowed_origins == calls[j].allowed_origins,
        calls[i].states.last() matches GetAppWebsocketAuth::Done(Ok(_)),
    ensures
        calls[i].states.last() matches GetAppWebsocketAuth::Done(Ok(auth))
            && calls[j].states.last() matches GetAppWebsocketAuth::Done(Ok(same)) && same@ == auth@,
        forall|k: int| 0 <= k < calls[j].states.len() ==> #[trigger] calls[j].states[k] is Done,
        calls[j].last_list() == calls[j].first_list(),
{
    lemma_list_only_grows(calls, i, j);
    let call = calls[j];
    assert(calls[i].is_valid() && call.is_valid());
    law_second_request_is_answered_from_the_list(
        calls[i].admin_port,
        calls[i].app_id,
        calls[i].allowed_origins,
        calls[i].states,
        calls[i].events,
        calls[i].lists,
        call.lists[0],
        call.admin_port,
        call.states[0],
    );
    assert forall|k: int| 0 <= k < call.states.len() implies #[trigger] call.states[k]
        == call.states[0] && call.lists[k] == call.lists[0] by {
        lemma_over_stays_over(call, k);
    }
    assert(call.states[call.states.len() - 1] == call.states[0]);
}

/// A request that begins with being over stays there.
proof fn lemma_over_stays_over(call: AuthCall, k: int)
    requires
        call.is_valid(),
        call.states[0] is Done,
        0 <= k < call.states.len(),
    ensures
        call.states[k] == call.states[0],
        call.lists[k] == call.lists[0],
    decreases k,
{
    if k > 0 {
        lemma_over_stays_over(call, k - 1);
        assert(steps(
            call.states[k - 1],
            call.events[k - 1],
            call.states[k],
            call.lists[k - 1],
            call.lists[k],
        ));
    }
}

/// The list that a later request begins with begins with the list that an earlier one left.
proof fn lemma_list_only_grows(calls: Seq<AuthCall>, i: int, j: int)
    requires
        are_in_turn(calls),
        0 <= i < j < calls.len(),
    ensures
        extends(calls[j].first_list(), calls[i].last_list()),
    decreases j - i,
{
    assert(calls[j].first_list() == calls[j - 1].last_list());
    if i < j - 1 {
        lemma_list_only_grows(calls, i, j - 1);
        let call = calls[j - 1];
        assert(call.is_valid());
        law_list_grows_by_what_was_issued(
            call.admin_port,
            call.app_id,
            call.allowed_origins,
            call.states,
            call.events,
            call.lists,
            call.states.len() - 1,
        );
        assert forall|k: int|
            0 <= k < call.first_list().len() implies #[trigger] call.last_list()[k]
            == call.first_list()[k] by {
            if call.lists.last() != call.lists[0] {
                assert(call.last_list().drop_last()[k] == call.last_list()[k]);
            }
        }
    }
}

/// How far getting an authentication is.
pub open spec fn stage(get: GetAppWebsocketAuth) -> nat {
    match get {
        GetAppWebsocketAuth::ConnectAdmin { .. } => 0,
        GetAppWebsocketAuth::AttachInterface { .. } => 1,
        GetAppWebsocketAuth::IssueToken { .. } => 2,
        GetAppWebsocketAuth::Done(_) => 3,
    }
}

/// One request attaches at most one interface and has at most one token issued: once either call
/// was answered, the request is never at it again.
pub proof fn law_request_attaches_and_issues_at_most_once(
    states: Seq<GetAppWebsocketAuth>,
    events: Seq<AuthEvent>,
    lists: Seq<Seq<AppWebsocketAuth>>,
    i: int,
    j: int,
)
    requires
        is_run(states, events, lists),
        0 <= i < j < states.len(),
    ensures
        stage(states[i]) <= stage(states[j]),
        states[i] is AttachInterface && events[i] is InterfaceAttached ==> !(
        states[j] is AttachInterface),
        states[i] is IssueToken && events[i] is TokenIssued ==> !(states[j] is IssueToken),
    decreases j - i,
{
    assert(steps(states[i], events[i], states[i + 1], lists[i], lists[i + 1]));
    if i + 1 < j {
        law_request_attaches_and_issues_at_most_once(states, events, lists, i + 1, j);
    }
}

proof fn lemma_first_is_unique(
    one: AppWebsocketAuthView,
    other: AppWebsocketAuthView,
    auths: Seq<AppWebsocketAuth>,
    app_id: Seq<char>,
    allowed_origins: Option<Set<Seq<char>>>,
)
    requires
        is_first_for(one, auths, app_id, allowed_origins),
        is_first_for(other, auths, app_id, allowed_origins),
    ensures
        one == other,
{
}

/// Getting an authentication does not change what is given for another app or for other origins.
pub proof fn law_other_requests_are_answered_as_before(
    admin_port: u16,
    app_id: Seq<char>,
    allowed_origins: Option<Set<Seq<char>>>,
    states: Seq<GetAppWebsocketAuth>,
    events: Seq<AuthEvent>,
    lists: Seq<Seq<AppWebsocketAuth>>,
    other_app_id: Seq<char>,
    other_origins: Option<Set<Seq<char>>>,
)
    requires
        is_run(states, events, lists),
        is_beginning(states[0], lists[0], admin_port, app_id, allowed_origins),
        other_app_id != app_id || other_origins != allowed_origins,
    ensures
        forall|other: GetAppWebsocketAuth|
            is_beginning(other, lists[0], admin_port, other_app_id, other_origins) == is_beginning(
                other,
                lists.last(),
                admin_port,
                other_app_id,
                other_origins,
            ),
{
    let last = states.len() - 1;
    law_list_grows_by_what_was_issued(
        admin_port,
        app_id,
        allowed_origins,
        states,
        events,
        lists,
        last,
    );
    let old_auths = lists[0];
    let new_auths = lists.last();
    if lists.last() != lists[0] {
        assert forall|j: int| 0 <= j < old_auths.len() implies #[trigger] old_auths[j]
            == new_auths[j] by {
            assert(new_auths.drop_last()[j] == new_auths[j]);
        }
        lemma_prefix_knows_the_same(old_auths, new_auths, other_app_id, other_origins);
    }
}

proof fn lemma_prefix_knows_the_same(
    old_auths: Seq<AppWebsocketAuth>,
    new_auths: Seq<AppWebsocketAuth>,
    app_id: Seq<char>,
    allowed_origins: Option<Set<Seq<char>>>,
)
    requires
        new_auths.len() == old_auths.len() + 1,
        forall|j: int| 0 <= j < old_auths.len() ==> #[trigger] old_auths[j] == new_auths[j],
        !new_auths.last()@.is_for(app_id, allowed_origins),
    ensures
        knows(old_auths, app_id, allowed_origins) == knows(new_auths, app_id, allowed_origins),
        forall|auth: AppWebsocketAuthView| #[trigger]
            is_first_for(auth, old_auths, app_id, allowed_origins) == is_first_for(
                auth,
                new_auths,
                app_id,
                allowed_origins,
            ),
{
    if knows(old_auths, app_id, allowed_origins) {
        let i = choose|i: int|
            0 <= i < old_auths.len() && (#[trigger] old_auths[i])@.is_for(app_id, allowed_origins);
        assert(new_auths[i]@.is_for(app_id, allowed_origins));
    }
    if knows(new_auths, app_id, allowed_origins) {
        let i = choose|i: int|
            0 <= i < new_auths.len() && (#[trigger] new_auths[i])@.is_for(app_id, allowed_origins);
        assert(old_auths[i]@.is_for(app_id, allowed_origins));
    }
    assert forall|auth: AppWebsocketAuthView| #[trigger]
        is_first_for(auth, old_auths, app_id, allowed_origins) == is_first_for(
            auth,
            new_auths,
            app_id,
            allowed_origins,
        ) by {
        if is_first_for(auth, old_auths, app_id, allowed_origins) {
            let i = choose|i: int|
                {
                    &&& 0 <= i < old_auths.len()
                    &&& (#[trigger] old_auths[i])@ == auth
                    &&& auth.is_for(app_id, allowed_origins)
                    &&& forall|j: int|
                        0 <= j < i ==> !(#[trigger] old_auths[j])@.is_for(app_id, allowed_origins)
                };
            assert(new_auths[i]@ == auth);
            assert forall|j: int| 0 <= j < i implies !(#[trigger] new_auths[j])@.is_for(
                app_id,
                allowed_origins,
            ) by {
                assert(old_auths[j] == new_auths[j]);
            }
        }
        if is_first_for(auth, new_auths, app_id, allowed_origins) {
            let i = choose|i: int|
                {
                    &&& 0 <= i < new_auths.len()
                    &&& (#[trigger] new_auths[i])@ == auth
                    &&& auth.is_for(app_id, allowed_origins)
                    &&& forall|j: int|
                        0 <= j < i ==> !(#[trigger] new_auths[j])@.is_for(app_id, allowed_origins)
                };
            assert(old_auths[i]@ == auth);
        }
    }
}

/// The list never has two authentications for one app and the same origins, if it had none at
/// first.
pub proof fn law_no_two_authentications_are_alike(
    admin_port: u16,
    app_id: Seq<char>,
    allowed_origins: Option<Set<Seq<char>>>,
    states: Seq<GetAppWebsocketAuth>,
    events: Seq<AuthEvent>,
    lists: Seq<Seq<AppWebsocketAuth>>,
    i: int,
)
    requires
        is_run(states, events, lists),
        is_beginning(states[0], lists[0], admin_port, app_id, allowed_origins),
        no_two_alike(lists[0]),
        0 <= i < states.len(),
    ensures
        no_two_alike(lists[i]),
{
    law_list_grows_by_what_was_issued(
        admin_port,
        app_id,
        allowed_origins,
        states,
        events,
        lists,
        i,
    );
    let old_auths = lists[0];
    let new_auths = lists[i];
    if lists[i] != lists[0] {
        assert forall|j: int, k: int| 0 <= j < k < new_auths.len() implies !(
        #[trigger] new_auths[j])@.is_for(
            (#[trigger] new_auths[k])@.app_id,
            new_auths[k]@.allowed_origins,
        ) by {
            assert(new_auths.drop_last()[j] == new_auths[j]);
            assert(old_auths[j] == new_auths[j]);
            if k < old_auths.len() {
                assert(new_auths.drop_last()[k] == new_auths[k]);
                assert(old_auths[k] == new_auths[k]);
            }
        }
    }
}

/// The origin that a connection names is one that the interface allows; where every origin is
/// allowed, or none, it names none.
pub proof fn law_named_origin_is_allowed<C>(
    next: OpenAppWebsocket<C>,
    auth: AppWebsocketAuthView,
    allowed_origins: AllowedOrigins,
    signer: ConductorLairClient<C>,
)
    requires
        connects(next, auth, allowed_origins, signer),
    ensures
        match next {
            OpenAppWebsocket::SetOrigin { origin, .. } => allowed_origins@ matches Some(allowed)
                && allowed.contains(origin@),
            OpenAppWebsocket::Connect { .. } => match allowed_origins@ {
                None => true,
                Some(allowed) => allowed =~= Set::empty(),
            },
            _ => false,
        },
{
}

/// The states that opening a websocket goes through, the events that take it from each to the
/// next, and what the list is at each.
pub open spec fn is_open_run<C>(
    states: Seq<OpenAppWebsocket<C>>,
    events: Seq<OpenEvent>,
    lists: Seq<Seq<AppWebsocketAuth>>,
) -> bool {
    &&& states.len() == events.len() + 1
    &&& lists.len() == states.len()
    &&& forall|i: int|
        0 <= i < events.len() ==> open_steps(
            states[i],
            #[trigger] events[i],
            states[i + 1],
            lists[i],
            lists[i + 1],
        )
}

/// What is to sign, until opening the websocket is over.
pub open spec fn signer_of<C>(open: OpenAppWebsocket<C>) -> Option<ConductorLairClient<C>> {
    match open {
        OpenAppWebsocket::Authenticate { signer, .. } => Some(signer),
        OpenAppWebsocket::SetOrigin { connect, .. } => Some(connect.signer),
        OpenAppWebsocket::Connect { connect } => Some(connect.signer),
        OpenAppWebsocket::Done(_) => None,
    }
}

/// What signs over a websocket to an app is the Lair client of the keystore of the conductor of the
/// runtime; and the websocket is open only once the connection was made.
pub proof fn law_conductor_keystore_signs<P, K, S, C: Clone>(
    runtime: HolochainRuntime<P, K, S, C>,
    app_id: Seq<char>,
    allowed_origins: AllowedOrigins,
    states: Seq<OpenAppWebsocket<C>>,
    events: Seq<OpenEvent>,
    lists: Seq<Seq<AppWebsocketAuth>>,
    i: int,
)
    requires
        is_open_run(states, events, lists),
        opens(states[0], runtime, app_id, allowed_origins),
        0 <= i < states.len(),
    ensures
        signer_of(states[i]) matches Some(signer) ==> cloned(
            runtime.conductor_handle,
            signer.conductor,
        ),
        states[i] matches OpenAppWebsocket::Done(Ok(_)) ==> exists|j: int|
            0 <= j < i && states[j] is Connect && (#[trigger] events[j] matches
                OpenEvent::Connected(Ok(_))),
    decreases i,
{
    if i > 0 {
        law_conductor_keystore_signs(
            runtime,
            app_id,
            allowed_origins,
            states,
            events,
            lists,
            i - 1,
        );
        assert(open_steps(states[i - 1], events[i - 1], states[i], lists[i - 1], lists[i]));
    }
}

/// The event tells what came of the call that getting an authentication is at.
pub open spec fn answers(get: GetAppWebsocketAuth, event: AuthEvent) -> bool {
    match get {
        GetAppWebsocketAuth::ConnectAdmin { .. } => event is AdminConnected,
        GetAppWebsocketAuth::AttachInterface { .. } => event is InterfaceAttached,
        GetAppWebsocketAuth::IssueToken { .. } => event is TokenIssued,
        GetAppWebsocketAuth::Done(_) => false,
    }
}

/// The event tells what came of the call that opening a websocket is at.
pub open spec fn open_answers<C>(open: OpenAppWebsocket<C>, event: OpenEvent) -> bool {
    match (open, event) {
        (OpenAppWebsocket::Authenticate { get, .. }, OpenEvent::Authenticate(event)) => answers(
            get,
            event,
        ),
        (OpenAppWebsocket::SetOrigin { .. }, OpenEvent::OriginSet(_)) => true,
        (OpenAppWebsocket::Connect { .. }, OpenEvent::Connected(_)) => true,
        _ => false,
    }
}

/// An event that answers no call changes nothing, neither of getting an authentication nor of the
/// list.
pub proof fn law_stray_event_does_not_change_a_request(
    get: GetAppWebsocketAuth,
    event: AuthEvent,
    next: GetAppWebsocketAuth,
    before: Seq<AppWebsocketAuth>,
    after: Seq<AppWebsocketAuth>,
)
    requires
        steps(get, event, next, before, after),
        !answers(get, event),
    ensures
        next == get,
        after == before,
{
}

/// An event that answers no call changes nothing, neither of opening a websocket nor of the list.
pub proof fn law_stray_event_does_not_change_an_opening<C>(
    open: OpenAppWebsocket<C>,
    event: OpenEvent,
    next: OpenAppWebsocket<C>,
    before: Seq<AppWebsocketAuth>,
    after: Seq<AppWebsocketAuth>,
)
    requires
        open_steps(open, event, next, before, after),
        open matches OpenAppWebsocket::Authenticate { get, .. } ==> !(get is Done),
        !open_answers(open, event),
    ensures
        next == open,
        after == before,
{
}

/// The first authentication of the list that is for the app and for the very origins is the `k`-th.
pub open spec fn is_first_at(
    auths: Seq<AppWebsocketAuth>,
    k: int,
    app_id: Seq<char>,
    allowed_origins: Option<Set<Seq<char>>>,
) -> bool {
    &&& 0 <= k < auths.len()
    &&& auths[k].app_id@ == app_id
    &&& auths[k].allowed_origins@ == allowed_origins
    &&& forall|j: int|
        0 <= j < k ==> (#[trigger] auths[j]).app_id@ != app_id || auths[j].allowed_origins@
            != allowed_origins
}

/// The list has an authentication for the app and for the very origins.
pub open spec fn is_known(
    auths: Seq<AppWebsocketAuth>,
    app_id: Seq<char>,
    allowed_origins: Option<Set<Seq<char>>>,
) -> bool {
    exists|k: int| #[trigger] is_first_at(auths, k, app_id, allowed_origins)
}

proof fn lemma_known_is_what_the_list_has(
    auths: Seq<AppWebsocketAuth>,
    app_id: Seq<char>,
    allowed_origins: Option<Set<Seq<char>>>,
)
    ensures
        is_known(auths, app_id, allowed_origins) == knows(auths, app_id, allowed_origins),
        forall|auth: AppWebsocketAuthView| #[trigger]
            is_first_for(auth, auths, app_id, allowed_origins) ==> exists|k: int| #[trigger]
                is_first_at(auths, k, app_id, allowed_origins) && auths[k]@ == auth,
    decreases auths.len(),
{
    if is_known(auths, app_id, allowed_origins) {
        let k = choose|k: int| #[trigger] is_first_at(auths, k, app_id, allowed_origins);
        assert(auths[k]@.is_for(app_id, allowed_origins));
    }
    assert forall|auth: AppWebsocketAuthView| #[trigger]
        is_first_for(auth, auths, app_id, allowed_origins) implies exists|k: int| #[trigger]
        is_first_at(auths, k, app_id, allowed_origins) && auths[k]@ == auth by {
        let k = choose|k: int|
            {
                &&& 0 <= k < auths.len()
                &&& (#[trigger] auths[k])@ == auth
                &&& auth.is_for(app_id, allowed_origins)
                &&& forall|j: int|
                    0 <= j < k ==> !(#[trigger] auths[j])@.is_for(app_id, allowed_origins)
            };
        assert forall|j: int| 0 <= j < k implies (#[trigger] auths[j]).app_id@ != app_id
            || auths[j].allowed_origins@ != allowed_origins by {
            assert(!auths[j]@.is_for(app_id, allowed_origins));
        }
        assert(is_first_at(auths, k, app_id, allowed_origins));
    }
    if knows(auths, app_id, allowed_origins) {
        let k = choose|k: int|
            0 <= k < auths.len() && (#[trigger] auths[k])@.is_for(app_id, allowed_origins);
        if k == auths.len() - 1 && !knows(auths.drop_last(), app_id, allowed_origins) {
            assert forall|j: int| 0 <= j < k implies (#[trigger] auths[j]).app_id@ != app_id
                || auths[j].allowed_origins@ != allowed_origins by {
                assert(auths.drop_last()[j] == auths[j]);
                assert(!auths.drop_last()[j]@.is_for(app_id, allowed_origins));
            }
            assert(is_first_at(auths, k, app_id, allowed_origins));
        } else {
            let rest = auths.drop_last();
            if k < rest.len() {
                assert(rest[k]@.is_for(app_id, allowed_origins));
            }
            lemma_known_is_what_the_list_has(rest, app_id, allowed_origins);
            let m = choose|m: int| #[trigger] is_first_at(rest, m, app_id, allowed_origins);
            assert forall|j: int| 0 <= j < m implies (#[trigger] auths[j]).app_id@ != app_id
                || auths[j].allowed_origins@ != allowed_origins by {
                assert(rest[j] == auths[j]);
            }
            assert(is_first_at(auths, m, app_id, allowed_origins));
        }
    }
}

/// The two authentications are for the same app, port and origins, with the same token.
pub open spec fn is_same_auth(one: AppWebsocketAuth, other: AppWebsocketAuth) -> bool {
    &&& one.app_id@ == other.app_id@
    &&& one.app_websocket_port == other.app_websocket_port
    &&& one.allowed_origins@ == other.allowed_origins@
    &&& one.token@ == other.token@
}

/// The first three calls have attached an interface at the port, and issued the token.
pub open spec fn are_given(events: Seq<AuthEvent>, port: u16, token: Seq<u8>) -> bool {
    &&& events[1] == AuthEvent::InterfaceAttached(Ok(port))
    &&& events[2] matches AuthEvent::TokenIssued(Ok(issued)) && issued@ == token
}

/// Where getting an authentication that is not on the list is after `i` calls: the admin interface
/// is reached; an interface is attached, at any free port of this machine, for the app and the
/// origins alone; and a token is issued, for the app, that expires after 999999999 seconds and can
/// be used many times. It ends with the port and the token that the conductor gave, or with the
/// error of the call that failed.
pub open spec fn is_request_after(
    get: GetAppWebsocketAuth,
    i: int,
    events: Seq<AuthEvent>,
    admin_port: u16,
    app_id: Seq<char>,
    allowed_origins: Option<Set<Seq<char>>>,
) -> bool {
    match get {
        GetAppWebsocketAuth::ConnectAdmin { connect, request } => i == 0 && is_admin_connect(
            connect,
            admin_port,
        ) && request.app_id@ == app_id && request.allowed_origins@ == allowed_origins,
        GetAppWebsocketAuth::AttachInterface { attach, request } => {
            &&& i == 1
            &&& events[0] matches AuthEvent::AdminConnected(Ok(_))
            &&& attach.port == 0
            &&& attach.danger_bind_addr is None
            &&& attach.allowed_origins@ == allowed_origins
            &&& attach.installed_app_id matches Some(id) && id@ == app_id
            &&& request.app_id@ == app_id
            &&& request.allowed_origins@ == allowed_origins
        },
        GetAppWebsocketAuth::IssueToken { issue, app_port, request } => {
            &&& i == 2
            &&& events[1] == AuthEvent::InterfaceAttached(Ok(app_port))
            &&& issue.installed_app_id@ == app_id
            &&& issue.expiry_seconds == 999999999
            &&& issue.single_use == false
            &&& request.app_id@ == app_id
            &&& request.allowed_origins@ == allowed_origins
        },
        GetAppWebsocketAuth::Done(Ok(auth)) => {
            &&& i == 3
            &&& auth.app_id@ == app_id
            &&& auth.allowed_origins@ == allowed_origins
            &&& are_given(events, auth.app_websocket_port, auth.token@)
        },
        GetAppWebsocketAuth::Done(Err(error)) => i > 0 && match events[i - 1] {
            AuthEvent::AdminConnected(Err(cause)) => error == Error::WebsocketConnectionError(
                cause,
            ),
            AuthEvent::InterfaceAttached(Err(e)) => error == e,
            AuthEvent::TokenIssued(Err(e)) => error == e,
            _ => false,
        },
    }
}

/// A request for an authentication that the list has is over without a call, with the first of the
/// list, and leaves the list alone. Any other is over after three calls, or with the first that
/// fails, for any app and any origins, also where any origin is allowed: what is asked of the
/// conductor is for the app and the origins, and the token can be used many times, so that the
/// authentication, which is put at the end of the list once it is there, still opens a websocket
/// when a later request gets it from there. Nothing else ever changes the list.
pub proof fn law_request_is_over_after_three_calls(
    admin_port: u16,
    app_id: Seq<char>,
    allowed_origins: Option<Set<Seq<char>>>,
    states: Seq<GetAppWebsocketAuth>,
    events: Seq<AuthEvent>,
    lists: Seq<Seq<AppWebsocketAuth>>,
    i: int,
)
    requires
        is_run(states, events, lists),
        is_beginning(states[0], lists[0], admin_port, app_id, allowed_origins),
        forall|j: int| 0 <= j < events.len() ==> answers(states[j], #[trigger] events[j]),
        0 <= i < states.len(),
    ensures
        is_known(lists[0], app_id, allowed_origins) ==> {
            &&& i == 0
            &&& states[0] matches GetAppWebsocketAuth::Done(Ok(auth)) && exists|k: int| #[trigger]
                is_first_at(lists[0], k, app_id, allowed_origins) && is_same_auth(auth, lists[0][k])
        },
        !is_known(lists[0], app_id, allowed_origins) ==> {
            &&& i <= 3
            &&& is_request_after(states[i], i, events, admin_port, app_id, allowed_origins)
            &&& match states[i] {
                GetAppWebsocketAuth::Done(Ok(auth)) => lists[i].len() == lists[0].len() + 1
                    && lists[i].drop_last() == lists[0] && is_same_auth(lists[i].last(), auth),
                _ => lists[i] == lists[0],
            }
        },
    decreases i,
{
    lemma_known_is_what_the_list_has(lists[0], app_id, allowed_origins);
    if is_known(lists[0], app_id, allowed_origins) {
        if i > 0 {
            assert(answers(states[0], events[0]));
        }
        let auth = states[0]->Done_0->Ok_0;
        let k = choose|k: int| #[trigger]
            is_first_at(lists[0], k, app_id, allowed_origins) && lists[0][k]@ == auth@;
        assert(is_same_auth(auth, lists[0][k]));
    } else if i > 0 {
        law_request_is_over_after_three_calls(
            admin_port,
            app_id,
            allowed_origins,
            states,
            events,
            lists,
            i - 1,
        );
        assert(steps(states[i - 1], events[i - 1], states[i], lists[i - 1], lists[i]));
        assert(answers(states[i - 1], events[i - 1]));
    }
}

/// What came of the calls that get the authentication.
pub open spec fn auth_events(events: Seq<OpenEvent>) -> Seq<AuthEvent> {
    events.map_values(|event: OpenEvent| event->Authenticate_0)
}

/// The connection is to this machine, at the port and with the token of the authentication of the
/// list, or of the one that was issued where the list has none; and what signs over it is the Lair
/// client of the keystore of the conductor of the runtime.
pub open spec fn is_connection<P, K, S, C: Clone>(
    connect: AppConnect<C>,
    runtime: HolochainRuntime<P, K, S, C>,
    app_id: Seq<char>,
    allowed_origins: Option<Set<Seq<char>>>,
    events: Seq<OpenEvent>,
) -> bool {
    let auths = runtime.apps_websockets_auths@;
    &&& connect.host@ == "127.0.0.1"@
    &&& if is_known(auths, app_id, allowed_origins) {
        exists|k: int| #[trigger]
            is_first_at(auths, k, app_id, allowed_origins) && connect.port
                == auths[k].app_websocket_port && connect.token@ == auths[k].token@
    } else {
        are_given(auth_events(events), connect.port, connect.token@)
    }
    &&& cloned(runtime.conductor_handle, connect.signer.conductor)
}

/// How many calls it takes to have the authentication.
pub open spec fn calls_to_authenticate(
    auths: Seq<AppWebsocketAuth>,
    app_id: Seq<char>,
    allowed_origins: Option<Set<Seq<char>>>,
) -> int {
    if is_known(auths, app_id, allowed_origins) {
        0
    } else {
        3
    }
}

/// How many calls it takes to name an origin: one where a list of origins that is not empty is
/// allowed, and none where any origin is, or none.
pub open spec fn calls_to_name_origin(allowed_origins: AllowedOrigins) -> int {
    match allowed_origins {
        AllowedOrigins::Any => 0,
        AllowedOrigins::Origins(origins) => if origins@.len() > 0 {
            1
        } else {
            0
        },
    }
}

/// What the list is while a websocket is opened: as it was, and from the moment that a token was
/// issued with the authentication at its end.
pub open spec fn is_list_after(
    first: Seq<AppWebsocketAuth>,
    now: Seq<AppWebsocketAuth>,
    i: int,
    app_id: Seq<char>,
    allowed_origins: Option<Set<Seq<char>>>,
    events: Seq<OpenEvent>,
) -> bool {
    if !is_known(first, app_id, allowed_origins) && i >= 3 && (
    events[2] matches OpenEvent::Authenticate(AuthEvent::TokenIssued(Ok(_)))) {
        &&& now.len() == first.len() + 1
        &&& now.drop_last() == first
        &&& now.last().app_id@ == app_id
        &&& now.last().allowed_origins@ == allowed_origins
        &&& are_given(auth_events(events), now.last().app_websocket_port, now.last().token@)
    } else {
        now == first
    }
}

/// A websocket to an app is opened by getting an authentication, unless the list has one; then
/// naming the first of the origins in the header `Origin`, where there is a list of them; and then
/// connecting, once, with the port and the token of that authentication. It is over after these
/// calls, or with the first that fails, and open only where the connection was made.
pub proof fn law_websocket_is_opened_call_by_call<P, K, S, C: Clone>(
    runtime: HolochainRuntime<P, K, S, C>,
    app_id: Seq<char>,
    allowed_origins: AllowedOrigins,
    states: Seq<OpenAppWebsocket<C>>,
    events: Seq<OpenEvent>,
    lists: Seq<Seq<AppWebsocketAuth>>,
    i: int,
)
    requires
        is_open_run(states, events, lists),
        lists[0] == runtime.apps_websockets_auths@,
        opens(states[0], runtime, app_id, allowed_origins),
        forall|j: int| 0 <= j < events.len() ==> open_answers(states[j], #[trigger] events[j]),
        0 <= i < states.len(),
    ensures
        is_list_after(lists[0], lists[i], i, app_id, allowed_origins@, events),
        ({
            let named = calls_to_authenticate(lists[0], app_id, allowed_origins@);
            let connected = named + calls_to_name_origin(allowed_origins);
            &&& i <= connected + 1
            &&& match states[i] {
                OpenAppWebsocket::Authenticate { get, allowed_origins: o, signer } => {
                    &&& i < named
                    &&& o == allowed_origins
                    &&& cloned(runtime.conductor_handle, signer.conductor)
                    &&& !(get is Done)
                    &&& is_request_after(
                        get,
                        i,
                        auth_events(events),
                        runtime.admin_port,
                        app_id,
                        allowed_origins@,
                    )
                },
                OpenAppWebsocket::SetOrigin { header, origin, connect } => {
                    &&& i == named < connected
                    &&& header@ == "Origin"@
                    &&& allowed_origins matches AllowedOrigins::Origins(origins) && origin
                        == origins@[0]
                    &&& is_connection(connect, runtime, app_id, allowed_origins@, events)
                },
                OpenAppWebsocket::Connect { connect } => {
                    &&& i == connected
                    &&& named < connected ==> (events[named] matches OpenEvent::OriginSet(Ok(_)))
                    &&& is_connection(connect, runtime, app_id, allowed_origins@, events)
                },
                OpenAppWebsocket::Done(Ok(_)) => i == connected + 1 && (
                events[connected] matches OpenEvent::Connected(Ok(_))),
                OpenAppWebsocket::Done(Err(error)) => i > 0 && match events[i - 1] {
                    OpenEvent::Authenticate(AuthEvent::AdminConnected(Err(cause))) => error
                        == Error::WebsocketConnectionError(cause),
                    OpenEvent::Authenticate(AuthEvent::InterfaceAttached(Err(e))) => error == e,
                    OpenEvent::Authenticate(AuthEvent::TokenIssued(Err(e))) => error == e,
                    OpenEvent::OriginSet(Err(e)) => error == e,
                    OpenEvent::Connected(Err(cause)) => error == Error::WebsocketConnectionError(
                        cause,
                    ),
                    _ => false,
                },
            }
        }),
    decreases i,
{
    lemma_known_is_what_the_list_has(lists[0], app_id, allowed_origins@);
    if i == 0 {
        let (get, signer) = choose|get: GetAppWebsocketAuth, signer: ConductorLairClient<C>|
            {
                &&& #[trigger] is_beginning(
                    get,
                    runtime.apps_websockets_auths@,
                    runtime.admin_port,
                    app_id,
                    allowed_origins@,
                )
                &&& cloned(runtime.conductor_handle, signer.conductor)
                &&& #[trigger] goes_on(get, allowed_origins, signer, states[0])
            };
        assert(goes_on(get, allowed_origins, signer, states[0]));
    } else {
        law_websocket_is_opened_call_by_call(
            runtime,
            app_id,
            allowed_origins,
            states,
            events,
            lists,
            i - 1,
        );
        let event = events[i - 1];
        assert(open_steps(states[i - 1], event, states[i], lists[i - 1], lists[i]));
        assert(open_answers(states[i - 1], event));
        match (states[i - 1], event) {
            (
                OpenAppWebsocket::Authenticate { get, allowed_origins: o, signer },
                OpenEvent::Authenticate(answer),
            ) => {
                let got = choose|got: GetAppWebsocketAuth|
                    #[trigger] steps(get, answer, got, lists[i - 1], lists[i]) && goes_on(
                        got,
                        o,
                        signer,
                        states[i],
                    );
                assert(auth_events(events)[i - 1] == answer);
                assert(is_request_after(
                    got,
                    i,
                    auth_events(events),
                    runtime.admin_port,
                    app_id,
                    allowed_origins@,
                ));
            },
            _ => {},
        }
    }
}

} // verus!
