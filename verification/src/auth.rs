//! The authentications by which app websockets are opened, and the list that keeps them.
use crate::origins::AllowedOrigins;
use vstd::prelude::*;

verus! {

/// What it takes to open a websocket to an app.
#[derive(Debug, PartialEq)]
pub struct AppWebsocketAuth {
    pub app_id: String,
    pub app_websocket_port: u16,
    pub allowed_origins: AllowedOrigins,
    pub token: Vec<u8>,
}

/// An `AppWebsocketAuth` in plain values.
pub struct AppWebsocketAuthView {
    pub app_id: Seq<char>,
    pub app_websocket_port: u16,
    pub allowed_origins: Option<Set<Seq<char>>>,
    pub token: Seq<u8>,
}

impl View for AppWebsocketAuth {
    type V = AppWebsocketAuthView;

    open spec fn view(&self) -> AppWebsocketAuthView {
        AppWebsocketAuthView {
            app_id: self.app_id@,
            app_websocket_port: self.app_websocket_port,
            allowed_origins: self.allowed_origins@,
            token: self.token@,
        }
    }
}

impl Clone for AppWebsocketAuth {
    fn clone(&self) -> (copy: AppWebsocketAuth)
        ensures
            copy@ == self@,
    {
        let token: Vec<u8> = self.token.clone();
        assert(token@ =~= self.token@);
        AppWebsocketAuth {
            app_id: self.app_id.clone(),
            app_websocket_port: self.app_websocket_port,
            allowed_origins: self.allowed_origins.clone(),
            token,
        }
    }
}

impl AppWebsocketAuthView {
    /// It is for the app and the origins given.
    pub open spec fn is_for(
        self,
        app_id: Seq<char>,
        allowed_origins: Option<Set<Seq<char>>>,
    ) -> bool {
        self.app_id == app_id && self.allowed_origins == allowed_origins
    }
}

/// The list has an authentication for the app and the origins.
pub open spec fn knows(
    auths: Seq<AppWebsocketAuth>,
    app_id: Seq<char>,
    allowed_origins: Option<Set<Seq<char>>>,
) -> bool {
    exists|i: int| 0 <= i < auths.len() && (#[trigger] auths[i])@.is_for(app_id, allowed_origins)
}

/// No two authentications of the list are for one app and the same origins.
pub open spec fn no_two_alike(auths: Seq<AppWebsocketAuth>) -> bool {
    forall|i: int, j: int|
        0 <= i < j < auths.len() ==> !(#[trigger] auths[i])@.is_for(
            (#[trigger] auths[j])@.app_id,
            auths[j]@.allowed_origins,
        )
}

/// The first authentication of the list for the app and the origins.
pub open spec fn is_first_for(
    auth: AppWebsocketAuthView,
    auths: Seq<AppWebsocketAuth>,
    app_id: Seq<char>,
    allowed_origins: Option<Set<Seq<char>>>,
) -> bool {
    exists|i: int|
        {
            &&& 0 <= i < auths.len()
            &&& (#[trigger] auths[i])@ == auth
            &&& auth.is_for(app_id, allowed_origins)
            &&& forall|j: int|
                0 <= j < i ==> !(#[trigger] auths[j])@.is_for(app_id, allowed_origins)
        }
}

/// Looks an authentication up.
pub fn find_auth(
    auths: &Vec<AppWebsocketAuth>,
    app_id: &String,
    allowed_origins: &AllowedOrigins,
) -> (found: Option<AppWebsocketAuth>)
    ensures
        match found {
            Some(auth) => is_first_for(auth@, auths@, app_id@, allowed_origins@),
            None => !knows(auths@, app_id@, allowed_origins@),
        },
{
    let mut i: usize = 0;
    while i < auths.len()
        invariant
            i <= auths.len(),
            forall|j: int|
                0 <= j < i ==> !(#[trigger] auths@[j])@.is_for(app_id@, allowed_origins@),
        decreases auths.len() - i,
    {
        if auths[i].allowed_origins == *allowed_origins && auths[i].app_id == *app_id {
            return Some(auths[i].clone());
        }
        i = i + 1;
    }
    None
}

} // verus!
