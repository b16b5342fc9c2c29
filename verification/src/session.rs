//! The session and the machine that signs in, renews and signs out.

use vstd::prelude::*;
use vstd::string::*;
use crate::exchange::{
    auth_code_to_firebase_token, can_exchange, refresh_body, refresh_login, refresh_url,
    AuthCodeEvent, CodeExchange, RefreshRequest,
};
use crate::provider::{authorization_urls, init_login, AuthUrlsEvent, KeysView, LoginKeys, LoginProvider};
use crate::redirect::redirect_code;
use crate::text::optional_view;

verus! {

/// What the platform returns for a signed-in user. The three tokens and the
/// expiry are kept as they came: nothing here reads them.
#[derive(Debug)]
pub struct TokenData {
    pub local_id: String,
    pub email_verified: Option<bool>,
    pub email: Option<String>,
    pub oauth_id_token: Option<String>,
    pub oauth_access_token: Option<String>,
    pub oauth_token_secret: Option<String>,
    pub raw_user_info: Option<String>,
    pub first_name: Option<String>,
    pub last_name: Option<String>,
    pub full_name: Option<String>,
    pub display_name: Option<String>,
    pub photo_url: Option<String>,
    pub id_token: String,
    pub refresh_token: String,
    pub expires_in: String,
}

impl TokenData {
    /// Whether every field but the refresh token is empty or missing.
    pub open spec fn only_refresh_token(&self) -> bool {
        &&& self.local_id@.len() == 0
        &&& self.email_verified is None
        &&& self.email is None
        &&& self.oauth_id_token is None
        &&& self.oauth_access_token is None
        &&& self.oauth_token_secret is None
        &&& self.raw_user_info is None
        &&& self.first_name is None
        &&& self.last_name is None
        &&& self.full_name is None
        &&& self.display_name is None
        &&& self.photo_url is None
        &&& self.id_token@.len() == 0
        &&& self.expires_in@.len() == 0
    }

    /// The data of a user of whom only the refresh token is known.
    pub fn from_refresh_token(refresh_token: String) -> (data: Self)
        ensures
            data.only_refresh_token(),
            data.refresh_token == refresh_token,
    {
        TokenData {
            local_id: String::new(),
            email_verified: None,
            email: None,
            oauth_id_token: None,
            oauth_access_token: None,
            oauth_token_secret: None,
            raw_user_info: None,
            first_name: None,
            last_name: None,
            full_name: None,
            display_name: None,
            photo_url: None,
            id_token: String::new(),
            refresh_token,
            expires_in: String::new(),
        }
    }
}

impl Default for TokenData {
    fn default() -> (data: Self)
        ensures
            data.only_refresh_token(),
            data.refresh_token@.len() == 0,
    {
        TokenData::from_refresh_token(String::new())
    }
}

/// Where the session machine stands.
#[derive(Clone, Copy, Debug, PartialEq, Eq, Structural, Hash)]
pub enum AuthState {
    LoggedOut,
    LogOut,
    Refreshing,
    LogIn,
    GotAuthCode,
    LoggedIn,
}

impl Default for AuthState {
    fn default() -> (state: Self)
        ensures
            state == AuthState::LoggedOut,
    {
        AuthState::LoggedOut
    }
}

/// The kinds of things that move the machine.
#[derive(Clone, Copy, Debug, PartialEq, Eq, Structural)]
pub enum Trigger {
    /// The user asked to sign in.
    StartLogin,
    /// The user asked to sign out.
    StartLogout,
    /// The redirect listener was bound to a port.
    ListenerBound,
    /// The redirect listener served its connection, whose request carried an
    /// authorization code or did not.
    Redirect { has_code: bool },
    /// The exchange of the authorization code gave a session.
    SignedIn,
    /// The exchange of the authorization code failed.
    ExchangeFailed,
    /// The renewal gave a session.
    Refreshed,
    /// The renewal failed.
    RefreshFailed,
    /// What signing out had to remove is removed.
    CleanupComplete,
    /// The account was deleted on the platform.
    AccountDeleted,
}

/// The state that follows `state` on `trigger`. A trigger that does not fit
/// the state leaves it as it is. A failed exchange and a failed renewal both
/// lead back to `LogIn`, where the user is asked again.
pub open spec fn next_state(state: AuthState, has_refresh_token: bool, trigger: Trigger) -> AuthState {
    match trigger {
        Trigger::StartLogin => if state != AuthState::LoggedOut {
            state
        } else if has_refresh_token {
            AuthState::Refreshing
        } else {
            AuthState::LogIn
        },
        Trigger::StartLogout => if state == AuthState::LoggedOut {
            state
        } else {
            AuthState::LogOut
        },
        Trigger::ListenerBound => state,
        Trigger::Redirect { has_code } => if state == AuthState::LogIn && has_code {
            AuthState::GotAuthCode
        } else {
            state
        },
        Trigger::SignedIn => if state == AuthState::GotAuthCode {
            AuthState::LoggedIn
        } else {
            state
        },
        Trigger::ExchangeFailed => if state == AuthState::GotAuthCode {
            AuthState::LogIn
        } else {
            state
        },
        Trigger::Refreshed => if state == AuthState::Refreshing {
            AuthState::LoggedIn
        } else {
            state
        },
        Trigger::RefreshFailed => if state == AuthState::Refreshing {
            AuthState::LogIn
        } else {
            state
        },
        Trigger::CleanupComplete => if state == AuthState::LogOut {
            AuthState::LoggedOut
        } else {
            state
        },
        Trigger::AccountDeleted => AuthState::LogOut,
    }
}

/// Whether there is a refresh token to renew a session with.
pub open spec fn has_refresh_token(token_data: Option<TokenData>) -> bool {
    token_data matches Some(data) && data.refresh_token@.len() > 0
}

fn refresh_token_present(token_data: &Option<TokenData>) -> (present: bool)
    ensures
        present == has_refresh_token(*token_data),
{
    match token_data {
        Some(data) => !data.refresh_token.as_str().is_empty(),
        None => false,
    }
}

/// Asks to sign in. Only a signed-out machine moves: to `Refreshing` where
/// there is a refresh token, to `LogIn` where there is none.
pub fn log_in(current_state: AuthState, token_data: &Option<TokenData>) -> (next: AuthState)
    ensures
        next == next_state(current_state, has_refresh_token(*token_data), Trigger::StartLogin),
        current_state != AuthState::LoggedOut ==> next == current_state,
{
    if current_state != AuthState::LoggedOut {
        current_state
    } else if refresh_token_present(token_data) {
        AuthState::Refreshing
    } else {
        AuthState::LogIn
    }
}

/// Asks to sign out. A signed-out machine stays as it is.
pub fn log_out(current_state: AuthState) -> (next: AuthState)
    ensures
        next == next_state(current_state, false, Trigger::StartLogout),
{
    if current_state == AuthState::LoggedOut {
        current_state
    } else {
        AuthState::LogOut
    }
}

/// The refresh token that is written to the cache when a session begins:
/// that of the session where the user asked to be remembered, none otherwise.
pub fn save_refresh_token(token_data: &TokenData, remember_login: bool) -> (saved: Option<String>)
    ensures
        saved is Some <==> remember_login,
        saved matches Some(text) ==> text@ == token_data.refresh_token@,
{
    if remember_login {
        Some(token_data.refresh_token.clone())
    } else {
        None
    }
}

/// What moves the machine, with what it brings.
#[derive(Debug)]
pub enum AuthEvent {
    StartLogin,
    StartLogout,
    ListenerBound(u16),
    Redirect(Option<String>),
    SignedIn(TokenData),
    ExchangeFailed,
    Refreshed(TokenData),
    RefreshFailed,
    CleanupComplete,
    AccountDeleted,
}

impl AuthEvent {
    /// The kind of this event.
    pub open spec fn trigger(&self) -> Trigger {
        match *self {
            AuthEvent::StartLogin => Trigger::StartLogin,
            AuthEvent::StartLogout => Trigger::StartLogout,
            AuthEvent::ListenerBound(_) => Trigger::ListenerBound,
            AuthEvent::Redirect(code) => Trigger::Redirect { has_code: code is Some },
            AuthEvent::SignedIn(_) => Trigger::SignedIn,
            AuthEvent::ExchangeFailed => Trigger::ExchangeFailed,
            AuthEvent::Refreshed(_) => Trigger::Refreshed,
            AuthEvent::RefreshFailed => Trigger::RefreshFailed,
            AuthEvent::CleanupComplete => Trigger::CleanupComplete,
            AuthEvent::AccountDeleted => Trigger::AccountDeleted,
        }
    }
}

/// What the caller is asked to do after an event.
#[derive(Debug)]
pub enum AuthAction {
    /// Nothing.
    Nothing,
    /// Bind a redirect listener and report its port.
    OpenListener,
    /// Publish the authorization URLs and start accepting on the listener.
    Announce(AuthUrlsEvent),
    /// Run the exchange of the authorization code.
    Exchange(CodeExchange),
    /// Send the renewal.
    Refresh(RefreshRequest),
    /// Write the refresh token to the cache.
    Persist(String),
    /// Remove the cached refresh token.
    Forget,
}

/// The configuration of the sign-in.
pub struct AuthPlugin {
    pub firebase_api_key: String,
    pub firebase_project_id: String,
    pub login_keys: LoginKeys,
    /// The address of an emulator that stands in for the platform.
    pub emulator_url: Option<String>,
}

/// The session, the state of the machine, and what belongs to the sign-in
/// attempt that is under way.
#[derive(Debug)]
pub struct AuthContext {
    pub state: AuthState,
    pub token_data: Option<TokenData>,
    pub redirect_port: Option<u16>,
    pub selected_provider: Option<LoginProvider>,
    pub remember_login: bool,
}

impl AuthPlugin {
    /// The configuration for the local emulator of the demo project, with the
    /// given credentials.
    pub fn new(login_keys: LoginKeys) -> (plugin: Self)
        ensures
            plugin.firebase_api_key@ == "API_KEY"@,
            plugin.firebase_project_id@ == "demo-bevy"@,
            plugin.emulator_url matches Some(url) && url@ == "http://127.0.0.1:9099"@,
            plugin.login_keys@ == login_keys@,
    {
        AuthPlugin {
            firebase_api_key: String::from_str("API_KEY"),
            firebase_project_id: String::from_str("demo-bevy"),
            login_keys,
            emulator_url: Some(String::from_str("http://127.0.0.1:9099")),
        }
    }

    /// The context at start-up: signed out, with the refresh token that was
    /// found in the cache, if any, as all that is known of the user.
    pub fn build(&self, cached_refresh_token: Option<String>) -> (context: AuthContext)
        ensures
            started_from(context, optional_view(cached_refresh_token)),
    {
        let token_data = match cached_refresh_token {
            Some(token) => TokenData::from_refresh_token(token),
            None => TokenData::default(),
        };
        assert(token_data.refresh_token@ =~= cached_text(optional_view(cached_refresh_token)));
        AuthContext {
            state: AuthState::LoggedOut,
            token_data: Some(token_data),
            redirect_port: None,
            selected_provider: None,
            remember_login: false,
        }
    }
}

/// The refresh token that a start-up finds: the content of the cache, or
/// nothing where the cache is missing.
pub open spec fn cached_text(cache: Option<Seq<char>>) -> Seq<char> {
    match cache {
        Some(text) => text,
        None => Seq::empty(),
    }
}

/// The session that follows `context` on `event`.
pub open spec fn next_token_data(context: AuthContext, event: AuthEvent) -> Option<TokenData> {
    match event {
        AuthEvent::SignedIn(data) => if context.state == AuthState::GotAuthCode {
            Some(data)
        } else {
            context.token_data
        },
        AuthEvent::Refreshed(data) => if context.state == AuthState::Refreshing {
            Some(data)
        } else {
            context.token_data
        },
        AuthEvent::StartLogout => if context.state == AuthState::LoggedOut {
            context.token_data
        } else {
            None
        },
        AuthEvent::AccountDeleted => None,
        _ => context.token_data,
    }
}

/// The port of the redirect listener that follows `context` on `event`: it
/// is kept from the binding of the listener until the session begins or ends.
pub open spec fn next_redirect_port(context: AuthContext, event: AuthEvent) -> Option<u16> {
    match event {
        AuthEvent::ListenerBound(port) => if context.state == AuthState::LogIn {
            Some(port)
        } else {
            context.redirect_port
        },
        AuthEvent::SignedIn(_) => if context.state == AuthState::GotAuthCode {
            None
        } else {
            context.redirect_port
        },
        AuthEvent::Refreshed(_) => if context.state == AuthState::Refreshing {
            None
        } else {
            context.redirect_port
        },
        AuthEvent::StartLogout => if context.state == AuthState::LoggedOut {
            context.redirect_port
        } else {
            None
        },
        AuthEvent::AccountDeleted => None,
        _ => context.redirect_port,
    }
}

/// Whether `action` is what the caller is asked to do when `event` reaches
/// `context`.
pub open spec fn action_fits(
    context: AuthContext,
    keys: Seq<(LoginProvider, KeysView)>,
    api_key: Seq<char>,
    emulator: Option<Seq<char>>,
    event: AuthEvent,
    action: AuthAction,
) -> bool {
    let next = next_state(context.state, has_refresh_token(context.token_data), event.trigger());
    match event {
        AuthEvent::StartLogin => if next == context.state {
            action == AuthAction::Nothing
        } else if next == AuthState::LogIn {
            action == AuthAction::OpenListener
        } else {
            action matches AuthAction::Refresh(request) && context.token_data matches Some(data)
                && request.url@ == refresh_url(emulator, api_key) && request.content_type@
                == "application/x-www-form-urlencoded"@ && request.body@ == refresh_body(
                data.refresh_token@,
            )
        },
        AuthEvent::ListenerBound(port) => if context.state == AuthState::LogIn {
            action matches AuthAction::Announce(urls) && urls@ == authorization_urls(keys, port)
        } else {
            action == AuthAction::Nothing
        },
        AuthEvent::Redirect(code) => if next != context.state && context.selected_provider is Some
            && context.redirect_port is Some && can_exchange(
            context.selected_provider.unwrap(),
            keys,
        ) {
            action matches AuthAction::Exchange(exchange) && exchange.fits(
                context.selected_provider.unwrap(),
                code.unwrap()@,
                keys,
                context.redirect_port.unwrap(),
            )
        } else {
            action == AuthAction::Nothing
        },
        AuthEvent::SignedIn(data) | AuthEvent::Refreshed(data) => if next != context.state
            && context.remember_login {
            action matches AuthAction::Persist(text) && text@ == data.refresh_token@
        } else {
            action == AuthAction::Nothing
        },
        AuthEvent::RefreshFailed | AuthEvent::ExchangeFailed => if next != context.state {
            action == AuthAction::OpenListener
        } else {
            action == AuthAction::Nothing
        },
        AuthEvent::StartLogout => if context.state == AuthState::LoggedOut {
            action == AuthAction::Nothing
        } else {
            action == AuthAction::Forget
        },
        AuthEvent::AccountDeleted => action == AuthAction::Forget,
        AuthEvent::CleanupComplete => action == AuthAction::Nothing,
    }
}

impl AuthContext {
    /// What holds of the context at all times: a signed-in machine has a
    /// session, a machine that signs out has none, and the port of a redirect
    /// listener is kept only while a sign-in attempt is under way.
    pub open spec fn consistent(&self) -> bool {
        &&& self.state == AuthState::LoggedIn ==> self.token_data is Some
        &&& self.state == AuthState::LogOut ==> self.token_data is None
        &&& self.redirect_port is Some ==> self.state == AuthState::LogIn || self.state
            == AuthState::GotAuthCode
    }

    /// The id of the signed-in user.
    pub fn user_id(&self) -> (id: Option<&String>)
        ensures
            id is Some <==> self.state == AuthState::LoggedIn && self.token_data is Some,
            id matches Some(text) ==> self.token_data matches Some(data) && *text == data.local_id,
    {
        if self.state == AuthState::LoggedIn {
            match &self.token_data {
                Some(data) => Some(&data.local_id),
                None => None,
            }
        } else {
            None
        }
    }

    /// The id token of the session, by which calls to the store are
    /// authorized.
    pub fn id_token(&self) -> (token: Option<&String>)
        ensures
            token is Some <==> self.state == AuthState::LoggedIn && self.token_data is Some,
            token matches Some(text) ==> self.token_data matches Some(data) && *text
                == data.id_token,
    {
        if self.state == AuthState::LoggedIn {
            match &self.token_data {
                Some(data) => Some(&data.id_token),
                None => None,
            }
        } else {
            None
        }
    }

    /// Takes `event` in: the machine moves as [`next_state`] says, the session
    /// and the port follow, and the caller is told what to do. A consistent
    /// context stays consistent.
    pub fn handle(&mut self, plugin: &AuthPlugin, event: AuthEvent) -> (action: AuthAction)
        ensures
            old(self).consistent() ==> final(self).consistent(),
            final(self).state == next_state(
                old(self).state,
                has_refresh_token(old(self).token_data),
                event.trigger(),
            ),
            final(self).token_data == next_token_data(*old(self), event),
            final(self).redirect_port == next_redirect_port(*old(self), event),
            final(self).selected_provider == old(self).selected_provider,
            final(self).remember_login == old(self).remember_login,
            action_fits(
                *old(self),
                plugin.login_keys@,
                plugin.firebase_api_key@,
                optional_view(plugin.emulator_url),
                event,
                action,
            ),
    {
        match event {
            AuthEvent::StartLogin => {
                let next = log_in(self.state, &self.token_data);
                let action = if next == AuthState::Refreshing && self.state == AuthState::LoggedOut {
                    match &self.token_data {
                        Some(data) => AuthAction::Refresh(
                            refresh_login(
                                data.refresh_token.as_str(),
                                plugin.firebase_api_key.as_str(),
                                &plugin.emulator_url,
                            ),
                        ),
                        None => AuthAction::Nothing,
                    }
                } else if next == AuthState::LogIn && self.state == AuthState::LoggedOut {
                    AuthAction::OpenListener
                } else {
                    AuthAction::Nothing
                };
                self.state = next;
                action
            },
            AuthEvent::StartLogout => {
                if self.state == AuthState::LoggedOut {
                    AuthAction::Nothing
                } else {
                    self.logout_clear_resources();
                    AuthAction::Forget
                }
            },
            AuthEvent::AccountDeleted => {
                self.logout_clear_resources();
                AuthAction::Forget
            },
            AuthEvent::ListenerBound(port) => {
                if self.state == AuthState::LogIn {
                    self.redirect_port = Some(port);
                    AuthAction::Announce(init_login(&plugin.login_keys, port))
                } else {
                    AuthAction::Nothing
                }
            },
            AuthEvent::Redirect(code) => {
                match code {
                    Some(code) => {
                        if self.state == AuthState::LogIn {
                            self.state = AuthState::GotAuthCode;
                            match (self.selected_provider, self.redirect_port) {
                                (Some(provider), Some(port)) => {
                                    let found = AuthCodeEvent((provider, code));
                                    match auth_code_to_firebase_token(&found, &plugin.login_keys, port) {
                                        Some(exchange) => AuthAction::Exchange(exchange),
                                        None => AuthAction::Nothing,
                                    }
                                },
                                _ => AuthAction::Nothing,
                            }
                        } else {
                            AuthAction::Nothing
                        }
                    },
                    None => AuthAction::Nothing,
                }
            },
            AuthEvent::SignedIn(data) => {
                if self.state == AuthState::GotAuthCode {
                    self.begin_session(data)
                } else {
                    AuthAction::Nothing
                }
            },
            AuthEvent::Refreshed(data) => {
                if self.state == AuthState::Refreshing {
                    self.begin_session(data)
                } else {
                    AuthAction::Nothing
                }
            },
            AuthEvent::RefreshFailed => {
                if self.state == AuthState::Refreshing {
                    self.state = AuthState::LogIn;
                    AuthAction::OpenListener
                } else {
                    AuthAction::Nothing
                }
            },
            AuthEvent::ExchangeFailed => {
                if self.state == AuthState::GotAuthCode {
                    self.state = AuthState::LogIn;
                    AuthAction::OpenListener
                } else {
                    AuthAction::Nothing
                }
            },
            AuthEvent::CleanupComplete => {
                if self.state == AuthState::LogOut {
                    self.state = AuthState::LoggedOut;
                }
                AuthAction::Nothing
            },
        }
    }

    /// Enters `LoggedIn` with `data` as the session: what belonged to the
    /// sign-in attempt is dropped, and the refresh token is saved where the
    /// user asked to be remembered.
    fn begin_session(&mut self, data: TokenData) -> (action: AuthAction)
        ensures
            final(self).state == AuthState::LoggedIn,
            final(self).token_data == Some(data),
            final(self).redirect_port is None,
            final(self).selected_provider == old(self).selected_provider,
            final(self).remember_login == old(self).remember_login,
            old(self).remember_login ==> (action matches AuthAction::Persist(text) && text@
                == data.refresh_token@),
            !old(self).remember_login ==> action == AuthAction::Nothing,
    {
        let action = match save_refresh_token(&data, self.remember_login) {
            Some(text) => AuthAction::Persist(text),
            None => AuthAction::Nothing,
        };
        self.token_data = Some(data);
        self.login_clear_resources();
        self.state = AuthState::LoggedIn;
        action
    }

    /// Drops what belonged to the sign-in attempt.
    pub fn login_clear_resources(&mut self)
        ensures
            final(self).redirect_port is None,
            final(self).state == old(self).state,
            final(self).token_data == old(self).token_data,
            final(self).selected_provider == old(self).selected_provider,
            final(self).remember_login == old(self).remember_login,
    {
        self.redirect_port = None;
    }

    /// Enters `LogOut`: the session and what belonged to a sign-in attempt
    /// are dropped.
    pub fn logout_clear_resources(&mut self)
        ensures
            final(self).state == AuthState::LogOut,
            final(self).token_data is None,
            final(self).redirect_port is None,
            final(self).selected_provider == old(self).selected_provider,
            final(self).remember_login == old(self).remember_login,
    {
        self.token_data = None;
        self.redirect_port = None;
        self.state = AuthState::LogOut;
    }
}

/// A redirect whose request carries no authorization code leaves the machine
/// in the state it was in, and `GotAuthCode` is entered in no other way than
/// from `LogIn` by a redirect that carries a code.
pub proof fn lemma_redirect_without_code(state: AuthState, has_refresh_token: bool, line: Seq<char>)
    ensures
        redirect_code(line) is None ==> next_state(
            state,
            has_refresh_token,
            Trigger::Redirect { has_code: redirect_code(line) is Some },
        ) == state,
        forall|trigger: Trigger|
            state != AuthState::GotAuthCode && #[trigger] next_state(state, has_refresh_token, trigger)
                == AuthState::GotAuthCode ==> state == AuthState::LogIn && trigger == (Trigger::Redirect {
                has_code: true,
            }),
{
}

/// What the cache holds after the caller did what `action` asks.
pub open spec fn cache_after(cache: Option<Seq<char>>, action: AuthAction) -> Option<Seq<char>> {
    match action {
        AuthAction::Persist(text) => Some(text@),
        AuthAction::Forget => None,
        _ => cache,
    }
}

/// Whether `context` is what a start-up makes of the cache `cache`.
pub open spec fn started_from(context: AuthContext, cache: Option<Seq<char>>) -> bool {
    &&& context.consistent()
    &&& context.state == AuthState::LoggedOut
    &&& context.redirect_port is None
    &&& context.selected_provider is None
    &&& !context.remember_login
    &&& context.token_data matches Some(data) && data.only_refresh_token() && data.refresh_token@
        == cached_text(cache)
}

/// The round trip through the cache: when the machine is started from what
/// the cache holds after `action`, a request to sign in leads to `Refreshing`
/// where a refresh token that is not empty was persisted, and to `LogIn` where
/// the cache is missing or empty.
pub proof fn lemma_restart_from_cache(
    context: AuthContext,
    cache_before: Option<Seq<char>>,
    action: AuthAction,
)
    requires
        started_from(context, cache_after(cache_before, action)),
    ensures
        next_state(context.state, has_refresh_token(context.token_data), Trigger::StartLogin) == (
        match cache_after(cache_before, action) {
            Some(text) => if text.len() > 0 {
                AuthState::Refreshing
            } else {
                AuthState::LogIn
            },
            None => AuthState::LogIn,
        }),
        action matches AuthAction::Persist(text) ==> next_state(
            context.state,
            has_refresh_token(context.token_data),
            Trigger::StartLogin,
        ) == (if text@.len() > 0 {
            AuthState::Refreshing
        } else {
            AuthState::LogIn
        }),
        action == AuthAction::Forget ==> next_state(
            context.state,
            has_refresh_token(context.token_data),
            Trigger::StartLogin,
        ) == AuthState::LogIn,
{
}

/// A request to sign in that reaches a machine in any state but `LoggedOut`
/// changes nothing and asks for nothing.
pub proof fn lemma_start_login_idempotent(
    context: AuthContext,
    keys: Seq<(LoginProvider, KeysView)>,
    api_key: Seq<char>,
    emulator: Option<Seq<char>>,
    action: AuthAction,
)
    requires
        context.state != AuthState::LoggedOut,
        action_fits(context, keys, api_key, emulator, AuthEvent::StartLogin, action),
    ensures
        next_state(context.state, has_refresh_token(context.token_data), Trigger::StartLogin)
            == context.state,
        next_token_data(context, AuthEvent::StartLogin) == context.token_data,
        next_redirect_port(context, AuthEvent::StartLogin) == context.redirect_port,
        action == AuthAction::Nothing,
{
}

/// An authorization code is taken once: after the redirect that carried it,
/// the machine is in `GotAuthCode`, where a further redirect moves nothing
/// and starts no exchange.
pub proof fn lemma_code_taken_once(
    context: AuthContext,
    keys: Seq<(LoginProvider, KeysView)>,
    api_key: Seq<char>,
    emulator: Option<Seq<char>>,
    code: Option<String>,
    action: AuthAction,
)
    requires
        context.state == AuthState::GotAuthCode,
        action_fits(context, keys, api_key, emulator, AuthEvent::Redirect(code), action),
    ensures
        next_state(
            context.state,
            has_refresh_token(context.token_data),
            AuthEvent::Redirect(code).trigger(),
        ) == AuthState::GotAuthCode,
        action == AuthAction::Nothing,
{
}

} // verus!
