//! Identity providers, their configured credentials, and the authorization
//! URLs that send a browser to them.

use vstd::prelude::*;
use vstd::string::*;
use crate::text::{contains_run, decimal, lemma_contains_middle, push_decimal};
use crate::weburl::{parse_url, url_serialization};

verus! {

/// The sign-in methods that can be configured. Only `Google` and `Github` can
/// be used to sign in so far.
#[derive(Clone, Copy, PartialEq, Eq, Structural, Hash, Debug)]
pub enum LoginProvider {
    Google,
    Github,
    EmailPassword,
    Apple,
    Phone,
    Anonymous,
    GooglePlayGames,
    AppleGameCenter,
    Facebook,
    Twitter,
    Microsoft,
    Yahoo,
}

impl LoginProvider {
    /// Whether a sign-in through this provider is implemented.
    pub open spec fn supported(self) -> bool {
        self == LoginProvider::Google || self == LoginProvider::Github
    }

    /// Executable form of [`Self::supported`].
    pub fn is_supported(self) -> (b: bool)
        ensures
            b == self.supported(),
    {
        match self {
            LoginProvider::Google => true,
            LoginProvider::Github => true,
            _ => false,
        }
    }
}

/// The fixed part of an authorization URL, up to the port of the redirect.
pub open spec fn authorize_prefix(provider: LoginProvider) -> Seq<char>
    recommends
        provider.supported(),
{
    if provider == LoginProvider::Google {
        "https://accounts.google.com/o/oauth2/v2/auth?scope=openid profile email&response_type=code&redirect_uri=http://127.0.0.1:"@
    } else {
        "https://github.com/login/oauth/authorize?scope=read:user&redirect_uri=http://127.0.0.1:"@
    }
}

/// The authorization URL as it is written down, before the `url` crate brings
/// it into its normal form: the provider's prefix, the port, and the client id.
pub open spec fn authorization_url_text(
    provider: LoginProvider,
    port: u16,
    client_id: Seq<char>,
) -> Seq<char>
    recommends
        provider.supported(),
{
    authorize_prefix(provider) + decimal(port as nat) + "&client_id="@ + client_id
}

/// Writes down the authorization URL of `provider` for a redirect to `port`.
/// `None` for a provider that cannot be used to sign in.
pub fn write_authorization_url(provider: LoginProvider, port: u16, client_id: &str) -> (text:
    Option<String>)
    ensures
        text is Some <==> provider.supported(),
        text matches Some(t) ==> t@ == authorization_url_text(provider, port, client_id@),
{
    let mut text = match provider {
        LoginProvider::Google => String::from_str(
            "https://accounts.google.com/o/oauth2/v2/auth?scope=openid profile email&response_type=code&redirect_uri=http://127.0.0.1:",
        ),
        LoginProvider::Github => String::from_str(
            "https://github.com/login/oauth/authorize?scope=read:user&redirect_uri=http://127.0.0.1:",
        ),
        _ => {
            return None;
        },
    };
    push_decimal(&mut text, port as u64);
    text.append("&client_id=");
    text.append(client_id);
    Some(text)
}

/// For every provider that can be used to sign in, the written authorization
/// URL contains the port of the redirect, in decimal, and the client id.
pub proof fn lemma_authorization_url_contains(provider: LoginProvider, port: u16, client_id: Seq<char>)
    requires
        provider.supported(),
    ensures
        contains_run(authorization_url_text(provider, port, client_id), decimal(port as nat)),
        contains_run(authorization_url_text(provider, port, client_id), client_id),
{
    let prefix = authorize_prefix(provider);
    let digits = decimal(port as nat);
    let mid = "&client_id="@;
    let whole = authorization_url_text(provider, port, client_id);
    assert(whole =~= prefix + digits + (mid + client_id));
    lemma_contains_middle(prefix, digits, mid + client_id);
    assert(whole =~= (prefix + digits + mid) + client_id + Seq::<char>::empty());
    lemma_contains_middle(prefix + digits + mid, client_id, Seq::<char>::empty());
}

/// The authorization URL of `provider` in the normal form of the `url` crate,
/// as it is handed to a browser; `None` where the provider cannot be used to
/// sign in or the written URL is not accepted.
pub open spec fn authorization_url(provider: LoginProvider, port: u16, client_id: Seq<char>) -> Option<
    Seq<char>,
> {
    if provider.supported() {
        url_serialization(authorization_url_text(provider, port, client_id))
    } else {
        None
    }
}

/// Builds the authorization URL of one provider.
pub fn make_authorization_url(provider: LoginProvider, port: u16, client_id: &str) -> (url: Option<
    String,
>)
    ensures
        url is Some <==> authorization_url(provider, port, client_id@) is Some,
        url matches Some(u) ==> authorization_url(provider, port, client_id@) == Some(u@),
{
    match write_authorization_url(provider, port, client_id) {
        Some(text) => match parse_url(text.as_str()) {
            Some(parsed) => Some(parsed.serialization),
            None => None,
        },
        None => None,
    }
}


/// A client id and a client secret, by their characters.
pub type KeysView = Option<(Seq<char>, Seq<char>)>;

/// The characters of a configured pair of client id and client secret.
pub open spec fn keys_view(keys: Option<(String, String)>) -> KeysView {
    match keys {
        Some((id, secret)) => Some((id@, secret@)),
        None => None,
    }
}

/// Whether `entries` holds an entry for `provider`.
pub open spec fn has_provider(entries: Seq<(LoginProvider, KeysView)>, provider: LoginProvider) -> bool {
    exists|i: int| 0 <= i < entries.len() && (#[trigger] entries[i]).0 == provider
}

/// The place of an entry for `provider` in `entries`, where there is one.
pub open spec fn provider_index(entries: Seq<(LoginProvider, KeysView)>, provider: LoginProvider) -> int {
    choose|i: int| 0 <= i < entries.len() && (#[trigger] entries[i]).0 == provider
}

/// What `entries` holds for `provider`.
pub open spec fn lookup(entries: Seq<(LoginProvider, KeysView)>, provider: LoginProvider) -> Option<
    KeysView,
> {
    if has_provider(entries, provider) {
        Some(entries[provider_index(entries, provider)].1)
    } else {
        None
    }
}

/// No provider has two entries.
pub open spec fn distinct_providers(entries: Seq<(LoginProvider, KeysView)>) -> bool {
    forall|i: int, j: int|
        0 <= i < j < entries.len() ==> (#[trigger] entries[i]).0 != (#[trigger] entries[j]).0
}

/// `entries` after `provider` was given `keys`: its entry is replaced where it
/// has one, and a new entry is added at the end where it has none.
pub open spec fn with_entry(
    entries: Seq<(LoginProvider, KeysView)>,
    provider: LoginProvider,
    keys: KeysView,
) -> Seq<(LoginProvider, KeysView)> {
    if has_provider(entries, provider) {
        entries.update(provider_index(entries, provider), (provider, keys))
    } else {
        entries.push((provider, keys))
    }
}

/// Giving a provider keys makes them what is held for it, keeps what is
/// held for every other provider, and keeps the providers distinct.
pub proof fn lemma_with_entry(
    entries: Seq<(LoginProvider, KeysView)>,
    provider: LoginProvider,
    keys: KeysView,
)
    requires
        distinct_providers(entries),
    ensures
        distinct_providers(with_entry(entries, provider, keys)),
        lookup(with_entry(entries, provider, keys), provider) == Some(keys),
        forall|other: LoginProvider|
            other != provider ==> #[trigger] lookup(with_entry(entries, provider, keys), other)
                == lookup(entries, other),
{
    let after = with_entry(entries, provider, keys);
    let at = if has_provider(entries, provider) {
        provider_index(entries, provider)
    } else {
        entries.len() as int
    };
    assert(after[at] == (provider, keys));
    assert forall|i: int| 0 <= i < after.len() && i != at implies #[trigger] after[i] == entries[i]
        && after[i].0 != provider by {}
    assert forall|i: int, j: int| 0 <= i < j < after.len() implies (#[trigger] after[i]).0 != (
    #[trigger] after[j]).0 by {
        if i != at && j != at {
            assert(entries[i].0 != entries[j].0);
        }
    }
    assert(has_provider(after, provider));
    let found = provider_index(after, provider);
    if found != at {
        assert(after[found].0 != provider);
    }
    assert forall|other: LoginProvider| other != provider implies #[trigger] lookup(after, other)
        == lookup(entries, other) by {
        if has_provider(entries, other) {
            let i = provider_index(entries, other);
            assert(after[i] == entries[i]);
            assert(has_provider(after, other));
            let j = provider_index(after, other);
            assert(after[j] == entries[j]);
            if i < j {
                assert(entries[i].0 != entries[j].0);
            } else if j < i {
                assert(entries[j].0 != entries[i].0);
            }
        } else if has_provider(after, other) {
            let j = provider_index(after, other);
            assert(after[j] == entries[j]);
            assert(entries[j].0 == other);
        }
    }
}

/// A list of owned entries by their characters.
pub open spec fn entries_view(entries: Seq<(LoginProvider, Option<(String, String)>)>) -> Seq<
    (LoginProvider, KeysView),
> {
    Seq::new(entries.len(), |i: int| (entries[i].0, keys_view(entries[i].1)))
}

/// The credentials that were configured, one entry for each provider, in the
/// order in which the providers were first named.
pub struct LoginKeys {
    entries: Vec<(LoginProvider, Option<(String, String)>)>,
}

impl LoginKeys {
    #[verifier::type_invariant]
    spec fn no_provider_twice(&self) -> bool {
        distinct_providers(self@)
    }

    /// The entries by their characters.
    pub closed spec fn view(&self) -> Seq<(LoginProvider, KeysView)> {
        entries_view(self.entries@)
    }

    /// No credentials at all.
    pub fn new() -> (keys: Self)
        ensures
            keys@ == Seq::<(LoginProvider, KeysView)>::empty(),
    {
        let keys = LoginKeys { entries: Vec::new() };
        assert(keys@ =~= Seq::<(LoginProvider, KeysView)>::empty());
        keys
    }

    /// The number of providers that have an entry. No provider has two.
    pub fn len(&self) -> (n: usize)
        ensures
            n == self@.len(),
            distinct_providers(self@),
    {
        proof {
            use_type_invariant(self);
        }
        self.entries.len()
    }

    /// The provider of the entry at `index`.
    pub fn provider_at(&self, index: usize) -> (provider: LoginProvider)
        requires
            index < self@.len(),
        ensures
            provider == self@[index as int].0,
    {
        self.entries[index].0
    }

    /// The keys of the entry at `index`.
    pub fn keys_at(&self, index: usize) -> (keys: &Option<(String, String)>)
        requires
            index < self@.len(),
        ensures
            keys_view(*keys) == self@[index as int].1,
    {
        &self.entries[index].1
    }

    fn position(&self, provider: LoginProvider) -> (found: Option<usize>)
        ensures
            found is Some <==> has_provider(self@, provider),
            found matches Some(i) ==> i < self@.len() && self@[i as int].0 == provider
                && provider_index(self@, provider) == i,
    {
        proof {
            use_type_invariant(self);
        }
        let mut i: usize = 0;
        while i < self.entries.len()
            invariant
                i <= self.entries@.len(),
                self@.len() == self.entries@.len(),
                distinct_providers(self@),
                forall|k: int| 0 <= k < i ==> (#[trigger] self@[k]).0 != provider,
            decreases self.entries@.len() - i,
        {
            if self.entries[i].0 == provider {
                proof {
                    assert(self@[i as int].0 == provider);
                    let c = provider_index(self@, provider);
                    assert(0 <= c < self@.len() && self@[c].0 == provider);
                    if c < i {
                        assert(self@[c].0 != self@[i as int].0);
                    } else if c > i {
                        assert(self@[i as int].0 != self@[c].0);
                    }
                }
                return Some(i);
            }
            i += 1;
        }
        None
    }

    /// The keys that were configured for `provider`: `None` where it has no
    /// entry, `Some(None)` where it has one without keys.
    pub fn get(&self, provider: LoginProvider) -> (keys: Option<&Option<(String, String)>>)
        ensures
            keys is Some <==> has_provider(self@, provider),
            keys matches Some(k) ==> lookup(self@, provider) == Some(keys_view(*k)),
            keys is None ==> lookup(self@, provider) is None,
    {
        match self.position(provider) {
            Some(i) => Some(&self.entries[i].1),
            None => None,
        }
    }

    /// Gives `provider` the keys `keys`, in place of what it had.
    pub fn insert(&mut self, provider: LoginProvider, keys: Option<(String, String)>)
        ensures
            final(self)@ == with_entry(old(self)@, provider, keys_view(keys)),
    {
        proof {
            use_type_invariant(&*self);
        }
        let ghost before = self@;
        let ghost added = keys_view(keys);
        let found = self.position(provider);
        let mut taken = LoginKeys { entries: Vec::new() };
        std::mem::swap(self, &mut taken);
        let mut entries = taken.entries;
        match found {
            Some(i) => {
                entries.set(i, (provider, keys));
            },
            None => {
                entries.push((provider, keys));
            },
        }
        proof {
            let after = entries_view(entries@);
            if found is Some {
                assert(after =~= before.update(found.unwrap() as int, (provider, added)));
            } else {
                assert(after =~= before.push((provider, added)));
                assert(forall|k: int| 0 <= k < before.len() ==> (#[trigger] before[k]).0 != provider);
            }
            assert forall|i: int, j: int| 0 <= i < j < after.len() implies (#[trigger] after[i]).0 != (
            #[trigger] after[j]).0 by {
                if j < before.len() {
                    assert(before[i].0 != before[j].0);
                }
            }
        }
        let renewed = LoginKeys { entries };
        *self = renewed;
    }
}

/// The client id that stands in an authorization URL: the configured one, or
/// nothing where the provider was named without keys.
pub open spec fn client_id_of(keys: KeysView) -> Seq<char> {
    match keys {
        Some((id, _)) => id,
        None => Seq::empty(),
    }
}

/// The authorization URLs for the entries of `entries`, in their order. An
/// entry whose provider cannot be used to sign in, or whose URL the `url`
/// crate does not accept, gives none.
pub open spec fn authorization_urls(entries: Seq<(LoginProvider, KeysView)>, port: u16) -> Seq<
    (LoginProvider, Seq<char>),
>
    decreases entries.len(),
{
    if entries.len() == 0 {
        Seq::empty()
    } else {
        let earlier = authorization_urls(entries.drop_last(), port);
        let entry = entries.last();
        match authorization_url(entry.0, port, client_id_of(entry.1)) {
            Some(url) => earlier.push((entry.0, url)),
            None => earlier,
        }
    }
}

/// The announcement that authorization URLs are available: one URL for each
/// provider that can be used.
#[derive(Debug)]
pub struct AuthUrlsEvent(pub Vec<(LoginProvider, String)>);

impl AuthUrlsEvent {
    /// The announced URLs by their characters.
    pub open spec fn view(&self) -> Seq<(LoginProvider, Seq<char>)> {
        Seq::new(self.0@.len(), |i: int| (self.0@[i].0, self.0@[i].1@))
    }
}

/// What a sign-in attempt announces once its redirect listener is bound to
/// `port`: the authorization URL of every configured provider.
pub fn init_login(login_keys: &LoginKeys, port: u16) -> (event: AuthUrlsEvent)
    ensures
        event@ == authorization_urls(login_keys@, port),
{
    let mut urls: Vec<(LoginProvider, String)> = Vec::new();
    let n = login_keys.len();
    let mut i: usize = 0;
    while i < n
        invariant
            i <= n,
            n == login_keys@.len(),
            AuthUrlsEvent(urls)@ == authorization_urls(login_keys@.subrange(0, i as int), port),
        decreases n - i,
    {
        let provider = login_keys.provider_at(i);
        let made = match login_keys.keys_at(i) {
            Some(pair) => make_authorization_url(provider, port, pair.0.as_str()),
            None => make_authorization_url(provider, port, ""),
        };
        proof {
            reveal_strlit("");
            assert(""@ =~= Seq::<char>::empty());
            let upto = login_keys@.subrange(0, i as int + 1);
            assert(upto.drop_last() =~= login_keys@.subrange(0, i as int));
            assert(upto.last() == login_keys@[i as int]);
        }
        let ghost before = AuthUrlsEvent(urls)@;
        match made {
            Some(url) => {
                urls.push((provider, url));
                assert(AuthUrlsEvent(urls)@ =~= before.push((provider, url@)));
            },
            None => {},
        }
        i += 1;
    }
    assert(login_keys@.subrange(0, n as int) =~= login_keys@);
    AuthUrlsEvent(urls)
}

} // verus!
