use vstd::prelude::*;
use vstd::string::StringExecFns;
use crate::pool::{Account, AccountPool, TokenState};

verus! {

/// A live access token can form the provider request that yields a signed
/// URL for a path.  The request URL is pure computation; issuing it is the
/// caller's network work.
pub trait LiveAccessToken: Sized {
    /// The provider request URL for this path.
    spec fn request_url_spec(&self, path: Seq<char>) -> Seq<char>;

    /// Builds the provider request URL for this path.
    fn request_url(&self, path: &str) -> (r: String)
        ensures
            r@ == self.request_url_spec(path@),
    ;
}

/// An access token addressable by a string index within its pool.
pub trait IndexedLiveAccessToken: LiveAccessToken {
    /// The index key under which this token is addressed.
    spec fn index_view(&self) -> Seq<char>;

    /// Returns the index key.
    fn index_field(&self) -> (r: String)
        ensures
            r@ == self.index_view(),
    ;

    /// Whether this token answers to the given index.
    fn match_index(&self, index: &str) -> (r: bool)
        ensures
            r == (self.index_view() == index@),
    ;
}

/// A container that stores access tokens and resolves them by index.
pub trait AccessTokenContainer<A: IndexedLiveAccessToken> {
    /// The container's own well-formedness (unique indices).
    spec fn container_inv(&self) -> bool;

    /// The stored tokens, in order.
    spec fn accounts_view(&self) -> Seq<A>;

    /// Exact-match lookup; absence is `None`, not an error.
    fn try_get_account<'a>(&'a self, index: &str) -> (r: Option<&'a A>)
        requires
            self.container_inv(),
        ensures
            match r {
                Some(a) => a.index_view() == index@ && self.accounts_view().contains(*a),
                None => forall|k: int|
                    0 <= k < self.accounts_view().len() ==> self.accounts_view()[k].index_view()
                        != index@,
            },
    ;
}

/// A token that must be refreshed in place from freshly exchanged provider
/// values; the exchange itself is the caller's network work.
pub trait DynamicAccessToken: LiveAccessToken {
    /// The token after a refresh installed the exchanged values.
    spec fn refreshed_spec(&self, access_token: String, expires_at: i64) -> Self;

    /// Installs freshly exchanged values, yielding the refreshed token.
    fn refresh_self(&self, access_token: String, expires_at: i64) -> (r: Self)
        ensures
            r == self.refreshed_spec(access_token, expires_at),
    ;
}

impl LiveAccessToken for Account {
    open spec fn request_url_spec(&self, path: Seq<char>) -> Seq<char> {
        "https://graph.microsoft.com/v1.0/drives/"@ + self.my_drive_id@ + "/items/"@ + path
    }

    fn request_url(&self, path: &str) -> (r: String) {
        let mut s = String::new();
        s.append("https://graph.microsoft.com/v1.0/drives/");
        s.append(self.my_drive_id.as_str());
        s.append("/items/");
        s.append(path);
        proof {
            assert(s@ =~= self.request_url_spec(path@));
        }
        s
    }
}

impl IndexedLiveAccessToken for Account {
    open spec fn index_view(&self) -> Seq<char> {
        self.index_key@
    }

    fn index_field(&self) -> (r: String) {
        self.index_key.clone()
    }

    fn match_index(&self, index: &str) -> (r: bool) {
        let owned: String = index.to_owned();
        self.index_key == owned
    }
}

impl DynamicAccessToken for Account {
    open spec fn refreshed_spec(&self, access_token: String, expires_at: i64) -> Account {
        Account { access_token, expires_at, state: TokenState::Fresh, ..*self }
    }

    fn refresh_self(&self, access_token: String, expires_at: i64) -> (r: Account) {
        Account {
            index_key: self.index_key.clone(),
            refresh_token: self.refresh_token.clone(),
            client_id: self.client_id.clone(),
            client_secret: self.client_secret.clone(),
            my_drive_id: self.my_drive_id.clone(),
            access_token,
            expires_at,
            state: TokenState::Fresh,
        }
    }
}

impl AccessTokenContainer<Account> for AccountPool {
    open spec fn container_inv(&self) -> bool {
        self.wf()
    }

    open spec fn accounts_view(&self) -> Seq<Account> {
        self.accounts@
    }

    fn try_get_account<'a>(&'a self, index: &str) -> (r: Option<&'a Account>) {
        self.lookup(index)
    }
}

} // verus!
