use vstd::prelude::*;
use crate::errors::ConfigError;

verus! {

/// Freshness of an account's dynamic credential.
#[derive(Debug, Clone, Copy, PartialEq, Eq, Structural)]
pub enum TokenState {
    /// The current access token is valid.
    Fresh,
    /// A refresh call is outstanding for this account.
    Refreshing,
    /// The token is past its expiry and not yet refreshed.
    Expired,
}

/// One provider credential: an index key unique within its pool, the secret
/// material used to refresh the credential, and the mutable current-token
/// fields.  Only the token fields change after construction.
#[derive(Debug, Clone, PartialEq, Eq)]
pub struct Account {
    /// Unique address of this account within its pool.
    pub index_key: String,
    /// Long-lived secret used to obtain fresh access tokens.
    pub refresh_token: String,
    pub client_id: String,
    pub client_secret: String,
    /// Current short-lived access token.
    pub access_token: String,
    /// Drive identifier resolved once from the provider.
    pub my_drive_id: String,
    /// Expiry of the current access token, milliseconds since the Unix epoch.
    pub expires_at: i64,
    pub state: TokenState,
}

/// Index keys are pairwise distinct.
pub open spec fn keys_unique(accs: Seq<Account>) -> bool {
    forall|i: int, j: int|
        0 <= i < j < accs.len() ==> accs[i].index_key@ != accs[j].index_key@
}

/// An ordered collection of accounts for one provider type, addressed by
/// index key.  Membership is fixed at construction; only the per-account
/// token fields change afterwards.
pub struct AccountPool {
    pub accounts: Vec<Account>,
}

/// The accounts of a sequence of pools, in order.
pub open spec fn flatten_pools(pools: Seq<AccountPool>) -> Seq<Account>
    decreases pools.len(),
{
    if pools.len() == 0 {
        Seq::empty()
    } else {
        pools[0].accounts@ + flatten_pools(pools.drop_first())
    }
}

impl AccountPool {
    /// Well-formedness: index keys are unique, so lookup is unambiguous.
    pub open spec fn wf(&self) -> bool {
        keys_unique(self.accounts@)
    }

    /// Some account carries this index key.
    pub open spec fn spec_has(&self, idx: Seq<char>) -> bool {
        exists|k: int| 0 <= k < self.accounts@.len() && self.accounts@[k].index_key@ == idx
    }

    /// The account under this index key (meaningful only when one is there).
    pub open spec fn spec_account(&self, idx: Seq<char>) -> Account {
        self.accounts@[choose|k: int|
            0 <= k < self.accounts@.len() && self.accounts@[k].index_key@ == idx]
    }

    /// Builds a pool from the accounts of one configuration set.  Fails with
    /// a configuration error exactly when two accounts share an index key;
    /// the pool is rejected wholesale in that case.
    pub fn build(accounts: Vec<Account>) -> (r: Result<AccountPool, ConfigError>)
        ensures
            match r {
                Ok(p) => p.accounts@ == accounts@ && p.wf(),
                Err(e) => !keys_unique(accounts@) && e == ConfigError::DuplicateIndexKey,
            },
            r is Ok <==> keys_unique(accounts@),
    {
        let n = accounts.len();
        let mut i: usize = 0;
        while i < n
            invariant
                n == accounts.len(),
                i <= n,
                forall|p: int, q: int| 0 <= p < q < n && p < i ==> accounts@[p].index_key@ != accounts@[q].index_key@,
            decreases n - i,
        {
            let mut j: usize = i + 1;
            while j < n
                invariant
                    n == accounts.len(),
                    i < n,
                    i < j <= n,
                    forall|q: int| i < q < j ==> accounts@[i as int].index_key@ != accounts@[q].index_key@,
                decreases n - j,
            {
                if accounts[i].index_key == accounts[j].index_key {
                    return Err(ConfigError::DuplicateIndexKey);
                }
                j += 1;
            }
            i += 1;
        }
        Ok(AccountPool { accounts })
    }

    /// Exact-match lookup by index key.  Absence is reported as `None`, not
    /// as an error: the caller decides whether it is fatal.
    pub fn lookup<'a>(&'a self, index: &str) -> (r: Option<&'a Account>)
        requires
            self.wf(),
        ensures
            match r {
                Some(a) => a.index_key@ == index@ && self.accounts@.contains(*a) && *a
                    == self.spec_account(index@),
                None => forall|k: int|
                    0 <= k < self.accounts@.len() ==> self.accounts@[k].index_key@ != index@,
            },
            r is Some <==> self.spec_has(index@),
    {
        let key: String = index.to_owned();
        let n = self.accounts.len();
        let mut i: usize = 0;
        while i < n
            invariant
                self.wf(),
                n == self.accounts.len(),
                i <= n,
                key@ == index@,
                forall|k: int| 0 <= k < i ==> self.accounts@[k].index_key@ != index@,
            decreases n - i,
        {
            if self.accounts[i].index_key == key {
                proof {
                    assert(self.accounts@[i as int].index_key@ == index@);
                    let j = choose|k: int|
                        0 <= k < self.accounts@.len() && self.accounts@[k].index_key@ == index@;
                    assert(j == i as int);
                }
                return Some(&self.accounts[i]);
            }
            i += 1;
        }
        None
    }

    /// Merges the pools of several configuration sources into one.  The
    /// union is subject to the same uniqueness rule as `build`: any index
    /// key collision across the union rejects the merge wholesale.
    pub fn merge(pools: Vec<AccountPool>) -> (r: Result<AccountPool, ConfigError>)
        ensures
            match r {
                Ok(p) => p.accounts@ == flatten_pools(pools@) && p.wf(),
                Err(e) => !keys_unique(flatten_pools(pools@)) && e == ConfigError::DuplicateIndexKey,
            },
            r is Ok <==> keys_unique(flatten_pools(pools@)),
    {
        let ghost orig = pools@;
        let mut pools = pools;
        let mut all: Vec<Account> = Vec::new();
        while pools.len() > 0
            invariant
                all@ + flatten_pools(pools@) == flatten_pools(orig),
            decreases pools.len(),
        {
            let ghost prev = pools@;
            let ghost all_prev = all@;
            let mut p = pools.remove(0);
            all.append(&mut p.accounts);
            proof {
                assert(pools@ =~= prev.drop_first());
                assert(flatten_pools(prev) == prev[0].accounts@ + flatten_pools(prev.drop_first()));
                assert(all@ + flatten_pools(pools@) =~= all_prev + flatten_pools(prev));
            }
        }
        proof {
            assert(all@ =~= flatten_pools(orig));
        }
        AccountPool::build(all)
    }
}

} // verus!
