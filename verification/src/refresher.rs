use vstd::prelude::*;
use crate::pool::{Account, AccountPool, TokenState, keys_unique};

verus! {

/// What one provider refresh call came back with.  The call itself is
/// network work performed by the caller; this module only applies its
/// outcome to the account state.
pub enum RefreshOutcome {
    /// A new access token and its expiry, milliseconds since the Unix epoch.
    Refreshed(String, i64),
    /// The refresh call failed; the account degrades to `Expired` and stays
    /// in the pool, so it can recover on a later sweep.
    Failed,
}

/// An account is due for refresh once the clock passes
/// `expires_at - safety_margin`.
pub open spec fn due_for_refresh(a: Account, now: i64, safety_margin: i64) -> bool {
    now >= a.expires_at - safety_margin
}

/// A sweep attempts a refresh only for an account that is due and has no
/// refresh already in flight (refreshes are mutually exclusive per account).
pub open spec fn refresh_attempted(a: Account, now: i64, safety_margin: i64) -> bool {
    due_for_refresh(a, now, safety_margin) && a.state != TokenState::Refreshing
}

/// The account value after one completed refresh attempt.
pub open spec fn account_after_refresh(a: Account, out: RefreshOutcome) -> Account {
    match out {
        RefreshOutcome::Refreshed(token, expiry) => (Account {
            access_token: token,
            expires_at: expiry,
            state: TokenState::Fresh,
            ..a
        }),
        RefreshOutcome::Failed => (Account { state: TokenState::Expired, ..a }),
    }
}

/// Relates a pool's accounts before and after one refresh sweep: every
/// account due (and not already refreshing) is replaced by the result of its
/// own refresh attempt, and every other account is untouched.
pub open spec fn refresh_applied(
    olds: Seq<Account>,
    news: Seq<Account>,
    now: i64,
    safety_margin: i64,
    outs: Seq<RefreshOutcome>,
) -> bool {
    &&& news.len() == olds.len()
    &&& forall|k: int|
        0 <= k < olds.len() ==> #[trigger] news[k] == (if refresh_attempted(
            olds[k],
            now,
            safety_margin,
        ) {
            account_after_refresh(olds[k], outs[k])
        } else {
            olds[k]
        })
}

/// The attempt for account `k` failed in this sweep.
pub open spec fn refresh_failed_at(
    olds: Seq<Account>,
    now: i64,
    safety_margin: i64,
    outs: Seq<RefreshOutcome>,
    k: int,
) -> bool {
    refresh_attempted(olds[k], now, safety_margin) && outs[k] is Failed
}

/// Whether this account's token should be refreshed now.
pub fn needs_refresh(a: &Account, now: i64, safety_margin: i64) -> (r: bool)
    requires
        0 <= safety_margin,
        i64::MIN + safety_margin <= a.expires_at,
    ensures
        r == due_for_refresh(*a, now, safety_margin),
{
    now >= a.expires_at - safety_margin
}

/// Marks an account as refreshing.  Starts nothing when a refresh is already
/// in flight for it: refreshes are mutually exclusive per account.
pub fn begin_refresh(a: &mut Account) -> (started: bool)
    ensures
        started == (old(a).state != TokenState::Refreshing),
        started ==> *final(a) == (Account { state: TokenState::Refreshing, ..*old(a) }),
        !started ==> *final(a) == *old(a),
{
    if a.state != TokenState::Refreshing {
        a.state = TokenState::Refreshing;
        true
    } else {
        false
    }
}

/// Records the outcome of the outstanding refresh call: success installs the
/// new token and expiry and returns the account to `Fresh`; failure degrades
/// it to `Expired` without removing it from its pool.
pub fn complete_refresh(a: &mut Account, out: RefreshOutcome)
    requires
        old(a).state == TokenState::Refreshing,
    ensures
        *final(a) == account_after_refresh(*old(a), out),
{
    match out {
        RefreshOutcome::Refreshed(token, expiry) => {
            a.access_token = token;
            a.expires_at = expiry;
            a.state = TokenState::Fresh;
        },
        RefreshOutcome::Failed => {
            a.state = TokenState::Expired;
        },
    }
}

/// One refresh sweep over a pool.  The provider calls themselves run
/// outside; their per-account outcomes arrive in `outcomes`, index-aligned
/// with the pool.  Failures are collected per account without aborting the
/// batch; the result lists exactly the indices whose attempt failed.
pub fn refresh_all(
    pool: &mut AccountPool,
    now: i64,
    safety_margin: i64,
    outcomes: Vec<RefreshOutcome>,
) -> (failed: Vec<usize>)
    requires
        old(pool).wf(),
        outcomes@.len() == old(pool).accounts@.len(),
        0 <= safety_margin,
        forall|k: int|
            0 <= k < old(pool).accounts@.len() ==> i64::MIN + safety_margin <= #[trigger] old(
                pool,
            ).accounts@[k].expires_at,
    ensures
        refresh_applied(old(pool).accounts@, final(pool).accounts@, now, safety_margin, outcomes@),
        final(pool).wf(),
        forall|k: int|
            0 <= k < final(pool).accounts@.len() ==> #[trigger] failed@.contains(k as usize)
                == refresh_failed_at(old(pool).accounts@, now, safety_margin, outcomes@, k),
{
    let ghost olds = pool.accounts@;
    let ghost outs0 = outcomes@;
    let mut outcomes = outcomes;
    let mut failed: Vec<usize> = Vec::new();
    let n = pool.accounts.len();
    let mut i: usize = 0;
    proof {
        assert(outs0.skip(0) =~= outs0);
    }
    while i < n
        invariant
            n == pool.accounts.len(),
            n == olds.len(),
            n == outs0.len(),
            i <= n,
            outcomes@ == outs0.skip(i as int),
            0 <= safety_margin,
            forall|k: int| 0 <= k < n ==> i64::MIN + safety_margin <= #[trigger] olds[k].expires_at,
            forall|k: int| i <= k < n ==> #[trigger] pool.accounts@[k] == olds[k],
            forall|k: int|
                0 <= k < i ==> #[trigger] pool.accounts@[k] == (if refresh_attempted(
                    olds[k],
                    now,
                    safety_margin,
                ) {
                    account_after_refresh(olds[k], outs0[k])
                } else {
                    olds[k]
                }),
            forall|k: int|
                0 <= k < n ==> #[trigger] failed@.contains(k as usize) == (k < i
                    && refresh_failed_at(olds, now, safety_margin, outs0, k)),
        decreases n - i,
    {
        let out = outcomes.remove(0);
        proof {
            assert(out == outs0[i as int]);
            assert(outcomes@ =~= outs0.skip(i as int + 1));
        }
        let mut a = pool.accounts.remove(i);
        let ghost accs_mid = pool.accounts@;
        let is_due = needs_refresh(&a, now, safety_margin);
        let mut attempt_failed = false;
        if is_due {
            if begin_refresh(&mut a) {
                attempt_failed = matches!(out, RefreshOutcome::Failed);
                complete_refresh(&mut a, out);
            }
        }
        proof {
            assert(attempt_failed == refresh_failed_at(olds, now, safety_margin, outs0, i as int));
            assert(a == (if refresh_attempted(olds[i as int], now, safety_margin) {
                account_after_refresh(olds[i as int], outs0[i as int])
            } else {
                olds[i as int]
            }));
        }
        let ghost failed_prev = failed@;
        if attempt_failed {
            failed.push(i);
        }
        pool.accounts.insert(i, a);
        proof {
            assert forall|k: int| i as int + 1 <= k < n implies #[trigger] pool.accounts@[k]
                == olds[k] by {
                assert(pool.accounts@[k] == accs_mid[k - 1]);
            }
            assert forall|k: int| 0 <= k < n implies #[trigger] failed@.contains(k as usize) == (k
                < i as int + 1 && refresh_failed_at(olds, now, safety_margin, outs0, k)) by {
                assert(k as usize as int == k);
                if attempt_failed {
                    assert(failed@ == failed_prev.push(i));
                    if k == i as int {
                        assert(failed@[failed_prev.len() as int] == i);
                        assert(failed@.contains(i));
                    } else {
                        if failed_prev.contains(k as usize) {
                            let j = choose|j: int|
                                0 <= j < failed_prev.len() && failed_prev[j] == k as usize;
                            assert(failed@[j] == k as usize);
                            assert(failed@.contains(k as usize));
                        }
                        if failed@.contains(k as usize) {
                            let j = choose|j: int|
                                0 <= j < failed@.len() && failed@[j] == k as usize;
                            assert(j < failed_prev.len());
                            assert(failed_prev.contains(k as usize));
                        }
                    }
                } else {
                    assert(failed@ == failed_prev);
                }
            }
        }
        i += 1;
    }
    proof {
        assert(keys_unique(pool.accounts@)) by {
            assert forall|p: int, q: int|
                0 <= p < q < pool.accounts@.len() implies pool.accounts@[p].index_key@
                != pool.accounts@[q].index_key@ by {
                assert(pool.accounts@[p].index_key@ == olds[p].index_key@);
                assert(pool.accounts@[q].index_key@ == olds[q].index_key@);
            }
        }
    }
    failed
}

/// Refresh isolation: a failed refresh of one account leaves every other
/// account of the sweep exactly as it was (when not itself due) or refreshed
/// by its own outcome — a fault never propagates across accounts.  In
/// particular the other account's index key, access token and expiry are
/// intact, so a subsequent signed-URL request through it is unaffected.
pub proof fn lemma_refresh_isolation(
    olds: Seq<Account>,
    news: Seq<Account>,
    now: i64,
    safety_margin: i64,
    outs: Seq<RefreshOutcome>,
    failing: int,
    other: int,
)
    requires
        refresh_applied(olds, news, now, safety_margin, outs),
        0 <= failing < olds.len(),
        0 <= other < olds.len(),
        failing != other,
        refresh_failed_at(olds, now, safety_margin, outs, failing),
        !due_for_refresh(olds[other], now, safety_margin),
    ensures
        news[other] == olds[other],
        news[failing].state == TokenState::Expired,
        news[failing].index_key@ == olds[failing].index_key@,
{
}

} // verus!
