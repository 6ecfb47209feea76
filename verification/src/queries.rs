//! Account queries and mutations: their keys, what each answers, and which
//! cached queries a settled mutation invalidates.
use vstd::prelude::*;
use crate::account::MinecraftAccount;
use crate::error::LauncherError;

verus! {

// ---------------------------------------------------------------------------
// Microsoft sign-in (none in this launcher)
// ---------------------------------------------------------------------------

/// Whether a device-code login was already handled. There is no Microsoft
/// login, so no code ever was.
pub fn login_code_already_handled(_user_code: &str) -> (handled: bool)
    ensures
        !handled,
{
    false
}

/// Forgets the login code remembered for de-duplication.
pub fn reset_login_code_dedup(handled: &mut Option<String>)
    ensures
        *final(handled) == None::<String>,
{
    *handled = None;
}

/// Whether any of the accounts signs in with Microsoft. Every account of
/// this launcher is an offline one.
pub fn accounts_have_microsoft(_accounts: &[MinecraftAccount]) -> (r: bool)
    ensures
        !r,
{
    false
}

// ---------------------------------------------------------------------------
// Query and mutation keys
// ---------------------------------------------------------------------------

#[derive(Clone, Copy, Debug, PartialEq, Eq, Hash)]
pub struct ListAccountsKeys;

#[derive(Clone, Copy, Debug, PartialEq, Eq, Hash)]
pub struct DefaultAccountKeys {
    /// Fall back to the first account when there is no default.
    pub fallback: bool,
}

#[derive(Clone, Copy, Debug, PartialEq, Eq, Hash)]
pub struct AccountKeys {
    pub id: u128,
}

/// Lists all accounts, ordered by user name.
#[derive(Clone, Copy, Debug, PartialEq, Eq, Hash)]
pub struct ListAccountsQuery;

/// The default account, or with `fallback` the first account.
#[derive(Clone, Copy, Debug, PartialEq, Eq, Hash)]
pub struct DefaultAccountQuery;

/// One account by id.
#[derive(Clone, Copy, Debug, PartialEq, Eq, Hash)]
pub struct AccountQuery;

#[derive(Clone, Copy, Debug, PartialEq, Eq, Hash)]
pub struct AddOfflineAccountMutation;

#[derive(Clone, Debug, PartialEq, Eq, Hash)]
pub struct AddOfflineAccountKeys {
    pub username: String,
}

#[derive(Clone, Copy, Debug, PartialEq, Eq, Hash)]
pub struct RemoveAccountMutation;

#[derive(Clone, Copy, Debug, PartialEq, Eq, Hash)]
pub struct RemoveAccountKeys {
    pub id: u128,
}

#[derive(Clone, Copy, Debug, PartialEq, Eq, Hash)]
pub struct SetDefaultAccountMutation;

#[derive(Clone, Copy, Debug, PartialEq, Eq, Hash)]
pub struct SetDefaultAccountKeys {
    pub id: Option<u128>,
}

/// A cached account query, by its keys.
#[derive(Clone, Copy, Debug, PartialEq, Eq, Hash)]
pub enum AuthQuery {
    ListAccounts(ListAccountsKeys),
    DefaultAccount(DefaultAccountKeys),
    Account(AccountKeys),
}

// ---------------------------------------------------------------------------
// The default-account query
// ---------------------------------------------------------------------------

/// What the default-account query does after reading the default account.
#[derive(Clone, Debug)]
pub enum DefaultAccountStep {
    /// Answer with this.
    Done(Option<MinecraftAccount>),
    /// List the accounts and answer with the first one.
    ListAccounts,
}

/// The default-account query's answer, given the default account and the
/// list of all accounts.
pub open spec fn spec_default_account_answer(
    keys: DefaultAccountKeys,
    default: Option<MinecraftAccount>,
    accounts: Seq<MinecraftAccount>,
) -> Option<MinecraftAccount> {
    if default is Some || !keys.fallback {
        default
    } else if accounts.len() == 0 {
        None
    } else {
        Some(accounts[0])
    }
}

impl DefaultAccountQuery {
    /// Decides, from the default account, whether the query is answered or
    /// the accounts must be listed for the fallback.
    pub fn run(&self, keys: &DefaultAccountKeys, default: Option<MinecraftAccount>) -> (step:
        DefaultAccountStep)
        ensures
            (default is Some || !keys.fallback) ==> step == DefaultAccountStep::Done(default),
            !(default is Some || !keys.fallback) ==> step == DefaultAccountStep::ListAccounts,
    {
        if default.is_some() || !keys.fallback {
            DefaultAccountStep::Done(default)
        } else {
            DefaultAccountStep::ListAccounts
        }
    }

    /// The fallback answer: the first listed account.
    pub fn first_account(accounts: Vec<MinecraftAccount>) -> (a: Option<MinecraftAccount>)
        ensures
            a == if accounts@.len() == 0 {
                None
            } else {
                Some(accounts@[0])
            },
    {
        let mut accounts = accounts;
        if accounts.len() == 0 {
            None
        } else {
            Some(accounts.remove(0))
        }
    }
}

/// Running the query's two steps answers what the query promises: the
/// default account if there is one or no fallback is asked for, and
/// otherwise the first listed account.
pub proof fn lemma_default_account_steps(
    keys: DefaultAccountKeys,
    default: Option<MinecraftAccount>,
    accounts: Seq<MinecraftAccount>,
)
    ensures
        (default is Some || !keys.fallback) ==> spec_default_account_answer(
            keys,
            default,
            accounts,
        ) == default,
        default is None && keys.fallback ==> spec_default_account_answer(keys, default, accounts)
            == (if accounts.len() == 0 {
            None
        } else {
            Some(accounts[0])
        }),
{
}

// ---------------------------------------------------------------------------
// Invalidation after mutations
// ---------------------------------------------------------------------------

/// The account queries that a change to account `account_id` (or to the
/// default account only) makes stale: the list, both default-account
/// queries, and that account's own query.
pub open spec fn spec_auth_queries_to_invalidate(account_id: Option<u128>) -> Seq<AuthQuery> {
    seq![
        AuthQuery::ListAccounts(ListAccountsKeys),
        AuthQuery::DefaultAccount(DefaultAccountKeys { fallback: false }),
        AuthQuery::DefaultAccount(DefaultAccountKeys { fallback: true }),
    ] + match account_id {
        Some(id) => seq![AuthQuery::Account(AccountKeys { id })],
        None => Seq::empty(),
    }
}

/// Every change invalidates the account list and both default-account
/// queries, and the changed account's own query when there is one.
pub proof fn lemma_invalidation_covers_lists(account_id: Option<u128>)
    ensures
        spec_auth_queries_to_invalidate(account_id).contains(
            AuthQuery::ListAccounts(ListAccountsKeys),
        ),
        spec_auth_queries_to_invalidate(account_id).contains(
            AuthQuery::DefaultAccount(DefaultAccountKeys { fallback: false }),
        ),
        spec_auth_queries_to_invalidate(account_id).contains(
            AuthQuery::DefaultAccount(DefaultAccountKeys { fallback: true }),
        ),
        account_id matches Some(id) ==> spec_auth_queries_to_invalidate(account_id).contains(
            AuthQuery::Account(AccountKeys { id }),
        ),
{
    let q = spec_auth_queries_to_invalidate(account_id);
    assert(q[0] == AuthQuery::ListAccounts(ListAccountsKeys));
    assert(q[1] == AuthQuery::DefaultAccount(DefaultAccountKeys { fallback: false }));
    assert(q[2] == AuthQuery::DefaultAccount(DefaultAccountKeys { fallback: true }));
    if let Some(id) = account_id {
        assert(q[3] == AuthQuery::Account(AccountKeys { id }));
    }
}

/// The account queries to invalidate after account `account_id` changed.
pub fn invalidate_auth_queries(account_id: Option<u128>) -> (qs: Vec<AuthQuery>)
    ensures
        qs@ == spec_auth_queries_to_invalidate(account_id),
{
    let mut qs: Vec<AuthQuery> = Vec::new();
    qs.push(AuthQuery::ListAccounts(ListAccountsKeys));
    qs.push(AuthQuery::DefaultAccount(DefaultAccountKeys { fallback: false }));
    qs.push(AuthQuery::DefaultAccount(DefaultAccountKeys { fallback: true }));
    if let Some(id) = account_id {
        qs.push(AuthQuery::Account(AccountKeys { id }));
    }
    qs
}

impl AddOfflineAccountMutation {
    /// The queries to invalidate once adding an account settled: those of
    /// the new account on success, none on failure.
    pub fn on_settled(
        &self,
        _keys: &AddOfflineAccountKeys,
        result: &Result<MinecraftAccount, LauncherError>,
    ) -> (qs: Vec<AuthQuery>)
        ensures
            qs@ == match result {
                Ok(account) => spec_auth_queries_to_invalidate(Some(account.id)),
                Err(_) => Seq::empty(),
            },
    {
        match result {
            Ok(account) => invalidate_auth_queries(Some(account.id)),
            Err(_) => Vec::new(),
        }
    }
}

impl RemoveAccountMutation {
    /// The queries to invalidate once removing an account settled.
    pub fn on_settled(&self, keys: &RemoveAccountKeys, result: &Result<(), LauncherError>) -> (qs:
        Vec<AuthQuery>)
        ensures
            qs@ == match result {
                Ok(_) => spec_auth_queries_to_invalidate(Some(keys.id)),
                Err(_) => Seq::empty(),
            },
    {
        match result {
            Ok(_) => invalidate_auth_queries(Some(keys.id)),
            Err(_) => Vec::new(),
        }
    }
}

impl SetDefaultAccountMutation {
    /// The queries to invalidate once setting the default account settled.
    pub fn on_settled(&self, keys: &SetDefaultAccountKeys, result: &Result<(), LauncherError>) -> (qs:
        Vec<AuthQuery>)
        ensures
            qs@ == match result {
                Ok(_) => spec_auth_queries_to_invalidate(keys.id),
                Err(_) => Seq::empty(),
            },
    {
        match result {
            Ok(_) => invalidate_auth_queries(keys.id),
            Err(_) => Vec::new(),
        }
    }
}

// ---------------------------------------------------------------------------
// Reading the state of a query or mutation
// ---------------------------------------------------------------------------

/// Where a query or mutation stands: not started, running (possibly with the
/// result of an earlier run), or settled with a result.
#[derive(Debug)]
pub enum RequestState<T, E> {
    Pending,
    Loading(Option<Result<T, E>>),
    Settled(Result<T, E>),
}

/// The data a query has: the successful result it settled with, or the one
/// it still shows while it reloads.
pub open spec fn spec_settled_or_loading<T, E>(state: RequestState<T, E>) -> Option<T> {
    match state {
        RequestState::Settled(Ok(data)) => Some(data),
        RequestState::Loading(Some(Ok(data))) => Some(data),
        _ => None,
    }
}

pub fn settled_or_loading<T, E>(state: RequestState<T, E>) -> (r: Option<T>)
    ensures
        r == spec_settled_or_loading(state),
{
    match state {
        RequestState::Settled(Ok(data)) => Some(data),
        RequestState::Loading(Some(Ok(data))) => Some(data),
        _ => None,
    }
}

/// The accounts the list query shows.
pub fn try_accounts(state: RequestState<Vec<MinecraftAccount>, LauncherError>) -> (r: Option<
    Vec<MinecraftAccount>,
>)
    ensures
        r == spec_settled_or_loading(state),
{
    settled_or_loading(state)
}

/// The account the default-account query shows.
pub fn try_default_account(state: RequestState<Option<MinecraftAccount>, LauncherError>) -> (r:
    Option<MinecraftAccount>)
    ensures
        r == match spec_settled_or_loading(state) {
            Some(a) => a,
            None => None,
        },
{
    match settled_or_loading(state) {
        Some(a) => a,
        None => None,
    }
}

/// The account a single-account query shows.
pub fn try_account(state: RequestState<Option<MinecraftAccount>, LauncherError>) -> (r: Option<
    MinecraftAccount,
>)
    ensures
        r == match spec_settled_or_loading(state) {
            Some(a) => a,
            None => None,
        },
{
    match settled_or_loading(state) {
        Some(a) => a,
        None => None,
    }
}

/// Whether the mutation has yet to produce a settled result.
pub fn mutation_is_pending<T, E>(state: &RequestState<T, E>) -> (r: bool)
    ensures
        r == (state is Pending || state is Loading),
{
    match state {
        RequestState::Pending => true,
        RequestState::Loading(_) => true,
        RequestState::Settled(_) => false,
    }
}

/// Whether the mutation is in flight right now.
pub fn mutation_is_running<T, E>(state: &RequestState<T, E>) -> (r: bool)
    ensures
        r == state is Loading,
{
    match state {
        RequestState::Loading(_) => true,
        _ => false,
    }
}

/// The error the mutation settled with, or the one it still shows while it
/// runs again.
pub fn mutation_error<T, E>(state: RequestState<T, E>) -> (r: Option<E>)
    ensures
        r == match state {
            RequestState::Settled(Err(e)) => Some(e),
            RequestState::Loading(Some(Err(e))) => Some(e),
            _ => None,
        },
{
    match state {
        RequestState::Settled(Err(e)) => Some(e),
        RequestState::Loading(Some(Err(e))) => Some(e),
        _ => None,
    }
}

} // verus!
