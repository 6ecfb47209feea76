use tcc_launcher::account::{AccountKind, MinecraftAccount};
use tcc_launcher::error::LauncherError;
use tcc_launcher::queries::{
    accounts_have_microsoft, invalidate_auth_queries, login_code_already_handled,
    mutation_error, mutation_is_pending, mutation_is_running, reset_login_code_dedup,
    settled_or_loading, try_account, try_accounts, try_default_account, AccountKeys, AuthQuery,
    AddOfflineAccountKeys, AddOfflineAccountMutation, DefaultAccountKeys, DefaultAccountQuery,
    DefaultAccountStep, ListAccountsKeys, RemoveAccountKeys, RemoveAccountMutation,
    RequestState, SetDefaultAccountKeys, SetDefaultAccountMutation,
};

fn acct(id: u128, name: &str) -> MinecraftAccount {
    MinecraftAccount {
        id,
        username: name.to_string(),
        access_token: String::new(),
        refresh_token: String::new(),
        expires: 0,
        kind: AccountKind::Offline,
    }
}

fn base() -> Vec<AuthQuery> {
    vec![
        AuthQuery::ListAccounts(ListAccountsKeys),
        AuthQuery::DefaultAccount(DefaultAccountKeys { fallback: false }),
        AuthQuery::DefaultAccount(DefaultAccountKeys { fallback: true }),
    ]
}

#[test]
fn no_microsoft_login() {
    assert!(!login_code_already_handled("ABCD"));
    assert!(!accounts_have_microsoft(&[acct(1, "a")]));
    let mut code = Some("ABCD".to_string());
    reset_login_code_dedup(&mut code);
    assert_eq!(code, None);
}

#[test]
fn invalidation_lists() {
    assert_eq!(invalidate_auth_queries(None), base());
    let mut with = base();
    with.push(AuthQuery::Account(AccountKeys { id: 9 }));
    assert_eq!(invalidate_auth_queries(Some(9)), with);
}

#[test]
fn mutations_invalidate_only_on_success() {
    let add = AddOfflineAccountMutation;
    let keys = AddOfflineAccountKeys { username: "Alex".to_string() };
    let mut with = base();
    with.push(AuthQuery::Account(AccountKeys { id: 5 }));
    assert_eq!(add.on_settled(&keys, &Ok(acct(5, "Alex"))), with);
    assert!(add.on_settled(&keys, &Err(LauncherError::NotInitialized)).is_empty());

    let rm = RemoveAccountMutation;
    assert_eq!(rm.on_settled(&RemoveAccountKeys { id: 5 }, &Ok(())), with);
    assert!(rm.on_settled(&RemoveAccountKeys { id: 5 }, &Err(LauncherError::Other("x".into()))).is_empty());

    let set = SetDefaultAccountMutation;
    assert_eq!(set.on_settled(&SetDefaultAccountKeys { id: None }, &Ok(())), base());
    assert_eq!(set.on_settled(&SetDefaultAccountKeys { id: Some(5) }, &Ok(())), with);
    assert!(set.on_settled(&SetDefaultAccountKeys { id: Some(5) }, &Err(LauncherError::NotInitialized)).is_empty());
}

#[test]
fn default_account_query_steps() {
    let q = DefaultAccountQuery;
    match q.run(&DefaultAccountKeys { fallback: true }, Some(acct(1, "a"))) {
        DefaultAccountStep::Done(Some(a)) => assert_eq!(a.id, 1),
        other => panic!("unexpected {:?}", other),
    }
    match q.run(&DefaultAccountKeys { fallback: false }, None) {
        DefaultAccountStep::Done(None) => {}
        other => panic!("unexpected {:?}", other),
    }
    assert!(matches!(
        q.run(&DefaultAccountKeys { fallback: true }, None),
        DefaultAccountStep::ListAccounts
    ));
    assert_eq!(DefaultAccountQuery::first_account(vec![acct(2, "b"), acct(3, "c")]).map(|a| a.id), Some(2));
    assert!(DefaultAccountQuery::first_account(vec![]).is_none());
}

#[test]
fn reading_query_state() {
    assert_eq!(settled_or_loading::<u8, ()>(RequestState::Settled(Ok(4))), Some(4));
    assert_eq!(settled_or_loading::<u8, ()>(RequestState::Loading(Some(Ok(5)))), Some(5));
    assert_eq!(settled_or_loading::<u8, ()>(RequestState::Loading(None)), None);
    assert_eq!(settled_or_loading::<u8, ()>(RequestState::Settled(Err(()))), None);
    assert_eq!(settled_or_loading::<u8, ()>(RequestState::Pending), None);
    assert_eq!(try_accounts(RequestState::Settled(Ok(vec![acct(1, "a")]))).map(|v| v.len()), Some(1));
    assert_eq!(try_default_account(RequestState::Settled(Ok(Some(acct(4, "d"))))).map(|a| a.id), Some(4));
    assert!(try_default_account(RequestState::Settled(Ok(None))).is_none());
    assert!(try_account(RequestState::Loading(Some(Err(LauncherError::NotInitialized)))).is_none());
}

#[test]
fn reading_mutation_state() {
    assert!(mutation_is_pending::<(), u8>(&RequestState::Pending));
    assert!(mutation_is_pending::<(), u8>(&RequestState::Loading(None)));
    assert!(!mutation_is_pending::<(), u8>(&RequestState::Settled(Ok(()))));
    assert!(mutation_is_running::<(), u8>(&RequestState::Loading(None)));
    assert!(!mutation_is_running::<(), u8>(&RequestState::Pending));
    assert_eq!(mutation_error::<(), u8>(RequestState::Settled(Err(3))), Some(3));
    assert_eq!(mutation_error::<(), u8>(RequestState::Loading(Some(Err(4)))), Some(4));
    assert_eq!(mutation_error::<(), u8>(RequestState::Loading(Some(Ok(())))), None);
    assert_eq!(mutation_error::<(), u8>(RequestState::Pending), None);
}
