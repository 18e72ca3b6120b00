use rental::contract::{
    covers, execute, has_coins, instantiate, query, query_address, query_owner, query_rent,
    try_ChangeRent, try_boot, try_pay,
};
use rental::error::{ContractError, StdError};
use rental::msg::{
    ContractInfo, Env, ExecuteMsg, InstantiateMsg, MessageInfo, QueryAnswer, QueryMsg,
};
use rental::response::BankMsg;
use rental::state::{coin, coins, Addr, Coin, State};
use rental::store::Store;

fn mock_env() -> Env {
    Env { contract: ContractInfo { address: Addr::new(String::from("cosmos2contract")) } }
}

fn mock_info(sender: &str, funds: Vec<Coin>) -> MessageInfo {
    MessageInfo { sender: Addr::new(String::from(sender)), funds }
}

fn default_instantiate(store: &mut Store) {
    let msg = InstantiateMsg {
        address: String::from("33 pawn lane"),
        rentcost: coins(10, String::from("luna")),
        renters: Vec::new(),
        ownername: String::from("john doe"),
    };
    let info = mock_info("landlord", coins(0, String::from("luna")));
    instantiate(store, mock_env(), info, msg).unwrap();
}

fn loaded(store: &Store) -> State {
    store.load().unwrap()
}

#[test]
fn proper_initialization() {
    let mut store = Store::new();

    let msg = InstantiateMsg {
        address: String::from("33 pawn lane"),
        rentcost: coins(10, String::from("luna")),
        renters: Vec::new(),
        ownername: String::from("john doe"),
    };
    let info = mock_info("landlord", coins(0, String::from("luna")));
    let res = instantiate(&mut store, mock_env(), info, msg).unwrap();

    assert_eq!(0, res.messages.len());

    // query to check the address is valid
    let res = query(&store, mock_env(), QueryMsg::GetAddress {}).unwrap();
    let value = match res {
        QueryAnswer::Address(a) => a,
        other => panic!("wrong answer kind: {:?}", other),
    };
    assert_eq!(String::from("33 pawn lane"), value.address);

    // query to check the cost is valid
    let res = query(&store, mock_env(), QueryMsg::GetRentCost {}).unwrap();
    let value = match res {
        QueryAnswer::Cost(c) => c,
        other => panic!("wrong answer kind: {:?}", other),
    };
    assert_eq!(coins(10, String::from("luna")), value.rentcost);

    // query to check that the owner's name is valid
    let res = query(&store, mock_env(), QueryMsg::GetOwner {}).unwrap();
    let value = match res {
        QueryAnswer::Owner(o) => o,
        other => panic!("wrong answer kind: {:?}", other),
    };
    assert_eq!(String::from("john doe"), value.ownername);
}

#[test]
fn renters() {
    let mut store = Store::new();
    let msg = InstantiateMsg {
        address: String::from("33 pawn lane"),
        rentcost: coins(10, String::from("luna")),
        renters: Vec::new(),
        ownername: String::from("john doe"),
    };
    let info = mock_info("landlord", coins(0, String::from("luna")));
    let _res = instantiate(&mut store, mock_env(), info, msg).unwrap();

    let info2 = mock_info("jane doe", coins(2, String::from("luna")));
    let msg = ExecuteMsg::RenterAdd {};
    let _res = execute(&mut store, mock_env(), info2, msg).unwrap();

    // shouldnt be able to remove jane doe
    let info3 = mock_info("jaja doe", coins(3, String::from("luna")));
    let msg = ExecuteMsg::RenterBoot {};
    let res = execute(&mut store, mock_env(), info3, msg);
    match res {
        Err(ContractError::Unauthorized {}) => {}
        _ => panic!("Must return unauthorized error"),
    }
}

#[test]
fn instantiate_ignores_supplied_renters() {
    let mut store = Store::new();
    let msg = InstantiateMsg {
        address: String::from("33 pawn lane"),
        rentcost: coins(10, String::from("luna")),
        renters: vec![Addr::new(String::from("stowaway"))],
        ownername: String::from("john doe"),
    };
    let info = mock_info("landlord", Vec::new());
    let res = instantiate(&mut store, mock_env(), info, msg).unwrap();

    // the roster always starts empty, whatever the request carried
    let state = loaded(&store);
    assert_eq!(0, state.renters.len());
    assert_eq!(Addr::new(String::from("landlord")), state.owner);

    // three metadata pairs, no effect
    assert_eq!(3, res.attributes.len());
    assert_eq!(String::from("method"), res.attributes[0].key);
    assert_eq!(String::from("instantiate"), res.attributes[0].value);
    assert_eq!(String::from("owner"), res.attributes[1].key);
    assert_eq!(String::from("landlord"), res.attributes[1].value);
    assert_eq!(String::from("address"), res.attributes[2].key);
    assert_eq!(String::from("33 pawn lane"), res.attributes[2].value);
    assert_eq!(0, res.messages.len());
}

#[test]
fn add_grows_roster_by_one() {
    let mut store = Store::new();
    default_instantiate(&mut store);
    assert_eq!(0, loaded(&store).renters.len());

    let info = mock_info("jane doe", Vec::new());
    execute(&mut store, mock_env(), info, ExecuteMsg::RenterAdd {}).unwrap();
    assert_eq!(1, loaded(&store).renters.len());

    // duplicates are not rejected; every caller may register
    let info = mock_info("someone else", Vec::new());
    execute(&mut store, mock_env(), info, ExecuteMsg::RenterAdd {}).unwrap();
    let state = loaded(&store);
    assert_eq!(2, state.renters.len());

    // the roster records the contract's own address, not the sender
    assert_eq!(Addr::new(String::from("cosmos2contract")), state.renters[0]);
    assert_eq!(Addr::new(String::from("cosmos2contract")), state.renters[1]);
}

#[test]
fn boot_by_owner_restores_roster() {
    let mut store = Store::new();
    default_instantiate(&mut store);
    let before: usize = loaded(&store).renters.len();

    let info = mock_info("jane", Vec::new());
    execute(&mut store, mock_env(), info, ExecuteMsg::RenterAdd {}).unwrap();
    assert_eq!(before + 1, loaded(&store).renters.len());

    let info = mock_info("jaja", Vec::new());
    let res = execute(&mut store, mock_env(), info, ExecuteMsg::RenterBoot {});
    match res {
        Err(ContractError::Unauthorized {}) => {}
        _ => panic!("Must return unauthorized error"),
    }
    assert_eq!(before + 1, loaded(&store).renters.len());

    let info = mock_info("landlord", Vec::new());
    execute(&mut store, mock_env(), info, ExecuteMsg::RenterBoot {}).unwrap();
    assert_eq!(before, loaded(&store).renters.len());
}

#[test]
fn boot_on_empty_roster_is_noop() {
    let mut store = Store::new();
    default_instantiate(&mut store);
    assert_eq!(0, loaded(&store).renters.len());

    let res = try_boot(&mut store, mock_info("landlord", Vec::new())).unwrap();
    assert_eq!(0, res.messages.len());

    let state = loaded(&store);
    assert_eq!(0, state.renters.len());
    assert_eq!(String::from("33 pawn lane"), state.address);
    assert_eq!(coins(10, String::from("luna")), state.rentcost);
}

#[test]
fn execute_before_instantiate_fails() {
    let mut store = Store::new();
    let res = execute(&mut store, mock_env(), mock_info("anyone", Vec::new()), ExecuteMsg::RenterAdd {});
    match res {
        Err(ContractError::Std(StdError::NotFound {})) => {}
        _ => panic!("Must report the missing state record"),
    }
}

#[test]
fn query_before_instantiate_fails() {
    let store = Store::new();
    assert_eq!(Err(StdError::NotFound {}), query_address(&store));
    assert!(query_rent(&store).is_err());
    assert!(query_owner(&store).is_err());
}

#[test]
fn change_rent_requires_owner() {
    let mut store = Store::new();
    default_instantiate(&mut store);

    let res = try_ChangeRent(
        &mut store,
        mock_info("jane", Vec::new()),
        coins(1, String::from("luna")),
    );
    match res {
        Err(ContractError::Unauthorized {}) => {}
        _ => panic!("Must return unauthorized error"),
    }
    // turned away unchanged
    assert_eq!(coins(10, String::from("luna")), loaded(&store).rentcost);
}

#[test]
fn change_rent_sets_price_verbatim() {
    let mut store = Store::new();
    default_instantiate(&mut store);

    // no validation: duplicate denominations and zero amounts go in as given
    let new_price = vec![
        coin(7, String::from("luna")),
        coin(7, String::from("luna")),
        coin(0, String::from("atom")),
    ];
    let res = try_ChangeRent(&mut store, mock_info("landlord", Vec::new()), new_price.clone())
        .unwrap();
    assert_eq!(0, res.attributes.len());
    assert_eq!(0, res.messages.len());
    assert_eq!(new_price, loaded(&store).rentcost);
}

#[test]
fn pay_with_covering_funds_forwards_everything() {
    let mut store = Store::new();
    default_instantiate(&mut store);

    // a superset covers: more luna than asked, plus an unrelated coin.
    // Pay attaches the computed transfer to the response as an effect;
    // silently dropping it would make every payment unobservable.
    let funds = vec![coin(12, String::from("luna")), coin(1, String::from("atom"))];
    let res = try_pay(&mut store, mock_env(), mock_info("jane", funds.clone())).unwrap();

    assert_eq!(1, res.messages.len());
    let BankMsg::Send { to_address, amount } = &res.messages[0];
    assert_eq!(String::from("landlord"), *to_address);
    assert_eq!(funds, *amount);

    // the record itself is untouched
    assert_eq!(coins(10, String::from("luna")), loaded(&store).rentcost);
}

#[test]
fn pay_with_short_funds_is_silently_ignored() {
    let mut store = Store::new();
    default_instantiate(&mut store);

    let res = try_pay(
        &mut store,
        mock_env(),
        mock_info("jane", coins(9, String::from("luna"))),
    )
    .unwrap();
    assert_eq!(0, res.messages.len());
    assert_eq!(1, res.attributes.len());
    assert_eq!(String::from("method"), res.attributes[0].key);
    assert_eq!(String::from("try_pay"), res.attributes[0].value);
    assert_eq!(coins(10, String::from("luna")), loaded(&store).rentcost);
}

#[test]
fn pay_with_missing_denomination_is_silently_ignored() {
    let mut store = Store::new();
    default_instantiate(&mut store);
    try_ChangeRent(
        &mut store,
        mock_info("landlord", Vec::new()),
        vec![coin(10, String::from("luna")), coin(2, String::from("atom"))],
    )
    .unwrap();

    let res = try_pay(
        &mut store,
        mock_env(),
        mock_info("jane", coins(10, String::from("luna"))),
    )
    .unwrap();
    assert_eq!(0, res.messages.len());
}

#[test]
fn pay_exact_amount_covers() {
    let mut store = Store::new();
    default_instantiate(&mut store);

    let res = try_pay(
        &mut store,
        mock_env(),
        mock_info("jane", coins(10, String::from("luna"))),
    )
    .unwrap();
    assert_eq!(1, res.messages.len());
}

#[test]
fn pay_against_empty_price_always_covers() {
    let mut store = Store::new();
    default_instantiate(&mut store);
    try_ChangeRent(&mut store, mock_info("landlord", Vec::new()), Vec::new()).unwrap();

    let res = try_pay(&mut store, mock_env(), mock_info("jane", Vec::new())).unwrap();
    assert_eq!(1, res.messages.len());
    let BankMsg::Send { to_address, amount } = &res.messages[0];
    assert_eq!(String::from("landlord"), *to_address);
    assert_eq!(0, amount.len());
}

#[test]
fn round_trip_preserves_every_field() {
    let mut store = Store::new();
    default_instantiate(&mut store);

    let first = store.load().unwrap();
    // a read-only query in between must not disturb anything
    query(&store, mock_env(), QueryMsg::GetAddress {}).unwrap();
    let second = store.load().unwrap();

    assert_eq!(first.address, second.address);
    assert_eq!(first.rentcost, second.rentcost);
    assert_eq!(first.renters, second.renters);
    assert_eq!(first.ownername, second.ownername);
    assert_eq!(first.owner, second.owner);

    assert_eq!(String::from("33 pawn lane"), second.address);
    assert_eq!(coins(10, String::from("luna")), second.rentcost);
    assert_eq!(String::from("john doe"), second.ownername);
    assert_eq!(Addr::new(String::from("landlord")), second.owner);
}

#[test]
fn error_messages_distinguish_kinds() {
    assert_eq!(String::from("Unauthorized"), ContractError::Unauthorized {}.message());
    assert_eq!(
        String::from("this process is currently in progress."),
        ContractError::TimeOutError {}.message()
    );
    assert_eq!(
        String::from("this wallet address does not exist in this contract."),
        ContractError::RenterNotFoundError {}.message()
    );
    assert_eq!(
        String::from("state not found"),
        ContractError::Std(StdError::NotFound {}).message()
    );
    assert_eq!(String::from("state not found"), StdError::NotFound {}.message());
}

#[test]
fn has_coins_checks_denomination_and_amount() {
    let funds = vec![coin(5, String::from("luna")), coin(3, String::from("atom"))];
    assert!(has_coins(&funds, &coin(5, String::from("luna"))));
    assert!(has_coins(&funds, &coin(4, String::from("luna"))));
    assert!(!has_coins(&funds, &coin(6, String::from("luna"))));
    assert!(!has_coins(&funds, &coin(1, String::from("iris"))));
    assert!(!has_coins(&Vec::new(), &coin(0, String::from("luna"))));
}

#[test]
fn covers_needs_every_denomination() {
    let funds = vec![coin(5, String::from("luna")), coin(3, String::from("atom"))];
    assert!(covers(&funds, &coins(5, String::from("luna"))));
    assert!(covers(&funds, &vec![
        coin(5, String::from("luna")),
        coin(3, String::from("atom")),
    ]));
    assert!(!covers(&funds, &vec![
        coin(5, String::from("luna")),
        coin(4, String::from("atom")),
    ]));
    assert!(!covers(&funds, &coins(1, String::from("iris"))));
    assert!(covers(&funds, &Vec::new()));
    assert!(covers(&Vec::new(), &Vec::new()));
}
