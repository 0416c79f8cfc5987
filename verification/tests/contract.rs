use village_contracts::contract::{execute, instantiate, query};
use village_contracts::error::ContractError;
use village_contracts::msg::{
    attr, ExecuteMsg, InstantiateMsg, MessageInfo, QueryAnswer, QueryMsg, Response,
};
use village_contracts::state::{Coin, Marketplace};

fn coins(amount: u128, denom: &str) -> Vec<Coin> {
    vec![Coin { denom: denom.to_string(), amount }]
}

fn mock_info(sender: &str, funds: &[Coin]) -> MessageInfo {
    MessageInfo { sender: sender.to_string(), funds: funds.to_vec() }
}

fn run(deps: &mut Marketplace, info: MessageInfo, msg: ExecuteMsg) -> Result<Response, ContractError> {
    let checked = Ok(info.sender.clone());
    execute(deps, &info, msg, checked)
}

fn store_info(deps: &Marketplace) -> village_contracts::msg::StoreInfoResponse {
    match query(deps, QueryMsg::QueryStoreInfo {}).unwrap() {
        QueryAnswer::StoreInfo(r) => r,
        other => panic!("unexpected answer {:?}", other),
    }
}

fn listing(deps: &Marketplace, id: u64) -> village_contracts::msg::ListingResponse {
    match query(deps, QueryMsg::QueryListing { id }).unwrap() {
        QueryAnswer::Listing(r) => r,
        other => panic!("unexpected answer {:?}", other),
    }
}

#[test]
fn proper_initialization() {
    let mut deps = Marketplace::new();

    let msg = InstantiateMsg { storeName: String::from("village1"), refundPeriodPolicy: Some(50) };
    let info = mock_info("creator", &coins(10000, "ucosm"));

    let res = instantiate(&mut deps, &info, msg).unwrap();
    assert_eq!(0, res.messages.len());

    let value = store_info(&deps);
    assert_eq!("village1", value.store_info.storeName);
    assert_eq!(50, value.store_info.refundPeriodPolicy);
}

#[test]
fn register() {
    let mut deps = Marketplace::new();

    let msg = InstantiateMsg { storeName: String::from("village1"), refundPeriodPolicy: Some(50) };
    let info = mock_info("creator", &coins(10000, "ucosm"));
    let _res = instantiate(&mut deps, &info, msg).unwrap();

    let info = mock_info("user-one", &coins(10000, "ucosm"));
    let msg = ExecuteMsg::Register { user: String::from("user1") };
    let _res = run(&mut deps, info, msg).unwrap();
    assert_eq!(_res.attributes.len(), 2);
    assert_eq!(_res.attributes[0], attr("method", "register"));

    // Already registered - Fail
    let info = mock_info("user-one", &coins(10000, "ucosm"));
    let msg = ExecuteMsg::Register { user: String::from("user1") };
    let _res = run(&mut deps, info, msg);
    match _res {
        Err(ContractError::ExistingUser {}) => {}
        _ => panic!("Already registered user"),
    }

    // Invalid name - Fail
    let info = mock_info("user-one", &coins(10000, "ucosm"));
    let msg = ExecuteMsg::Register { user: String::from("User1") };
    let _res = run(&mut deps, info, msg);
    match _res {
        Err(ContractError::InvalidCharacter { c: _ }) => {}
        _ => panic!("Invalid character"),
    }
}

#[test]
fn new_listing_and_update() {
    let mut deps = Marketplace::new();

    let msg = InstantiateMsg { storeName: String::from("village1"), refundPeriodPolicy: Some(50) };
    let info = mock_info("creator", &coins(10000, "ucosm"));
    let _res = instantiate(&mut deps, &info, msg).unwrap();

    // No registration - failed create
    let info = mock_info("user-one", &coins(10000, "ucosm"));
    let msg = ExecuteMsg::ListItem {
        name: "lap-top".to_string(),
        price: Coin { amount: 150, denom: "ucosm".to_string() },
        desc: Some("Very Nice Lap-Top".to_string()),
    };
    let _res = run(&mut deps, info, msg);
    match _res {
        Err(ContractError::GenericMsgErr { msg: _ }) => {}
        _ => panic!("You haven't registered"),
    }

    // Register user
    let info = mock_info("user-one", &coins(10000, "ucosm"));
    let msg = ExecuteMsg::Register { user: String::from("user1") };
    let _res = run(&mut deps, info, msg).unwrap();
    assert_eq!(_res.attributes.len(), 2);
    assert_eq!(_res.attributes[0], attr("method", "register"));

    // Success create
    let info = mock_info("user-one", &coins(10000, "ucosm"));
    let msg = ExecuteMsg::ListItem {
        name: "lap-top".to_string(),
        price: Coin { amount: 150, denom: "ucosm".to_string() },
        desc: Some("Very Nice Lap-Top".to_string()),
    };
    let _res = run(&mut deps, info, msg).unwrap();
    assert_eq!(_res.attributes.len(), 2);
    assert_eq!(_res.attributes[0], attr("method", "add_new"));

    // query
    let value = listing(&deps, 1);
    assert_eq!("lap-top", value.listing.name);

    // Update with a name that is too short
    let info = mock_info("user-one", &coins(10000, "ucosm"));
    let msg = ExecuteMsg::UpdateListing {
        id: 1,
        price: Some(Coin { amount: 200, denom: "ucosm".to_string() }),
        name: Some("tv".to_string()),
        desc: None,
    };
    let _res = run(&mut deps, info, msg);
    match _res {
        Err(ContractError::NameTooShort { length: _, min_length: _ }) => {}
        _ => panic!("Name too short"),
    }

    // Success update
    let info = mock_info("user-one", &coins(10000, "ucosm"));
    let msg = ExecuteMsg::UpdateListing {
        id: 1,
        price: Some(Coin { amount: 200, denom: "ucosm".to_string() }),
        name: Some("lcd-tv".to_string()),
        desc: None,
    };
    let _res = run(&mut deps, info, msg).unwrap();
    assert_eq!(_res.attributes.len(), 2);
    assert_eq!(_res.attributes[0], attr("method", "update"));

    // query
    let value = listing(&deps, 1);
    assert_eq!("lcd-tv", value.listing.name);

    // Invalid Item Name - Fail
    let info = mock_info("user-one", &coins(10000, "ucosm"));
    let msg = ExecuteMsg::Register { user: String::from("User1") };
    let _res = run(&mut deps, info, msg);
    match _res {
        Err(ContractError::InvalidCharacter { c: _ }) => {}
        _ => panic!("Invalid name Character"),
    }
}

#[test]
fn buy() {
    let mut deps = Marketplace::new();

    let msg = InstantiateMsg { storeName: String::from("village1"), refundPeriodPolicy: Some(50) };
    let info = mock_info("creator", &coins(10000, "ucosm"));
    let _res = instantiate(&mut deps, &info, msg).unwrap();

    // Register user
    let info = mock_info("user-one", &coins(10000, "ucosm"));
    let msg = ExecuteMsg::Register { user: String::from("user1") };
    let _res = run(&mut deps, info, msg).unwrap();
    assert_eq!(_res.attributes.len(), 2);
    assert_eq!(_res.attributes[0], attr("method", "register"));

    // Success create
    let info = mock_info("user-one", &coins(10000, "ucosm"));
    let msg = ExecuteMsg::ListItem {
        name: "lap-top".to_string(),
        price: Coin { amount: 150, denom: "ucosm".to_string() },
        desc: Some("Very Nice Lap-Top".to_string()),
    };
    let _res = run(&mut deps, info, msg).unwrap();
    assert_eq!(_res.attributes.len(), 2);
    assert_eq!(_res.attributes[0], attr("method", "add_new"));

    // query
    let value = listing(&deps, 1);
    assert_eq!("lap-top", value.listing.name);

    // Buy failed - Buy from self
    let info = mock_info("user-one", &coins(10000, "ucosm"));
    let msg = ExecuteMsg::Buy { id: 1 };
    let _res = run(&mut deps, info, msg);
    match _res {
        Err(ContractError::BuyFromSelf {}) => {}
        _ => panic!("Cannot buy from self"),
    }

    // Buy failed - not enough funds
    let info = mock_info("user-two", &coins(15, "ucosm"));
    let msg = ExecuteMsg::Buy { id: 1 };
    let _res = run(&mut deps, info, msg);
    match _res {
        Err(ContractError::InsufficientFunds { exp: _, rec: _ }) => {}
        _ => panic!("insufficient funds"),
    }

    // Buy item
    let info = mock_info("user-two", &coins(10000, "ucosm"));
    let msg = ExecuteMsg::Buy { id: 1 };
    let _res = run(&mut deps, info, msg).unwrap();
    assert_eq!(_res.attributes.len(), 3);
    assert_eq!(_res.attributes[0], attr("method", "buy"));
    assert_eq!(_res.attributes[2], attr("buyer", "user-two"));

    // Buy failed - Already bought
    let info = mock_info("user-two", &coins(10000, "ucosm"));
    let msg = ExecuteMsg::Buy { id: 1 };
    let _res = run(&mut deps, info, msg);
    match _res {
        Err(_value) => {}
        _ => panic!("Item was bought"),
    }
}

#[test]
fn rate() {
    let mut deps = Marketplace::new();

    let msg = InstantiateMsg { storeName: String::from("village1"), refundPeriodPolicy: Some(50) };
    let info = mock_info("creator", &coins(10000, "ucosm"));
    let _res = instantiate(&mut deps, &info, msg).unwrap();

    // Rate Fail - rating above 5
    let info = mock_info("user-one", &coins(10000, "ucosm"));
    let msg = ExecuteMsg::RateStore { rating: 7 };
    let _res = run(&mut deps, info, msg);
    match _res {
        Err(ContractError::GenericMsgErr { msg: _ }) => {}
        _ => panic!("FAiled calculating rating. Rating above 5"),
    }

    // Rate Store
    let info = mock_info("user-one", &coins(10000, "ucosm"));
    let msg = ExecuteMsg::RateStore { rating: 5 };
    let _res = run(&mut deps, info, msg).unwrap();
    assert_eq!(_res.attributes.len(), 2);
    assert_eq!(_res.attributes[0], attr("method", "rate_store"));
    assert_eq!(_res.attributes[1], attr("rater", "user-one"));

    // Rate Fail - Already Rated
    let info = mock_info("user-one", &coins(10000, "ucosm"));
    let msg = ExecuteMsg::RateStore { rating: 5 };
    let _res = run(&mut deps, info, msg);
    match _res {
        Err(ContractError::HasAlreadyRated { addr: _ }) => {}
        _ => panic!("Already Rated"),
    }

    // Rate Store
    let info = mock_info("user-two", &coins(10000, "ucosm"));
    let msg = ExecuteMsg::RateStore { rating: 5 };
    let _res = run(&mut deps, info, msg).unwrap();
    assert_eq!(_res.attributes.len(), 2);
    assert_eq!(_res.attributes[0], attr("method", "rate_store"));
    assert_eq!(_res.attributes[1], attr("rater", "user-two"));

    // query
    let value = store_info(&deps);
    assert_eq!("5.00", value.store_info.storeRating.rating);

    // Rate Store
    let info = mock_info("user-three", &coins(10000, "ucosm"));
    let msg = ExecuteMsg::RateStore { rating: 3 };
    let _res = run(&mut deps, info, msg).unwrap();
    assert_eq!(_res.attributes.len(), 2);
    assert_eq!(_res.attributes[0], attr("method", "rate_store"));
    assert_eq!(_res.attributes[1], attr("rater", "user-three"));

    // Rate Store
    let info = mock_info("user-four", &coins(10000, "ucosm"));
    let msg = ExecuteMsg::RateStore { rating: 2 };
    let _res = run(&mut deps, info, msg).unwrap();
    assert_eq!(_res.attributes.len(), 2);
    assert_eq!(_res.attributes[0], attr("method", "rate_store"));
    assert_eq!(_res.attributes[1], attr("rater", "user-four"));

    // query
    let value = store_info(&deps);
    assert_eq!("3.75", value.store_info.storeRating.rating);
    assert_eq!("4.00", value.store_info.storeRating.votes);
}
