use village_contracts::contract::{
    can_execute, execute, execute_buy, execute_delete_listing, execute_new_listing,
    execute_rate_seller, execute_rate_store, execute_register, execute_update_listing, instantiate,
    query_config, query_entry, query_list, query_store_info, query_user,
};
use village_contracts::error::ContractError;
use village_contracts::helpers::{
    calculate_rating, check_for_valid_coin, invalid_char, update_counter, validate_name,
    RatingError,
};
use village_contracts::msg::{ExecuteMsg, InstantiateMsg, MessageInfo};
use village_contracts::state::{Coin, Listing, Marketplace, Rating, Roles};
use village_contracts::text::u64_text;

fn ucosm(amount: u128) -> Vec<Coin> {
    vec![Coin { denom: "ucosm".to_string(), amount }]
}

fn info(sender: &str, funds: Vec<Coin>) -> MessageInfo {
    MessageInfo { sender: sender.to_string(), funds }
}

fn setup() -> Marketplace {
    let mut deps = Marketplace::new();
    let msg = InstantiateMsg { storeName: "village1".to_string(), refundPeriodPolicy: None };
    instantiate(&mut deps, &info("creator", vec![]), msg).unwrap();
    deps
}

fn register(deps: &mut Marketplace, who: &str, name: &str) {
    execute_register(deps, name.to_string(), Ok(who.to_string())).unwrap();
}

fn list(deps: &mut Marketplace, who: &str, name: &str, amount: u128) -> Result<(), ContractError> {
    let price = Coin { denom: "ucosm".to_string(), amount };
    execute_new_listing(deps, &info(who, vec![]), name.to_string(), price, None).map(|_| ())
}

fn listing_count(deps: &Marketplace) -> usize {
    query_list(deps, None, Some(30)).unwrap().listings.len()
}

#[test]
fn validate_name_bounds_are_in_bytes() {
    match validate_name("ab") {
        Err(ContractError::NameTooShort { length, min_length }) => {
            assert_eq!((length, min_length), (2, 3))
        }
        other => panic!("{:?}", other),
    }
    let long = "a".repeat(65);
    match validate_name(&long) {
        Err(ContractError::NameTooLong { length, max_length }) => {
            assert_eq!((length, max_length), (65, 64))
        }
        other => panic!("{:?}", other),
    }
    assert!(validate_name(&"a".repeat(64)).is_ok());
    assert!(validate_name("abc").is_ok());
    assert!(validate_name("a_b.c-9").is_ok());
    // two characters of two bytes each: long enough, but not allowed
    match validate_name("éé") {
        Err(ContractError::InvalidCharacter { c }) => assert_eq!(c, 'é'),
        other => panic!("{:?}", other),
    }
    // one character of two bytes: too short
    match validate_name("é") {
        Err(ContractError::NameTooShort { length, .. }) => assert_eq!(length, 2),
        other => panic!("{:?}", other),
    }
}

#[test]
fn validate_name_reports_first_invalid_character() {
    match validate_name("abCdE") {
        Err(ContractError::InvalidCharacter { c }) => assert_eq!(c, 'C'),
        other => panic!("{:?}", other),
    }
    match validate_name("ab cD") {
        Err(ContractError::InvalidCharacter { c }) => assert_eq!(c, ' '),
        other => panic!("{:?}", other),
    }
}

#[test]
fn invalid_char_classes() {
    for c in ['0', '9', 'a', 'z', '.', '-', '_'] {
        assert!(!invalid_char(c));
    }
    for c in ['A', 'Z', ' ', '/', 'é', ':'] {
        assert!(invalid_char(c));
    }
}

#[test]
fn check_for_valid_coin_reports_both_denoms() {
    let c = Coin { denom: "uatom".to_string(), amount: 5 };
    assert!(check_for_valid_coin(&c, "uatom".to_string()).is_ok());
    match check_for_valid_coin(&c, "ucosm".to_string()) {
        Err(ContractError::InvalidDenom { exp, rec }) => {
            assert_eq!(exp, "ucosm");
            assert_eq!(rec, "uatom");
        }
        other => panic!("{:?}", other),
    }
}

#[test]
fn update_counter_counts_from_one() {
    let mut deps = Marketplace::new();
    assert_eq!(deps.load_counter(), None);
    assert_eq!(update_counter(&mut deps), 1);
    assert_eq!(update_counter(&mut deps), 2);
    assert_eq!(deps.load_counter(), Some(2));
}

#[test]
fn decimal_text_of_integers() {
    assert_eq!(u64_text(0), "0");
    assert_eq!(u64_text(7), "7");
    assert_eq!(u64_text(1234567), "1234567");
    assert_eq!(u64_text(u64::MAX), u64::MAX.to_string());
}

#[test]
fn calculate_rating_averages_and_rounds() {
    let cur = Rating { rating: "4.33".to_string(), votes: "3.00".to_string() };
    let r = calculate_rating(2, &cur).unwrap();
    assert_eq!(r.rating, "3.75");
    assert_eq!(r.votes, "4.00");
}

#[test]
fn calculate_rating_rounds_halves_to_even() {
    // (0.01 + 1) / 2 = 0.505, whose neighbour with an even last digit is 0.50
    let cur = Rating { rating: "0.01".to_string(), votes: "1.00".to_string() };
    let r = calculate_rating(1, &cur).unwrap();
    assert_eq!(r.rating, "0.50");
    assert_eq!(r.votes, "2.00");
    // (0.03 + 1) / 2 = 0.515 goes up to 0.52
    let cur = Rating { rating: "0.03".to_string(), votes: "1.00".to_string() };
    assert_eq!(calculate_rating(1, &cur).unwrap().rating, "0.52");
}

#[test]
fn calculate_rating_errors() {
    let cur = Rating { rating: "0.00".to_string(), votes: "0.00".to_string() };
    assert_eq!(calculate_rating(0, &cur).unwrap_err(), RatingError::InvalidRating);
    assert_eq!(calculate_rating(6, &cur).unwrap_err(), RatingError::InvalidRating);
    let bad = Rating { rating: "five".to_string(), votes: "0.00".to_string() };
    assert_eq!(calculate_rating(3, &bad).unwrap_err(), RatingError::InvalidNumber);
    let bad = Rating { rating: "1.00".to_string(), votes: "many".to_string() };
    assert_eq!(calculate_rating(3, &bad).unwrap_err(), RatingError::InvalidNumber);
    // -1 votes so far: the new count is zero, and the division fails
    let zero = Rating { rating: "1.00".to_string(), votes: "-1.00".to_string() };
    assert_eq!(calculate_rating(3, &zero).unwrap_err(), RatingError::Overflow);
}

#[test]
fn instantiate_sets_store_and_config() {
    let deps = setup();
    let store = query_store_info(&deps).unwrap().store_info;
    assert_eq!(store.storeName, "village1");
    assert_eq!(store.storeAdmin, "creator");
    assert_eq!(store.refundPeriodPolicy, 100);
    assert_eq!(store.storeRating.rating, "0.00");
    assert_eq!(store.storeRating.votes, "0.00");
    assert_eq!(query_config(&deps).unwrap().config.payDenom, "ucosm");
}

#[test]
fn instantiate_refuses_bad_store_name() {
    let mut deps = Marketplace::new();
    let msg = InstantiateMsg { storeName: "v1".to_string(), refundPeriodPolicy: Some(3) };
    match instantiate(&mut deps, &info("creator", vec![]), msg) {
        Err(ContractError::NameTooShort { length: 2, min_length: 3 }) => {}
        other => panic!("{:?}", other),
    }
    assert!(query_store_info(&deps).is_err());
    assert!(query_config(&deps).is_err());
}

#[test]
fn requests_before_instantiate_fail_on_storage() {
    let mut deps = Marketplace::new();
    register(&mut deps, "user-one", "user1");
    match list(&mut deps, "user-one", "lap-top", 10) {
        Err(ContractError::Std(_)) => {}
        other => panic!("{:?}", other),
    }
    match execute_rate_store(&mut deps, &info("user-one", vec![]), 3) {
        Err(ContractError::Std(_)) => {}
        other => panic!("{:?}", other),
    }
}

#[test]
fn register_passes_address_error_through() {
    let mut deps = setup();
    let err = cosmwasm_std::StdError::generic_err("Invalid input: address not normalized");
    match execute_register(&mut deps, "user1".to_string(), Err(err)) {
        Err(ContractError::Std(e)) => {
            assert_eq!(e, cosmwasm_std::StdError::generic_err("Invalid input: address not normalized"))
        }
        other => panic!("{:?}", other),
    }
    assert!(query_user(&deps, "user-one".to_string()).is_err());
}

#[test]
fn register_stores_user_once() {
    let mut deps = setup();
    let resp = execute_register(&mut deps, "user1".to_string(), Ok("user-one".to_string())).unwrap();
    assert_eq!(resp.attributes[1].key, "user_id");
    assert_eq!(resp.attributes[1].value, "user-one");
    let user = query_user(&deps, "user-one".to_string()).unwrap().user_info;
    assert_eq!(user.name, "user1");
    assert_eq!(user.role, Roles::Regular);
    assert!(user.rating.is_none());
    match execute_register(&mut deps, "other".to_string(), Ok("user-one".to_string())) {
        Err(ContractError::ExistingUser {}) => {}
        other => panic!("{:?}", other),
    }
    assert_eq!(query_user(&deps, "user-one".to_string()).unwrap().user_info.name, "user1");
}

#[test]
fn listing_ids_increase_and_read_back() {
    let mut deps = setup();
    register(&mut deps, "user-one", "user1");
    let resp = execute_new_listing(
        &mut deps,
        &info("user-one", vec![]),
        "lamp".to_string(),
        Coin { denom: "ucosm".to_string(), amount: 3 },
        Some("old".to_string()),
    )
    .unwrap();
    assert_eq!(resp.attributes[1].value, "1");
    list(&mut deps, "user-one", "chair", 4).unwrap();
    list(&mut deps, "user-one", "table", 5).unwrap();
    let l = query_entry(&deps, 3).unwrap().listing;
    assert_eq!((l.name.as_str(), l.price.amount, l.id), ("table", 5, 3));
    assert_eq!(l.seller, "user-one");
    assert_eq!(query_entry(&deps, 1).unwrap().listing.desc, Some("old".to_string()));
    assert_eq!(deps.load_counter(), Some(3));
    // a deleted id is not handed out again
    execute_delete_listing(&mut deps, &info("user-one", vec![]), 3).unwrap();
    list(&mut deps, "user-one", "sofa", 6).unwrap();
    assert!(query_entry(&deps, 3).is_err());
    assert_eq!(query_entry(&deps, 4).unwrap().listing.name, "sofa");
}

#[test]
fn new_listing_refusals() {
    let mut deps = setup();
    register(&mut deps, "user-one", "user1");
    let wrong = Coin { denom: "uatom".to_string(), amount: 3 };
    match execute_new_listing(&mut deps, &info("user-one", vec![]), "lamp".to_string(), wrong, None) {
        Err(ContractError::InvalidDenom { exp, rec }) => {
            assert_eq!((exp.as_str(), rec.as_str()), ("ucosm", "uatom"))
        }
        other => panic!("{:?}", other),
    }
    match list(&mut deps, "user-two", "lamp", 3) {
        Err(ContractError::GenericMsgErr { msg }) => assert_eq!(msg, "You haven't registered"),
        other => panic!("{:?}", other),
    }
    assert_eq!(listing_count(&deps), 0);
    assert_eq!(deps.load_counter(), None);
}

#[test]
fn update_listing_changes_given_fields_and_seller() {
    let mut deps = setup();
    register(&mut deps, "user-one", "user1");
    list(&mut deps, "user-one", "lamp", 3).unwrap();
    execute_update_listing(
        &mut deps,
        &info("user-two", vec![]),
        1,
        None,
        Some(Coin { denom: "ucosm".to_string(), amount: 9 }),
        Some("bright".to_string()),
    )
    .unwrap();
    let l = query_entry(&deps, 1).unwrap().listing;
    assert_eq!(l.name, "lamp");
    assert_eq!(l.price.amount, 9);
    assert_eq!(l.seller, "user-two");
    assert_eq!(l.desc, Some("bright".to_string()));
    match execute_update_listing(&mut deps, &info("user-two", vec![]), 7, None, None, None) {
        Err(ContractError::Std(_)) => {}
        other => panic!("{:?}", other),
    }
    let wrong = Some(Coin { denom: "uatom".to_string(), amount: 9 });
    match execute_update_listing(&mut deps, &info("user-two", vec![]), 1, None, wrong, None) {
        Err(ContractError::InvalidDenom { .. }) => {}
        other => panic!("{:?}", other),
    }
}

#[test]
fn delete_listing_only_by_seller() {
    let mut deps = setup();
    register(&mut deps, "user-one", "user1");
    list(&mut deps, "user-one", "lamp", 3).unwrap();
    match execute_delete_listing(&mut deps, &info("user-two", vec![]), 1) {
        Err(ContractError::NotAnOwner {}) => {}
        other => panic!("{:?}", other),
    }
    assert!(query_entry(&deps, 1).is_ok());
    let resp = execute_delete_listing(&mut deps, &info("user-one", vec![]), 1).unwrap();
    assert_eq!(resp.attributes[0].value, "delete");
    assert!(query_entry(&deps, 1).is_err());
    match execute_delete_listing(&mut deps, &info("user-one", vec![]), 1) {
        Err(ContractError::Std(_)) => {}
        other => panic!("{:?}", other),
    }
}

#[test]
fn buy_refusals_keep_the_listing() {
    let mut deps = setup();
    register(&mut deps, "user-one", "user1");
    list(&mut deps, "user-one", "lamp", 150).unwrap();
    match execute_buy(&mut deps, &info("user-two", vec![]), 1) {
        Err(ContractError::GenericMsgErr { msg }) => assert_eq!(msg, "Send some tokens with the Trx."),
        other => panic!("{:?}", other),
    }
    let atoms = vec![Coin { denom: "uatom".to_string(), amount: 1000 }];
    match execute_buy(&mut deps, &info("user-two", atoms), 1) {
        Err(ContractError::InvalidDenom { .. }) => {}
        other => panic!("{:?}", other),
    }
    match execute_buy(&mut deps, &info("user-two", ucosm(149)), 1) {
        Err(ContractError::InsufficientFunds { exp, rec }) => assert_eq!((exp, rec), (150, 149)),
        other => panic!("{:?}", other),
    }
    match execute_buy(&mut deps, &info("user-two", ucosm(150)), 2) {
        Err(ContractError::Std(_)) => {}
        other => panic!("{:?}", other),
    }
    assert!(query_entry(&deps, 1).is_ok());
    // the exact price is enough
    execute_buy(&mut deps, &info("user-two", ucosm(150)), 1).unwrap();
    assert!(query_entry(&deps, 1).is_err());
}

#[test]
fn rate_store_once_per_address() {
    let mut deps = setup();
    execute_rate_store(&mut deps, &info("user-one", vec![]), 4).unwrap();
    match execute_rate_store(&mut deps, &info("user-one", vec![]), 2) {
        Err(ContractError::HasAlreadyRated { addr }) => assert_eq!(addr, "user-one"),
        other => panic!("{:?}", other),
    }
    let rating = query_store_info(&deps).unwrap().store_info.storeRating;
    assert_eq!(rating.votes, "1.00");
    match execute_rate_store(&mut deps, &info("user-two", vec![]), 0) {
        Err(ContractError::GenericMsgErr { msg }) => assert_eq!(msg, "Failed calculating rating"),
        other => panic!("{:?}", other),
    }
    // the refused vote was not counted, so user-two may still vote
    execute_rate_store(&mut deps, &info("user-two", vec![]), 4).unwrap();
    assert_eq!(query_store_info(&deps).unwrap().store_info.storeRating.votes, "2.00");
}

#[test]
fn rate_seller_checks_and_stores_nothing() {
    let mut deps = setup();
    register(&mut deps, "seller", "seller1");
    match execute_rate_seller(&mut deps, &info("buyer", vec![]), "nobody".to_string(), 4) {
        Err(ContractError::Std(_)) => {}
        other => panic!("{:?}", other),
    }
    match execute_rate_seller(&mut deps, &info("seller", vec![]), "seller".to_string(), 4) {
        Err(ContractError::GenericMsgErr { msg }) => assert_eq!(msg, " Can't rate yourself"),
        other => panic!("{:?}", other),
    }
    let resp = execute_rate_seller(&mut deps, &info("buyer", vec![]), "seller".to_string(), 4).unwrap();
    assert_eq!(resp.attributes[1].value, "buyer");
    // nothing was stored: the same vote is taken again, and the seller has no rating
    execute_rate_seller(&mut deps, &info("buyer", vec![]), "seller".to_string(), 4).unwrap();
    assert!(query_user(&deps, "seller".to_string()).unwrap().user_info.rating.is_none());
    assert!(deps.seller_rater_addresses().is_empty());
}

#[test]
fn listing_pages() {
    let mut deps = setup();
    register(&mut deps, "user-one", "user1");
    for _ in 0..35 {
        list(&mut deps, "user-one", "item", 1).unwrap();
    }
    let ids = |v: Vec<Listing>| v.into_iter().map(|l| l.id).collect::<Vec<u64>>();
    assert_eq!(ids(query_list(&deps, None, None).unwrap().listings), (1..=10).collect::<Vec<u64>>());
    assert_eq!(ids(query_list(&deps, None, Some(50)).unwrap().listings), (1..=30).collect::<Vec<u64>>());
    assert_eq!(ids(query_list(&deps, Some(30), None).unwrap().listings), (31..=35).collect::<Vec<u64>>());
    assert_eq!(ids(query_list(&deps, Some(3), Some(2)).unwrap().listings), vec![4, 5]);
    execute_delete_listing(&mut deps, &info("user-one", vec![]), 5).unwrap();
    assert_eq!(ids(query_list(&deps, Some(3), Some(2)).unwrap().listings), vec![4, 6]);
    assert!(query_list(&deps, Some(35), None).unwrap().listings.is_empty());
    assert_eq!(ids(query_list(&deps, Some(0), Some(0)).unwrap().listings), Vec::<u64>::new());
}

#[test]
fn execute_dispatches_and_counter_guard() {
    let mut deps = setup();
    let i = info("user-one", vec![]);
    let msg = ExecuteMsg::Register { user: "user1".to_string() };
    let resp = execute(&mut deps, &i, msg, Ok("user-one".to_string())).unwrap();
    assert_eq!(resp.attributes[0].value, "register");
    let msg = ExecuteMsg::ListItem {
        name: "lamp".to_string(),
        price: Coin { denom: "ucosm".to_string(), amount: 1 },
        desc: None,
    };
    assert!(can_execute(&deps, &i, &msg));
    deps.save_counter(u64::MAX);
    assert!(!can_execute(&deps, &i, &msg));
    // a listing that would be refused anyway does not need the counter
    let refused = ExecuteMsg::ListItem {
        name: "x".to_string(),
        price: Coin { denom: "ucosm".to_string(), amount: 1 },
        desc: None,
    };
    assert!(can_execute(&deps, &i, &refused));
}

#[test]
fn restore_listing_keeps_order() {
    let mut deps = Marketplace::new();
    let l = |id: u64| Listing {
        name: "lamp".to_string(),
        price: Coin { denom: "ucosm".to_string(), amount: 1 },
        seller: "s".to_string(),
        desc: None,
        id,
    };
    assert!(!deps.restore_listing(l(1)));
    deps.save_counter(5);
    assert!(deps.restore_listing(l(2)));
    assert!(!deps.restore_listing(l(2)));
    assert!(!deps.restore_listing(l(1)));
    assert!(deps.restore_listing(l(5)));
    assert!(!deps.restore_listing(l(6)));
    assert_eq!(deps.listing_ids().clone(), vec![2, 5]);
}

fn not_found_kind(e: ContractError) -> String {
    match e {
        ContractError::Std(cosmwasm_std::StdError::NotFound { kind, .. }) => kind,
        other => panic!("{:?}", other),
    }
}

#[test]
fn missing_items_report_their_storage_keys() {
    let mut deps = Marketplace::new();
    let e = list(&mut deps, "user-one", "lamp", 1).unwrap_err();
    assert_eq!(
        not_found_kind(e),
        "type: village_contracts::state::Config; key: [63, 6F, 6E, 66, 69, 67]"
    );
    let e = execute_rate_store(&mut deps, &info("user-one", vec![]), 3).unwrap_err();
    assert_eq!(
        not_found_kind(e),
        "type: village_contracts::state::Store; key: [73, 74, 6F, 72, 65]"
    );
    let mut deps = setup();
    let e = execute_buy(&mut deps, &info("user-two", ucosm(5)), 258).unwrap_err();
    assert_eq!(
        not_found_kind(e),
        "type: village_contracts::state::Listing; key: [00, 08, 6C, 69, 73, 74, 69, 6E, 67, 73, 00, 00, 00, 00, 00, 00, 01, 02]"
    );
    let e = execute_rate_seller(&mut deps, &info("user-one", vec![]), "ab".to_string(), 3).unwrap_err();
    assert_eq!(
        not_found_kind(e),
        "type: village_contracts::state::User; key: [00, 05, 75, 73, 65, 72, 73, 61, 62]"
    );
    match query_entry(&deps, 1) {
        Err(cosmwasm_std::StdError::NotFound { kind, .. }) => assert_eq!(
            kind,
            "type: village_contracts::state::Listing; key: [00, 08, 6C, 69, 73, 74, 69, 6E, 67, 73, 00, 00, 00, 00, 00, 00, 00, 01]"
        ),
        other => panic!("{:?}", other),
    }
}
