//! The contract's requests: what each one does to the state and answers,
//! stated as a spec function of the state before it, and the verified
//! functions that carry them out.

use vstd::prelude::*;
use vstd::string::*;
use cosmwasm_std::StdError;
use crate::error::{std_not_found, ContractError, ContractErrorView};
use crate::keys::{config_missing, listing_missing, store_missing, user_missing};
use crate::helpers::{
    calculate_rating, check_for_valid_coin, counter_can_advance, name_fault, next_id,
    rating_outcome, update_counter, validate_name,
};
use crate::msg::{
    ConfigResponse, ExecuteMsg, InstantiateMsg, ListingResponse, ListingsResponse, MessageInfo,
    QueryAnswer, QueryMsg, Response, StoreInfoResponse, UserResponse,
};
use crate::state::{
    Coin, CoinView, Config, ConfigView, Listing, ListingView, MarketView, Marketplace, Rating,
    RatingView, Roles, Store, StoreView, User, UserView, opt_text,
};
use crate::text::{decimal_text, u64_text};

verus! {

/// The attributes of a response, as pairs of texts.
pub type Attrs = Seq<(Seq<char>, Seq<char>)>;

/// What a request comes to: the state after it and the attributes that its
/// response reports, or the error that refuses it.
pub type Outcome = Result<(MarketView, Attrs), ContractErrorView>;

/// A request's result `r`, with the state `pre` before it and `post` after
/// it, is the outcome `o`: on success the new state, no messages and the
/// stated attributes; on refusal the stated error and the state unchanged.
pub open spec fn outcome_holds(
    r: Result<Response, ContractError>,
    pre: MarketView,
    post: MarketView,
    o: Outcome,
) -> bool {
    match o {
        Ok((s2, attrs)) => r matches Ok(resp) && post == s2 && resp.messages@.len() == 0
            && resp.attrs() == attrs,
        Err(ev) => r matches Err(e) && post == pre && e@ == ev,
    }
}

/// The address that the chain's check of the sender gave, or its refusal.
pub open spec fn sender_view(v: Result<String, StdError>) -> Result<Seq<char>, StdError> {
    match v {
        Ok(a) => Ok(a@),
        Err(e) => Err(e),
    }
}

pub open spec fn opt_coin(o: Option<Coin>) -> Option<CoinView> {
    match o {
        Some(c) => Some(c@),
        None => None,
    }
}

pub open spec fn funds_view(funds: Seq<Coin>) -> Seq<CoinView> {
    funds.map_values(|c: Coin| c@)
}

/// The state without the listing stored under `id`.
pub open spec fn without_listing(s: MarketView, id: u64) -> MarketView {
    MarketView {
        listings: s.listings.remove(id),
        listing_ids: s.listing_ids.remove(s.listing_ids.index_of(id)),
        ..s
    }
}

/// Setting up the store: its name must be a valid name; the admin is the
/// sender; payments are in `ucosm`; the refund period is 100 unless given.
pub open spec fn instantiate_outcome(
    s: MarketView,
    sender: Seq<char>,
    store_name: Seq<char>,
    refund: Option<u64>,
) -> Outcome {
    match name_fault(store_name) {
        Some(e) => Err(e),
        None => Ok(
            (
                MarketView {
                    config: Some(ConfigView { pay_denom: "ucosm"@ }),
                    store: Some(
                        StoreView {
                            store_name,
                            store_rating: RatingView { rating: "0.00"@, votes: "0.00"@ },
                            store_admin: sender,
                            refund_period_policy: match refund {
                                Some(p) => p,
                                None => 100,
                            },
                        },
                    ),
                    ..s
                },
                seq![("method"@, "instantiate"@), ("owner"@, sender), ("storeName"@, store_name)],
            ),
        ),
    }
}

/// Registering the sender under a name: the name must be valid, the
/// sender's address must pass the chain's check, and it must not be
/// registered yet.
pub open spec fn register_outcome(
    s: MarketView,
    name: Seq<char>,
    sender: Result<Seq<char>, StdError>,
) -> Outcome {
    match name_fault(name) {
        Some(e) => Err(e),
        None => match sender {
            Err(e) => Err(ContractErrorView::Std(e)),
            Ok(id) => if s.users.contains_key(id) {
                Err(ContractErrorView::ExistingUser)
            } else {
                Ok(
                    (
                        MarketView {
                            users: s.users.insert(
                                id,
                                UserView { name, role: Roles::Regular, rating: None },
                            ),
                            ..s
                        },
                        seq![("method"@, "register"@), ("user_id"@, id)],
                    ),
                )
            },
        },
    }
}

/// Why a new listing is refused, if it is: no settings stored, an invalid
/// name, a price in another denomination, or a sender who is not registered.
pub open spec fn new_listing_fault(
    s: MarketView,
    sender: Seq<char>,
    name: Seq<char>,
    price: CoinView,
) -> Option<ContractErrorView> {
    match s.config {
        None => Some(ContractErrorView::Std(std_not_found(config_missing()))),
        Some(cfg) => match name_fault(name) {
            Some(e) => Some(e),
            None => if price.denom != cfg.pay_denom {
                Some(ContractErrorView::InvalidDenom(cfg.pay_denom, price.denom))
            } else if !s.users.contains_key(sender) {
                Some(ContractErrorView::GenericMsgErr("You haven't registered"@))
            } else {
                None
            },
        },
    }
}

/// Putting up a listing: it is stored under the next id of the counter,
/// with the sender as seller.
pub open spec fn new_listing_outcome(
    s: MarketView,
    sender: Seq<char>,
    name: Seq<char>,
    price: CoinView,
    desc: Option<Seq<char>>,
) -> Outcome {
    match new_listing_fault(s, sender, name, price) {
        Some(e) => Err(e),
        None => {
            let id = next_id(s.item_counter) as u64;
            Ok(
                (
                    MarketView {
                        item_counter: Some(id),
                        listings: s.listings.insert(
                            id,
                            ListingView { name, price, seller: sender, desc, id },
                        ),
                        listing_ids: s.listing_ids.push(id),
                        ..s
                    },
                    seq![("method"@, "add_new"@), ("listing_id"@, decimal_text(id as nat))],
                ),
            )
        },
    }
}

/// Changing a listing: a new name must be valid and a new price in the
/// contract's denomination; the listing must exist. Name and price are
/// replaced where given, the description always, and the sender becomes the
/// seller.
pub open spec fn update_listing_outcome(
    s: MarketView,
    sender: Seq<char>,
    id: u64,
    name: Option<Seq<char>>,
    price: Option<CoinView>,
    desc: Option<Seq<char>>,
) -> Outcome {
    match s.config {
        None => Err(ContractErrorView::Std(std_not_found(config_missing()))),
        Some(cfg) => if name is Some && name_fault(name->0) is Some {
            Err(name_fault(name->0)->0)
        } else if price is Some && price->0.denom != cfg.pay_denom {
            Err(ContractErrorView::InvalidDenom(cfg.pay_denom, price->0.denom))
        } else if !s.listings.contains_key(id) {
            Err(ContractErrorView::Std(std_not_found(listing_missing(id))))
        } else {
            let old_l = s.listings[id];
            let l = ListingView {
                name: match name {
                    Some(n) => n,
                    None => old_l.name,
                },
                price: match price {
                    Some(p) => p,
                    None => old_l.price,
                },
                seller: sender,
                desc,
                id,
            };
            Ok(
                (
                    MarketView { listings: s.listings.insert(id, l), ..s },
                    seq![("method"@, "update"@), ("listing_id"@, decimal_text(id as nat))],
                ),
            )
        },
    }
}

/// Removing a listing: it must exist, and only its seller may remove it.
pub open spec fn delete_listing_outcome(s: MarketView, sender: Seq<char>, id: u64) -> Outcome {
    if !s.listings.contains_key(id) {
        Err(ContractErrorView::Std(std_not_found(listing_missing(id))))
    } else if s.listings[id].seller != sender {
        Err(ContractErrorView::NotAnOwner)
    } else {
        Ok(
            (
                without_listing(s, id),
                seq![("method"@, "delete"@), ("listing_id"@, decimal_text(id as nat))],
            ),
        )
    }
}

/// Buying a listing: it must exist and belong to someone else; the first
/// coin sent must be in the contract's denomination and cover the price.
/// The listing is then gone.
pub open spec fn buy_outcome(s: MarketView, sender: Seq<char>, funds: Seq<CoinView>, id: u64) -> Outcome {
    if !s.listings.contains_key(id) {
        Err(ContractErrorView::Std(std_not_found(listing_missing(id))))
    } else if s.listings[id].seller == sender {
        Err(ContractErrorView::BuyFromSelf)
    } else if funds.len() < 1 {
        Err(ContractErrorView::GenericMsgErr("Send some tokens with the Trx."@))
    } else {
        match s.config {
            None => Err(ContractErrorView::Std(std_not_found(config_missing()))),
            Some(cfg) => if funds[0].denom != cfg.pay_denom {
                Err(ContractErrorView::InvalidDenom(cfg.pay_denom, funds[0].denom))
            } else if funds[0].amount < s.listings[id].price.amount {
                Err(ContractErrorView::InsufficientFunds(s.listings[id].price.amount, funds[0].amount))
            } else {
                Ok(
                    (
                        without_listing(s, id),
                        seq![
                            ("method"@, "buy"@),
                            ("listing_id"@, decimal_text(id as nat)),
                            ("buyer"@, sender),
                        ],
                    ),
                )
            },
        }
    }
}

/// Rating the store: each address rates once; the vote is added to the
/// store's rating by [`rating_outcome`], and any failure there refuses the
/// request.
pub open spec fn rate_store_outcome(s: MarketView, sender: Seq<char>, rating: u16) -> Outcome {
    match s.store {
        None => Err(ContractErrorView::Std(std_not_found(store_missing()))),
        Some(st) => if s.store_raters.contains_key(sender) {
            Err(ContractErrorView::HasAlreadyRated(sender))
        } else {
            match rating_outcome(st.store_rating, rating) {
                Err(_) => Err(ContractErrorView::GenericMsgErr("Failed calculating rating"@)),
                Ok(nr) => Ok(
                    (
                        MarketView {
                            store: Some(StoreView { store_rating: nr, ..st }),
                            store_raters: s.store_raters.insert(sender, true),
                            ..s
                        },
                        seq![("method"@, "rate_store"@), ("rater"@, sender)],
                    ),
                ),
            }
        }
    }
}

/// Rating a seller: the seller must be registered and not the sender, and
/// the sender must not have rated a seller before. The state is left as it
/// is: the new rating is computed and not stored.
pub open spec fn rate_seller_outcome(s: MarketView, sender: Seq<char>, seller: Seq<char>) -> Outcome {
    if !s.users.contains_key(seller) {
        Err(ContractErrorView::Std(std_not_found(user_missing(seller))))
    } else if sender == seller {
        Err(ContractErrorView::GenericMsgErr(" Can't rate yourself"@))
    } else if s.seller_raters.contains_key(sender) {
        Err(ContractErrorView::HasAlreadyRated(sender))
    } else {
        Ok((s, seq![("method"@, "rate_seller"@), ("rater"@, sender)]))
    }
}

/// Sets up the store and the contract's settings.
pub fn instantiate(deps: &mut Marketplace, info: &MessageInfo, msg: InstantiateMsg) -> (r: Result<
    Response,
    ContractError,
>)
    requires
        old(deps).wf(),
    ensures
        final(deps).wf(),
        outcome_holds(
            r,
            old(deps)@,
            final(deps)@,
            instantiate_outcome(
                old(deps)@,
                info.sender@,
                msg.storeName@,
                msg.refundPeriodPolicy,
            ),
        ),
{
    if let Err(e) = validate_name(msg.storeName.as_str()) {
        return Err(e);
    }
    let config_state = Config { payDenom: String::from_str("ucosm") };
    let state = Store {
        storeName: msg.storeName.clone(),
        storeRating: Rating { rating: String::from_str("0.00"), votes: String::from_str("0.00") },
        storeAdmin: info.sender.clone(),
        refundPeriodPolicy: match msg.refundPeriodPolicy {
            Some(p) => p,
            None => 100,
        },
    };
    deps.save_store(state);
    deps.save_config(config_state);
    let resp = Response::new().add_attribute("method", String::from_str("instantiate")).add_attribute(
        "owner",
        info.sender.clone(),
    ).add_attribute("storeName", msg.storeName);
    proof {
        let pair = instantiate_outcome(old(deps)@, info.sender@, msg.storeName@, msg.refundPeriodPolicy)->Ok_0;
        assert(deps@ =~= pair.0);
        assert(resp.attrs() =~= pair.1);
    }
    Ok(resp)
}


/// Registers the sender under a name. `validated_sender` is what the chain's
/// check of the sender's address gave.
pub fn execute_register(
    deps: &mut Marketplace,
    user_name: String,
    validated_sender: Result<String, StdError>,
) -> (r: Result<Response, ContractError>)
    requires
        old(deps).wf(),
    ensures
        final(deps).wf(),
        outcome_holds(
            r,
            old(deps)@,
            final(deps)@,
            register_outcome(old(deps)@, user_name@, sender_view(validated_sender)),
        ),
{
    if let Err(e) = validate_name(user_name.as_str()) {
        return Err(e);
    }
    let id = match validated_sender {
        Ok(a) => a,
        Err(e) => return Err(ContractError::Std(e)),
    };
    let is_registered = deps.has_user(id.as_str());
    if is_registered {
        return Err(ContractError::ExistingUser {  });
    }
    let user = User { name: user_name, role: Roles::Regular, rating: None };
    let ghost uv = user@;
    deps.save_user(id.clone(), user);
    let resp = Response::new().add_attribute("method", String::from_str("register")).add_attribute(
        "user_id",
        id,
    );
    proof {
        let pair = register_outcome(old(deps)@, user_name@, sender_view(validated_sender))->Ok_0;
        assert(uv == UserView { name: user_name@, role: Roles::Regular, rating: None });
        assert(deps@ =~= pair.0);
        assert(resp.attrs() =~= pair.1);
    }
    Ok(resp)
}

/// Puts up a listing for sale under the next id of the counter.
pub fn execute_new_listing(
    deps: &mut Marketplace,
    info: &MessageInfo,
    name: String,
    price: Coin,
    desc: Option<String>,
) -> (r: Result<Response, ContractError>)
    requires
        old(deps).wf(),
        new_listing_fault(old(deps)@, info.sender@, name@, price@) is None ==> counter_can_advance(
            old(deps)@,
        ),
    ensures
        final(deps).wf(),
        outcome_holds(
            r,
            old(deps)@,
            final(deps)@,
            new_listing_outcome(old(deps)@, info.sender@, name@, price@, opt_text(desc)),
        ),
{
    let config_state = match deps.load_config() {
        Ok(c) => c,
        Err(e) => return Err(ContractError::Std(e)),
    };
    if let Err(e) = validate_name(name.as_str()) {
        return Err(e);
    }
    if let Err(e) = check_for_valid_coin(&price, config_state.payDenom) {
        return Err(e);
    }
    let is_registered = deps.has_user(info.sender.as_str());
    if !is_registered {
        return Err(ContractError::GenericMsgErr { msg: String::from_str("You haven't registered") });
    }
    let ghost before = deps@;
    proof {
        deps.lemma_view_wf();
    }
    let id = update_counter(deps);
    let listing = Listing { name, price, desc, id, seller: info.sender.clone() };
    let ghost lv = listing@;
    proof {
        assert forall|k: u64| #[trigger] deps@.listings.contains_key(k) implies k < id by {
            assert(before.listings.contains_key(k));
        }
    }
    deps.add_listing(listing);
    let resp = Response::new().add_attribute("method", String::from_str("add_new")).add_attribute(
        "listing_id",
        u64_text(id),
    );
    proof {
        let pair = new_listing_outcome(old(deps)@, info.sender@, name@, price@, opt_text(desc))->Ok_0;
        assert(lv == ListingView { name: name@, price: price@, seller: info.sender@, desc: opt_text(desc), id });
        assert(deps@ =~= pair.0);
        assert(resp.attrs() =~= pair.1);
    }
    Ok(resp)
}

/// Changes a listing's name, price and description; the sender becomes its
/// seller.
pub fn execute_update_listing(
    deps: &mut Marketplace,
    info: &MessageInfo,
    id: u64,
    name: Option<String>,
    price: Option<Coin>,
    desc: Option<String>,
) -> (r: Result<Response, ContractError>)
    requires
        old(deps).wf(),
    ensures
        final(deps).wf(),
        outcome_holds(
            r,
            old(deps)@,
            final(deps)@,
            update_listing_outcome(
                old(deps)@,
                info.sender@,
                id,
                opt_text(name),
                opt_coin(price),
                opt_text(desc),
            ),
        ),
{
    let config_state = match deps.load_config() {
        Ok(c) => c,
        Err(e) => return Err(ContractError::Std(e)),
    };
    if let Some(n) = &name {
        if let Err(e) = validate_name(n.as_str()) {
            return Err(e);
        }
    }
    if let Some(p) = &price {
        if let Err(e) = check_for_valid_coin(p, config_state.payDenom) {
            return Err(e);
        }
    }
    let listing = match deps.load_listing(id) {
        Ok(l) => l,
        Err(e) => return Err(ContractError::Std(e)),
    };
    let updated_listing = Listing {
        name: match name {
            Some(n) => n,
            None => listing.name,
        },
        price: match price {
            Some(p) => p,
            None => listing.price,
        },
        desc,
        id,
        seller: info.sender.clone(),
    };
    let ghost lv = updated_listing@;
    deps.replace_listing(updated_listing);
    let resp = Response::new().add_attribute("method", String::from_str("update")).add_attribute(
        "listing_id",
        u64_text(id),
    );
    proof {
        let pair = update_listing_outcome(
            old(deps)@,
            info.sender@,
            id,
            opt_text(name),
            opt_coin(price),
            opt_text(desc),
        )->Ok_0;
        assert(deps@ =~= pair.0);
        assert(resp.attrs() =~= pair.1);
    }
    Ok(resp)
}

/// Removes a listing; only its seller may.
pub fn execute_delete_listing(deps: &mut Marketplace, info: &MessageInfo, id: u64) -> (r: Result<
    Response,
    ContractError,
>)
    requires
        old(deps).wf(),
    ensures
        final(deps).wf(),
        outcome_holds(r, old(deps)@, final(deps)@, delete_listing_outcome(old(deps)@, info.sender@, id)),
{
    let listing = match deps.load_listing(id) {
        Ok(l) => l,
        Err(e) => return Err(ContractError::Std(e)),
    };
    if listing.seller != info.sender {
        return Err(ContractError::NotAnOwner {  });
    }
    deps.remove_listing(id);
    let resp = Response::new().add_attribute("method", String::from_str("delete")).add_attribute(
        "listing_id",
        u64_text(id),
    );
    proof {
        let pair = delete_listing_outcome(old(deps)@, info.sender@, id)->Ok_0;
        assert(deps@ =~= pair.0);
        assert(resp.attrs() =~= pair.1);
    }
    Ok(resp)
}

/// Buys a listing with the first coin sent, which removes it.
pub fn execute_buy(deps: &mut Marketplace, info: &MessageInfo, id: u64) -> (r: Result<
    Response,
    ContractError,
>)
    requires
        old(deps).wf(),
    ensures
        final(deps).wf(),
        outcome_holds(
            r,
            old(deps)@,
            final(deps)@,
            buy_outcome(old(deps)@, info.sender@, funds_view(info.funds@), id),
        ),
{
    let listing = match deps.load_listing(id) {
        Ok(l) => l,
        Err(e) => return Err(ContractError::Std(e)),
    };
    if listing.seller == info.sender {
        return Err(ContractError::BuyFromSelf {  });
    }
    if info.funds.len() < 1 {
        return Err(
            ContractError::GenericMsgErr { msg: String::from_str("Send some tokens with the Trx.") },
        );
    }
    let config_state = match deps.load_config() {
        Ok(c) => c,
        Err(e) => return Err(ContractError::Std(e)),
    };
    if let Err(e) = check_for_valid_coin(&info.funds[0], config_state.payDenom) {
        return Err(e);
    }
    let rec: u128 = info.funds[0].amount;
    let exp: u128 = listing.price.amount;
    if rec < exp {
        return Err(ContractError::InsufficientFunds { exp, rec });
    }
    deps.remove_listing(id);
    let resp = Response::new().add_attribute("method", String::from_str("buy")).add_attribute(
        "listing_id",
        u64_text(id),
    ).add_attribute("buyer", info.sender.clone());
    proof {
        let pair = buy_outcome(old(deps)@, info.sender@, funds_view(info.funds@), id)->Ok_0;
        assert(deps@ =~= pair.0);
        assert(resp.attrs() =~= pair.1);
    }
    Ok(resp)
}

/// Adds the sender's vote to the store's rating; each address votes once.
pub fn execute_rate_store(deps: &mut Marketplace, info: &MessageInfo, rating: u16) -> (r: Result<
    Response,
    ContractError,
>)
    requires
        old(deps).wf(),
    ensures
        final(deps).wf(),
        outcome_holds(r, old(deps)@, final(deps)@, rate_store_outcome(old(deps)@, info.sender@, rating)),
{
    let store = match deps.load_store() {
        Ok(st) => st,
        Err(e) => return Err(ContractError::Std(e)),
    };
    let has_rated = deps.has_store_rater(info.sender.as_str());
    if has_rated {
        return Err(ContractError::HasAlreadyRated { addr: info.sender.clone() });
    }
    let calculated = match calculate_rating(rating, &store.storeRating) {
        Ok(res) => res,
        Err(_) => return Err(
            ContractError::GenericMsgErr { msg: String::from_str("Failed calculating rating") },
        ),
    };
    let updated = Store {
        storeName: store.storeName,
        storeRating: calculated,
        storeAdmin: store.storeAdmin,
        refundPeriodPolicy: store.refundPeriodPolicy,
    };
    deps.save_store(updated);
    deps.save_store_rater(info.sender.clone(), true);
    let resp = Response::new().add_attribute("method", String::from_str("rate_store")).add_attribute(
        "rater",
        info.sender.clone(),
    );
    proof {
        let pair = rate_store_outcome(old(deps)@, info.sender@, rating)->Ok_0;
        assert(deps@ =~= pair.0);
        assert(resp.attrs() =~= pair.1);
    }
    Ok(resp)
}

/// Checks a vote of the sender for a seller and computes the seller's new
/// rating, which is not stored.
pub fn execute_rate_seller(
    deps: &mut Marketplace,
    info: &MessageInfo,
    seller_addr: String,
    rating: u16,
) -> (r: Result<Response, ContractError>)
    requires
        old(deps).wf(),
    ensures
        final(deps).wf(),
        outcome_holds(
            r,
            old(deps)@,
            final(deps)@,
            rate_seller_outcome(old(deps)@, info.sender@, seller_addr@),
        ),
{
    let user = match deps.load_user(seller_addr.as_str()) {
        Ok(u) => u,
        Err(e) => return Err(ContractError::Std(e)),
    };
    let has_rated = deps.has_seller_rater(info.sender.as_str());
    if info.sender == seller_addr {
        return Err(ContractError::GenericMsgErr { msg: String::from_str(" Can't rate yourself") });
    }
    if has_rated {
        return Err(ContractError::HasAlreadyRated { addr: info.sender.clone() });
    }
    let cur_rating = match user.rating {
        Some(rt) => rt,
        None => Rating { rating: String::from_str("0.00"), votes: String::from_str("0.00") },
    };
    let new_rating = match calculate_rating(rating, &cur_rating) {
        Ok(rt) => Some(rt),
        Err(_) => None,
    };
    let _updated = User { name: user.name, role: user.role, rating: new_rating };
    let resp = Response::new().add_attribute("method", String::from_str("rate_seller")).add_attribute(
        "rater",
        info.sender.clone(),
    );
    proof {
        let pair = rate_seller_outcome(old(deps)@, info.sender@, seller_addr@)->Ok_0;
        assert(resp.attrs() =~= pair.1);
    }
    Ok(resp)
}


/// What a request comes to, by its kind.
pub open spec fn execute_outcome(
    s: MarketView,
    info: MessageInfo,
    msg: ExecuteMsg,
    validated_sender: Result<Seq<char>, StdError>,
) -> Outcome {
    match msg {
        ExecuteMsg::Register { user } => register_outcome(s, user@, validated_sender),
        ExecuteMsg::ListItem { name, price, desc } => new_listing_outcome(
            s,
            info.sender@,
            name@,
            price@,
            opt_text(desc),
        ),
        ExecuteMsg::UpdateListing { id, name, price, desc } => update_listing_outcome(
            s,
            info.sender@,
            id,
            opt_text(name),
            opt_coin(price),
            opt_text(desc),
        ),
        ExecuteMsg::DeleteListing { id } => delete_listing_outcome(s, info.sender@, id),
        ExecuteMsg::Buy { id } => buy_outcome(s, info.sender@, funds_view(info.funds@), id),
        ExecuteMsg::RateStore { rating } => rate_store_outcome(s, info.sender@, rating),
        ExecuteMsg::RateSeller { sellerAddr, rating } => rate_seller_outcome(
            s,
            info.sender@,
            sellerAddr@,
        ),
    }
}

/// A request can be carried out without the listing counter overflowing.
pub open spec fn execute_can_run(s: MarketView, info: MessageInfo, msg: ExecuteMsg) -> bool {
    match msg {
        ExecuteMsg::ListItem { name, price, desc } => new_listing_fault(
            s,
            info.sender@,
            name@,
            price@,
        ) is None ==> counter_can_advance(s),
        _ => true,
    }
}

/// Whether a new listing would be refused, by [`new_listing_fault`].
pub fn new_listing_refused(deps: &Marketplace, sender: &String, name: &String, price: &Coin) -> (r:
    bool)
    ensures
        r == new_listing_fault(deps@, sender@, name@, price@) is Some,
{
    let config_state = match deps.load_config() {
        Ok(c) => c,
        Err(_) => return true,
    };
    if validate_name(name.as_str()).is_err() {
        return true;
    }
    if check_for_valid_coin(price, config_state.payDenom).is_err() {
        return true;
    }
    !deps.has_user(sender.as_str())
}

/// Whether a request can be carried out without the listing counter
/// overflowing: [`execute_can_run`]. Where it cannot, setting up the listing
/// would overflow the counter.
pub fn can_execute(deps: &Marketplace, info: &MessageInfo, msg: &ExecuteMsg) -> (r: bool)
    ensures
        r == execute_can_run(deps@, *info, *msg),
{
    match msg {
        ExecuteMsg::ListItem { name, price, desc } => {
            let counter_ok = match deps.load_counter() {
                Some(c) => c < u64::MAX,
                None => true,
            };
            counter_ok || new_listing_refused(deps, &info.sender, name, price)
        },
        _ => true,
    }
}

/// Carries out a request. `validated_sender` is what the chain's check of
/// the sender's address gave; only a registration reads it.
pub fn execute(
    deps: &mut Marketplace,
    info: &MessageInfo,
    msg: ExecuteMsg,
    validated_sender: Result<String, StdError>,
) -> (r: Result<Response, ContractError>)
    requires
        old(deps).wf(),
        execute_can_run(old(deps)@, *info, msg),
    ensures
        final(deps).wf(),
        outcome_holds(
            r,
            old(deps)@,
            final(deps)@,
            execute_outcome(old(deps)@, *info, msg, sender_view(validated_sender)),
        ),
{
    match msg {
        ExecuteMsg::Register { user } => execute_register(deps, user, validated_sender),
        ExecuteMsg::ListItem { name, price, desc } => execute_new_listing(
            deps,
            info,
            name,
            price,
            desc,
        ),
        ExecuteMsg::UpdateListing { id, name, price, desc } => execute_update_listing(
            deps,
            info,
            id,
            name,
            price,
            desc,
        ),
        ExecuteMsg::DeleteListing { id } => execute_delete_listing(deps, info, id),
        ExecuteMsg::Buy { id } => execute_buy(deps, info, id),
        ExecuteMsg::RateStore { rating } => execute_rate_store(deps, info, rating),
        ExecuteMsg::RateSeller { sellerAddr, rating } => execute_rate_seller(
            deps,
            info,
            sellerAddr,
            rating,
        ),
    }
}

/// The contract's settings.
pub fn query_config(deps: &Marketplace) -> (r: Result<ConfigResponse, StdError>)
    ensures
        match r {
            Ok(resp) => deps@.config == Some(resp.config@),
            Err(e) => deps@.config is None && e == std_not_found(config_missing()),
        },
{
    match deps.load_config() {
        Ok(entry) => Ok(ConfigResponse { config: entry }),
        Err(e) => Err(e),
    }
}

/// The store's name, rating, admin and refund period.
pub fn query_store_info(deps: &Marketplace) -> (r: Result<StoreInfoResponse, StdError>)
    ensures
        match r {
            Ok(resp) => deps@.store == Some(resp.store_info@),
            Err(e) => deps@.store is None && e == std_not_found(store_missing()),
        },
{
    match deps.load_store() {
        Ok(entry) => Ok(StoreInfoResponse { store_info: entry }),
        Err(e) => Err(e),
    }
}

/// The user registered under an address.
pub fn query_user(deps: &Marketplace, id: String) -> (r: Result<UserResponse, StdError>)
    ensures
        match r {
            Ok(resp) => deps@.users.contains_key(id@) && deps@.users[id@] == resp.user_info@,
            Err(e) => !deps@.users.contains_key(id@) && e == std_not_found(user_missing(id@)),
        },
{
    match deps.load_user(id.as_str()) {
        Ok(entry) => Ok(UserResponse { user_info: entry }),
        Err(e) => Err(e),
    }
}

/// The listing stored under an id.
pub fn query_entry(deps: &Marketplace, id: u64) -> (r: Result<ListingResponse, StdError>)
    ensures
        match r {
            Ok(resp) => deps@.listings.contains_key(id) && deps@.listings[id] == resp.listing@,
            Err(e) => !deps@.listings.contains_key(id) && e == std_not_found(listing_missing(id)),
        },
{
    match deps.load_listing(id) {
        Ok(entry) => Ok(ListingResponse { listing: entry }),
        Err(e) => Err(e),
    }
}

pub const MAX_LIMIT: u32 = 30;

pub const DEFAULT_LIMIT: u32 = 10;

/// The number of listings on a page: the limit asked for (10 if none), at
/// most 30.
pub open spec fn page_size(limit: Option<u32>) -> int {
    let l = match limit {
        Some(x) => x,
        None => DEFAULT_LIMIT,
    };
    if l < MAX_LIMIT {
        l as int
    } else {
        MAX_LIMIT as int
    }
}

/// The position of the first id from `i` on that exceeds `bound`.
pub open spec fn first_above(ids: Seq<u64>, bound: u64, i: int) -> int
    decreases ids.len() - i,
{
    if i >= ids.len() || ids[i] > bound {
        i
    } else {
        first_above(ids, bound, i + 1)
    }
}

/// Where a page starts: after the ids up to `start_after`.
pub open spec fn page_start(ids: Seq<u64>, start_after: Option<u64>) -> int {
    match start_after {
        None => 0,
        Some(b) => first_above(ids, b, 0),
    }
}

/// The ids on a page: from its start, as many as the page holds.
pub open spec fn page_ids(ids: Seq<u64>, start_after: Option<u64>, limit: Option<u32>) -> Seq<u64> {
    let k = page_start(ids, start_after);
    let e = if k + page_size(limit) < ids.len() {
        k + page_size(limit)
    } else {
        ids.len() as int
    };
    ids.subrange(k, e)
}

/// The listings on a page, in ascending order of id.
pub open spec fn listing_page(s: MarketView, start_after: Option<u64>, limit: Option<u32>) -> Seq<
    ListingView,
> {
    page_ids(s.listing_ids, start_after, limit).map_values(|id: u64| s.listings[id])
}

/// Where the search for the first id above `bound` stops: every id passed
/// is at most `bound`, and the one it stops at exceeds it.
pub proof fn lemma_first_above(ids: Seq<u64>, bound: u64, i: int)
    requires
        0 <= i <= ids.len(),
    ensures
        i <= first_above(ids, bound, i) <= ids.len(),
        first_above(ids, bound, i) < ids.len() ==> ids[first_above(ids, bound, i)] > bound,
        forall|j: int| i <= j < first_above(ids, bound, i) ==> ids[j] <= bound,
    decreases ids.len() - i,
{
    if i < ids.len() && ids[i] <= bound {
        lemma_first_above(ids, bound, i + 1);
    }
}

/// A page of listings in ascending order of id: those after `start_after`,
/// at most `limit` of them (10 if none is given, never more than 30).
pub fn query_list(deps: &Marketplace, start_after: Option<u64>, limit: Option<u32>) -> (r: Result<
    ListingsResponse,
    StdError,
>)
    requires
        deps.wf(),
    ensures
        r matches Ok(resp) && resp.listings@.map_values(|l: Listing| l@) == listing_page(
            deps@,
            start_after,
            limit,
        ),
{
    let lim = match limit {
        Some(x) => x,
        None => DEFAULT_LIMIT,
    };
    let lim: usize = if lim < MAX_LIMIT {
        lim as usize
    } else {
        MAX_LIMIT as usize
    };
    let ids = deps.listing_ids();
    let n = ids.len();
    let mut k: usize = 0;
    if let Some(b) = start_after {
        while k < n && ids[k] <= b
            invariant
                n == ids@.len(),
                0 <= k <= n,
                first_above(ids@, b, k as int) == first_above(ids@, b, 0),
            decreases n - k,
        {
            k = k + 1;
        }
    }
    assert(k == page_start(ids@, start_after));
    let end: usize = if n - k > lim {
        k + lim
    } else {
        n
    };
    let ghost page = page_ids(ids@, start_after, limit);
    assert(page =~= ids@.subrange(k as int, end as int));
    proof {
        deps.lemma_view_wf();
    }
    let mut listings: Vec<Listing> = Vec::new();
    let mut j: usize = k;
    while j < end
        invariant
            deps.wf(),
            ids@ == deps@.listing_ids,
            k <= j <= end <= n,
            n == ids@.len(),
            listings@.map_values(|l: Listing| l@) =~= ids@.subrange(k as int, j as int).map_values(
                |id: u64| deps@.listings[id],
            ),
        decreases end - j,
    {
        proof {
            deps.lemma_view_wf();
        }
        let entry = match deps.load_listing(ids[j]) {
            Ok(l) => l,
            Err(e) => {
                return Err(e);
            },
        };
        let ghost prev = listings@;
        let ghost ev = entry@;
        listings.push(entry);
        proof {
            assert(listings@.map_values(|l: Listing| l@) =~= prev.map_values(|l: Listing| l@).push(ev));
            assert(ids@.subrange(k as int, j + 1).map_values(|id: u64| deps@.listings[id]) =~= ids@.subrange(
                k as int,
                j as int,
            ).map_values(|id: u64| deps@.listings[id]).push(deps@.listings[ids@[j as int]]));
        }
        j = j + 1;
    }
    Ok(ListingsResponse { listings })
}

/// What a query answers, by its kind.
pub open spec fn query_answers(s: MarketView, msg: QueryMsg, r: Result<QueryAnswer, StdError>) -> bool {
    match msg {
        QueryMsg::QueryConfig {  } => match r {
            Ok(QueryAnswer::Config(resp)) => s.config == Some(resp.config@),
            Ok(_) => false,
            Err(e) => s.config is None && e == std_not_found(config_missing()),
        },
        QueryMsg::QueryStoreInfo {  } => match r {
            Ok(QueryAnswer::StoreInfo(resp)) => s.store == Some(resp.store_info@),
            Ok(_) => false,
            Err(e) => s.store is None && e == std_not_found(store_missing()),
        },
        QueryMsg::QueryUser { id } => match r {
            Ok(QueryAnswer::User(resp)) => s.users.contains_key(id@) && s.users[id@]
                == resp.user_info@,
            Ok(_) => false,
            Err(e) => !s.users.contains_key(id@) && e == std_not_found(user_missing(id@)),
        },
        QueryMsg::QueryListing { id } => match r {
            Ok(QueryAnswer::Listing(resp)) => s.listings.contains_key(id) && s.listings[id]
                == resp.listing@,
            Ok(_) => false,
            Err(e) => !s.listings.contains_key(id) && e == std_not_found(listing_missing(id)),
        },
        QueryMsg::QueryListings { start_after, limit } => match r {
            Ok(QueryAnswer::Listings(resp)) => resp.listings@.map_values(|l: Listing| l@)
                == listing_page(s, start_after, limit),
            _ => false,
        },
    }
}

/// Answers a query.
pub fn query(deps: &Marketplace, msg: QueryMsg) -> (r: Result<QueryAnswer, StdError>)
    requires
        deps.wf(),
    ensures
        query_answers(deps@, msg, r),
{
    match msg {
        QueryMsg::QueryConfig {  } => match query_config(deps) {
            Ok(resp) => Ok(QueryAnswer::Config(resp)),
            Err(e) => Err(e),
        },
        QueryMsg::QueryStoreInfo {  } => match query_store_info(deps) {
            Ok(resp) => Ok(QueryAnswer::StoreInfo(resp)),
            Err(e) => Err(e),
        },
        QueryMsg::QueryUser { id } => match query_user(deps, id) {
            Ok(resp) => Ok(QueryAnswer::User(resp)),
            Err(e) => Err(e),
        },
        QueryMsg::QueryListing { id } => match query_entry(deps, id) {
            Ok(resp) => Ok(QueryAnswer::Listing(resp)),
            Err(e) => Err(e),
        },
        QueryMsg::QueryListings { start_after, limit } => match query_list(
            deps,
            start_after,
            limit,
        ) {
            Ok(resp) => Ok(QueryAnswer::Listings(resp)),
            Err(e) => Err(e),
        },
    }
}

} // verus!
