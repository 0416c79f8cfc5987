//! Properties of the contract that span requests.

use vstd::prelude::*;
use crate::contract::{
    buy_outcome, delete_listing_outcome, execute_can_run, execute_outcome, lemma_first_above,
    listing_page, new_listing_outcome, page_ids, page_size, page_start, rate_seller_outcome,
    rate_store_outcome, register_outcome, update_listing_outcome, without_listing, Outcome,
    instantiate_outcome,
};
use cosmwasm_std::StdError;
use crate::error::{std_not_found, ContractErrorView};
use crate::keys::listing_missing;
use vstd::utf8::encode_utf8;
use crate::helpers::{counter_can_advance, name_fault, next_id, rating_outcome, RatingError};
use crate::msg::{ExecuteMsg, MessageInfo};
use crate::state::{ascending, CoinView, ListingView, MarketView, RatingView, Roles, UserView};

verus! {

/// The last id that the listing counter handed out, 0 before the first.
pub open spec fn counter_value(s: MarketView) -> u64 {
    match s.item_counter {
        Some(c) => c,
        None => 0,
    }
}

/// The state that an outcome leaves, where it succeeds.
pub open spec fn state_after(o: Outcome) -> MarketView {
    o->Ok_0.0
}

/// Once an address is registered, registering it again is refused (with
/// the error for the name where the name is invalid, as registration checks
/// the name first), and the user stored is the one registered: name as
/// given, regular role, no rating.
pub proof fn law_register_once(
    s: MarketView,
    addr: Seq<char>,
    name: Seq<char>,
    name2: Seq<char>,
)
    requires
        register_outcome(s, name, Ok(addr)) is Ok,
    ensures
        state_after(register_outcome(s, name, Ok(addr))).users[addr] == (UserView {
            name,
            role: Roles::Regular,
            rating: None,
        }),
        !s.users.contains_key(addr),
        name_fault(name2) is None ==> register_outcome(
            state_after(register_outcome(s, name, Ok(addr))),
            name2,
            Ok(addr),
        ) == Err::<(MarketView, Seq<(Seq<char>, Seq<char>)>), ContractErrorView>(
            ContractErrorView::ExistingUser,
        ),
{
}


/// A new listing is stored under a fresh id, one past the counter's last,
/// and reads back as it was put up; the listings already stored stay as
/// they were, and the next listing gets a larger id.
pub proof fn law_new_listing(
    s: MarketView,
    sender: Seq<char>,
    name: Seq<char>,
    price: CoinView,
    desc: Option<Seq<char>>,
)
    requires
        s.wf(),
        counter_can_advance(s),
        new_listing_outcome(s, sender, name, price, desc) is Ok,
    ensures
        ({
            let s2 = state_after(new_listing_outcome(s, sender, name, price, desc));
            let id = next_id(s.item_counter) as u64;
            &&& !s.listings.contains_key(id)
            &&& s2.listings.contains_key(id)
            &&& s2.listings[id] == (ListingView { name, price, seller: sender, desc, id })
            &&& forall|k: u64| #[trigger] s.listings.contains_key(k) ==> s2.listings.contains_key(k)
                && s2.listings[k] == s.listings[k]
            &&& s2.item_counter == Some(id)
            &&& next_id(s2.item_counter) > id
        }),
{
    let id = next_id(s.item_counter) as u64;
    if s.listings.contains_key(id) {
        assert(s.item_counter matches Some(c) && id <= c);
    }
}

/// A deleted listing is gone, only its seller could delete it, and
/// deleting it again is refused.
pub proof fn law_delete(s: MarketView, sender: Seq<char>, id: u64, anyone: Seq<char>)
    requires
        delete_listing_outcome(s, sender, id) is Ok,
    ensures
        s.listings[id].seller == sender,
        !state_after(delete_listing_outcome(s, sender, id)).listings.contains_key(id),
        delete_listing_outcome(state_after(delete_listing_outcome(s, sender, id)), anyone, id)
            == Err::<(MarketView, Seq<(Seq<char>, Seq<char>)>), ContractErrorView>(
            ContractErrorView::Std(std_not_found(listing_missing(id))),
        ),
{
}

/// A listing is bought by someone other than its seller, with a first coin
/// in the contract's denomination that covers its price; then it is gone,
/// so it cannot be bought twice.
pub proof fn law_buy_once(
    s: MarketView,
    buyer: Seq<char>,
    funds: Seq<CoinView>,
    id: u64,
    buyer2: Seq<char>,
    funds2: Seq<CoinView>,
)
    requires
        buy_outcome(s, buyer, funds, id) is Ok,
    ensures
        s.listings[id].seller != buyer,
        funds.len() >= 1,
        s.config matches Some(cfg) && funds[0].denom == cfg.pay_denom,
        funds[0].amount >= s.listings[id].price.amount,
        !state_after(buy_outcome(s, buyer, funds, id)).listings.contains_key(id),
        buy_outcome(state_after(buy_outcome(s, buyer, funds, id)), buyer2, funds2, id) == Err::<
            (MarketView, Seq<(Seq<char>, Seq<char>)>),
            ContractErrorView,
        >(ContractErrorView::Std(std_not_found(listing_missing(id)))),
{
}

/// An address rates the store at most once: after its rating is taken,
/// another one from it is refused.
pub proof fn law_rate_store_once(s: MarketView, sender: Seq<char>, rating: u16, rating2: u16)
    requires
        rate_store_outcome(s, sender, rating) is Ok,
    ensures
        !s.store_raters.contains_key(sender),
        rate_store_outcome(state_after(rate_store_outcome(s, sender, rating)), sender, rating2)
            == Err::<(MarketView, Seq<(Seq<char>, Seq<char>)>), ContractErrorView>(
            ContractErrorView::HasAlreadyRated(sender),
        ),
{
}

/// A vote outside 1 to 5 is never taken: the store's rating refuses it.
pub proof fn law_rating_range(s: MarketView, sender: Seq<char>, rating: u16)
    requires
        rating < 1 || rating > 5,
    ensures
        rate_store_outcome(s, sender, rating) is Err,
        rating_outcome(s.store->0.store_rating, rating) == Err::<crate::state::RatingView, RatingError>(
            RatingError::InvalidRating,
        ),
{
}

/// Rating a seller never changes the state.
pub proof fn law_rate_seller_keeps_state(s: MarketView, sender: Seq<char>, seller: Seq<char>)
    ensures
        rate_seller_outcome(s, sender, seller) is Ok ==> state_after(
            rate_seller_outcome(s, sender, seller),
        ) == s,
{
}

/// Changing a listing keeps the set of listings and their order; the
/// listing keeps its id and the sender becomes its seller.
pub proof fn law_update_keeps_listings(
    s: MarketView,
    sender: Seq<char>,
    id: u64,
    name: Option<Seq<char>>,
    price: Option<CoinView>,
    desc: Option<Seq<char>>,
)
    requires
        update_listing_outcome(s, sender, id, name, price, desc) is Ok,
    ensures
        ({
            let s2 = state_after(update_listing_outcome(s, sender, id, name, price, desc));
            &&& s2.listings.dom() == s.listings.dom()
            &&& s2.listing_ids == s.listing_ids
            &&& s2.listings[id].id == id
            &&& s2.listings[id].seller == sender
            &&& s2.listings[id].desc == desc
        }),
{
    let s2 = state_after(update_listing_outcome(s, sender, id, name, price, desc));
    assert(s2.listings.dom() =~= s.listings.dom());
}

/// No request removes a user or changes one, takes back a store rating, or
/// moves the listing counter back.
pub proof fn law_requests_keep_history(
    s: MarketView,
    info: MessageInfo,
    msg: ExecuteMsg,
    validated_sender: Result<Seq<char>, StdError>,
)
    requires
        execute_can_run(s, info, msg),
        execute_outcome(s, info, msg, validated_sender) is Ok,
    ensures
        ({
            let s2 = state_after(execute_outcome(s, info, msg, validated_sender));
            &&& forall|a: Seq<char>| #[trigger] s.users.contains_key(a) ==> s2.users.contains_key(a)
                && s2.users[a] == s.users[a]
            &&& forall|a: Seq<char>| #[trigger] s.store_raters.contains_key(a) ==> s2.store_raters.contains_key(a)
            &&& s.item_counter matches Some(c) ==> (s2.item_counter matches Some(c2) && c <= c2)
            &&& counter_value(s) <= counter_value(s2)
        }),
{
    match msg {
        ExecuteMsg::Register { user } => {},
        ExecuteMsg::ListItem { name, price, desc } => {},
        ExecuteMsg::UpdateListing { id, name, price, desc } => {},
        ExecuteMsg::DeleteListing { id } => {},
        ExecuteMsg::Buy { id } => {},
        ExecuteMsg::RateStore { rating } => {},
        ExecuteMsg::RateSeller { sellerAddr, rating } => {},
    }
}

/// A page of listings holds ids after `start_after`, in ascending order, at
/// most as many as the page size; and every listed id after `start_after`
/// that is not on the page comes after all the ids on it.
pub proof fn law_page(s: MarketView, start_after: Option<u64>, limit: Option<u32>)
    requires
        s.wf(),
    ensures
        ({
            let page = page_ids(s.listing_ids, start_after, limit);
            &&& page.len() <= page_size(limit)
            &&& ascending(page)
            &&& forall|i: int| 0 <= i < page.len() ==> s.listings.contains_key(#[trigger] page[i])
            &&& forall|i: int| 0 <= i < page.len() ==> (start_after matches Some(b) ==> #[trigger] page[i] > b)
            &&& forall|j: int, i: int|
                0 <= j < s.listing_ids.len() && 0 <= i < page.len() && (start_after matches Some(
                    b,
                ) ==> s.listing_ids[j] > b) && !page.contains(s.listing_ids[j]) ==> #[trigger] s.listing_ids[j]
                    > #[trigger] page[i]
            &&& listing_page(s, start_after, limit).len() == page.len()
        }),
{
    let ids = s.listing_ids;
    let k = page_start(ids, start_after);
    if let Some(b) = start_after {
        lemma_first_above(ids, b, 0);
        assert forall|j: int| k <= j < ids.len() implies ids[j] > b by {
            if j > k {
                assert(ids[k] < ids[j]);
            }
        }
    }
    let page = page_ids(ids, start_after, limit);
    let e = k + page.len();
    assert forall|j: int, i: int|
        0 <= j < ids.len() && 0 <= i < page.len() && (start_after matches Some(b) ==> ids[j] > b)
            && !page.contains(ids[j]) implies #[trigger] ids[j] > #[trigger] page[i] by {
        if j < k {
            assert(start_after is Some);
        } else if j < e {
            assert(page[j - k] == ids[j]);
        } else {
            assert(page[i] == ids[k + i]);
        }
    }
}


/// Storing a listing under a fresh id above all others, enumerated last,
/// keeps the state valid.
proof fn lemma_add_keeps_wf(s: MarketView, l: ListingView, c: u64)
    requires
        s.wf(),
        1 <= l.id <= c,
        s.item_counter matches Some(old_c) ==> old_c <= c,
        forall|k: u64| #[trigger] s.listings.contains_key(k) ==> k < l.id,
    ensures
        (MarketView {
            item_counter: Some(c),
            listings: s.listings.insert(l.id, l),
            listing_ids: s.listing_ids.push(l.id),
            ..s
        }).wf(),
{
    let s2 = MarketView {
        item_counter: Some(c),
        listings: s.listings.insert(l.id, l),
        listing_ids: s.listing_ids.push(l.id),
        ..s
    };
    assert forall|i: int, j: int| 0 <= i < j < s2.listing_ids.len() implies s2.listing_ids[i]
        < s2.listing_ids[j] by {
        if j == s2.listing_ids.len() - 1 {
            assert(s.listings.contains_key(s.listing_ids[i]));
        }
    }
    assert forall|k: u64| #[trigger] s2.listings.contains_key(k) implies s2.listing_ids.contains(k) by {
        if k == l.id {
            assert(s2.listing_ids[s2.listing_ids.len() - 1] == k);
        } else {
            let i = choose|i: int| 0 <= i < s.listing_ids.len() && s.listing_ids[i] == k;
            assert(s2.listing_ids[i] == k);
        }
    }
}

/// Removing a stored listing keeps the state valid.
proof fn lemma_remove_keeps_wf(s: MarketView, id: u64)
    requires
        s.wf(),
        s.listings.contains_key(id),
    ensures
        without_listing(s, id).wf(),
{
    let ids = s.listing_ids;
    assert(ids.contains(id));
    let w = ids.index_of(id);
    let s2 = without_listing(s, id);
    assert forall|i: int, j: int| 0 <= i < j < s2.listing_ids.len() implies s2.listing_ids[i]
        < s2.listing_ids[j] by {
        let a = if i < w { i } else { i + 1 };
        let b = if j < w { j } else { j + 1 };
        assert(s2.listing_ids[i] == ids[a]);
        assert(s2.listing_ids[j] == ids[b]);
    }
    assert forall|j: int| 0 <= j < s2.listing_ids.len() implies s2.listings.contains_key(
        #[trigger] s2.listing_ids[j],
    ) by {
        let b = if j < w { j } else { j + 1 };
        assert(s2.listing_ids[j] == ids[b]);
        assert(b != w);
        if ids[b] == id {
            if b < w {
                assert(ids[b] < ids[w]);
            } else {
                assert(ids[w] < ids[b]);
            }
        }
    }
    assert forall|k: u64| #[trigger] s2.listings.contains_key(k) implies s2.listing_ids.contains(k) by {
        assert(ids.contains(k));
        let i = choose|i: int| 0 <= i < ids.len() && ids[i] == k;
        assert(i != w);
        if i < w {
            assert(s2.listing_ids[i] == k);
        } else {
            assert(s2.listing_ids[i - 1] == k);
        }
    }
}

/// Every request that succeeds leaves a valid state: listings enumerated in
/// ascending order of id, each stored under its own id, none above the
/// counter.
pub proof fn law_requests_keep_wf(
    s: MarketView,
    info: MessageInfo,
    msg: ExecuteMsg,
    validated_sender: Result<Seq<char>, StdError>,
)
    requires
        s.wf(),
        execute_can_run(s, info, msg),
        execute_outcome(s, info, msg, validated_sender) is Ok,
    ensures
        state_after(execute_outcome(s, info, msg, validated_sender)).wf(),
{
    match msg {
        ExecuteMsg::ListItem { name, price, desc } => {
            let id = next_id(s.item_counter) as u64;
            let l = ListingView {
                name: name@,
                price: price@,
                seller: info.sender@,
                desc: crate::state::opt_text(desc),
                id,
            };
            assert forall|k: u64| #[trigger] s.listings.contains_key(k) implies k < id by {
                assert(s.item_counter matches Some(c) && k <= c);
            }
            lemma_add_keeps_wf(s, l, id);
        },
        ExecuteMsg::UpdateListing { id, name, price, desc } => {
            let s2 = state_after(execute_outcome(s, info, msg, validated_sender));
            assert(s2.listings.dom() =~= s.listings.dom());
            assert forall|k: u64| #[trigger] s2.listings.contains_key(k) implies s2.listing_ids.contains(k) by {
                assert(s.listings.contains_key(k));
            }
        },
        ExecuteMsg::DeleteListing { id } => {
            lemma_remove_keeps_wf(s, id);
        },
        ExecuteMsg::Buy { id } => {
            lemma_remove_keeps_wf(s, id);
        },
        _ => {},
    }
}


/// No request changes the contract's settings, or the store's name, admin
/// and refund period; only a store rating that is taken changes the store's
/// rating.
pub proof fn law_requests_keep_settings(
    s: MarketView,
    info: MessageInfo,
    msg: ExecuteMsg,
    validated_sender: Result<Seq<char>, StdError>,
)
    requires
        execute_outcome(s, info, msg, validated_sender) is Ok,
    ensures
        ({
            let s2 = state_after(execute_outcome(s, info, msg, validated_sender));
            &&& s2.config == s.config
            &&& s.store matches Some(st) ==> (s2.store matches Some(st2) && st2.store_name
                == st.store_name && st2.store_admin == st.store_admin && st2.refund_period_policy
                == st.refund_period_policy && (!(msg is RateStore) ==> st2.store_rating
                == st.store_rating))
        }),
{
}

/// A stored listing stays as it is under every request but a change,
/// removal or purchase of that very listing.
pub proof fn law_listing_persists(
    s: MarketView,
    info: MessageInfo,
    msg: ExecuteMsg,
    validated_sender: Result<Seq<char>, StdError>,
    id: u64,
)
    requires
        s.wf(),
        execute_can_run(s, info, msg),
        execute_outcome(s, info, msg, validated_sender) is Ok,
        s.listings.contains_key(id),
        !(msg matches ExecuteMsg::UpdateListing { id: i, .. } && i == id),
        !(msg matches ExecuteMsg::DeleteListing { id: i } && i == id),
        !(msg matches ExecuteMsg::Buy { id: i } && i == id),
    ensures
        ({
            let s2 = state_after(execute_outcome(s, info, msg, validated_sender));
            &&& s2.listings.contains_key(id)
            &&& s2.listings[id] == s.listings[id]
        }),
{
    match msg {
        ExecuteMsg::ListItem { name, price, desc } => {
            assert(s.item_counter matches Some(c) && id <= c);
        },
        _ => {},
    }
}


/// Every vote from 1 to 5 passes the range check of the rating.
pub proof fn law_rating_accepts_one_to_five(cur: RatingView, rating: u16)
    requires
        1 <= rating <= 5,
    ensures
        rating_outcome(cur, rating) != Err::<RatingView, RatingError>(RatingError::InvalidRating),
{
}

/// A first vote from an address on a store that exists is taken whenever
/// the rating can be computed: the request succeeds, the store's rating
/// becomes the computed one, and the address is recorded as having rated.
/// Where the rating cannot be computed, the request is refused with
/// "Failed calculating rating".
pub proof fn law_rate_store_takes_vote(s: MarketView, sender: Seq<char>, rating: u16)
    requires
        s.store is Some,
        !s.store_raters.contains_key(sender),
    ensures
        rating_outcome(s.store->0.store_rating, rating) matches Ok(nr) ==> {
            &&& rate_store_outcome(s, sender, rating) is Ok
            &&& state_after(rate_store_outcome(s, sender, rating)).store matches Some(st2)
            &&& st2.store_rating == nr
            &&& state_after(rate_store_outcome(s, sender, rating)).store_raters.contains_key(sender)
        },
        rating_outcome(s.store->0.store_rating, rating) is Err ==> rate_store_outcome(s, sender, rating)
            == Err::<(MarketView, Seq<(Seq<char>, Seq<char>)>), ContractErrorView>(
            ContractErrorView::GenericMsgErr("Failed calculating rating"@),
        ),
{
}

/// The page size: 10 listings when no limit is given, the limit itself up
/// to 30, and 30 above that.
pub proof fn law_page_size(x: u32)
    ensures
        page_size(None) == 10,
        x <= 30 ==> page_size(Some(x)) == x,
        x > 30 ==> page_size(Some(x)) == 30,
{
}

proof fn lemma_filter_all(s: Seq<u64>, p: spec_fn(u64) -> bool)
    requires
        forall|i: int| 0 <= i < s.len() ==> p(#[trigger] s[i]),
    ensures
        s.filter(p) == s,
    decreases s.len(),
{
    reveal_with_fuel(Seq::<u64>::filter, 1);
    if s.len() > 0 {
        lemma_filter_all(s.drop_last(), p);
        assert(s.drop_last().push(s.last()) =~= s);
    }
}

proof fn lemma_filter_none(s: Seq<u64>, p: spec_fn(u64) -> bool)
    requires
        forall|i: int| 0 <= i < s.len() ==> !p(#[trigger] s[i]),
    ensures
        s.filter(p).len() == 0,
    decreases s.len(),
{
    reveal_with_fuel(Seq::<u64>::filter, 1);
    if s.len() > 0 {
        lemma_filter_none(s.drop_last(), p);
    }
}

/// A page holds as many listings as the page size allows, or all the
/// listed ids above `start_after` where there are fewer: with `k` the
/// limit (10 if none, at most 30) and `n` the number of ids above
/// `start_after`, the page holds `min(k, n)` listings.
pub proof fn law_page_length(s: MarketView, start_after: Option<u64>, limit: Option<u32>)
    requires
        s.wf(),
    ensures
        ({
            let k: int = match limit {
                Some(x) => if x <= 30 {
                    x as int
                } else {
                    30
                },
                None => 10,
            };
            let n: int = s.listing_ids.filter(
                |i: u64|
                    match start_after {
                        Some(b) => i > b,
                        None => true,
                    },
            ).len() as int;
            listing_page(s, start_after, limit).len() == if k < n {
                k
            } else {
                n
            }
        }),
{
    let ids = s.listing_ids;
    let p = |i: u64|
        match start_after {
            Some(b) => i > b,
            None => true,
        };
    let f = page_start(ids, start_after);
    match start_after {
        Some(b) => {
            lemma_first_above(ids, b, 0);
            assert forall|j: int| f <= j < ids.len() implies ids[j] > b by {
                if j > f {
                    assert(ids[f] < ids[j]);
                }
            }
        },
        None => {},
    }
    let pre = ids.subrange(0, f);
    let post = ids.subrange(f, ids.len() as int);
    assert(pre + post =~= ids);
    Seq::<u64>::filter_distributes_over_add(pre, post, p);
    lemma_filter_none(pre, p);
    lemma_filter_all(post, p);
    assert(ids.filter(p) =~= pre.filter(p) + post);
}

/// Changing a listing replaces the name and the price each where it is
/// given, independently of the other, keeps each where it is not, always
/// takes the new description, and makes the sender the seller.
pub proof fn law_update_fields(
    s: MarketView,
    sender: Seq<char>,
    id: u64,
    name: Option<Seq<char>>,
    price: Option<CoinView>,
    desc: Option<Seq<char>>,
)
    requires
        update_listing_outcome(s, sender, id, name, price, desc) is Ok,
    ensures
        ({
            let old_l = s.listings[id];
            let l = state_after(update_listing_outcome(s, sender, id, name, price, desc)).listings[id];
            &&& name matches Some(n) ==> l.name == n
            &&& name is None ==> l.name == old_l.name
            &&& price matches Some(p) ==> l.price == p
            &&& price is None ==> l.price == old_l.price
            &&& l.desc == desc
            &&& l.seller == sender
            &&& l.id == id
        }),
{
}

/// Setting up the store succeeds exactly for a valid store name; then the
/// store has that name, the sender as admin, a rating of "0.00" over "0.00"
/// votes, and the refund period given (100 where none is), and payments are
/// in "ucosm".
pub proof fn law_instantiate(
    s: MarketView,
    sender: Seq<char>,
    store_name: Seq<char>,
    refund: Option<u64>,
)
    ensures
        instantiate_outcome(s, sender, store_name, refund) is Ok <==> name_fault(store_name) is None,
        instantiate_outcome(s, sender, store_name, refund) is Ok ==> ({
            let s2 = state_after(instantiate_outcome(s, sender, store_name, refund));
            &&& s2.store matches Some(st)
            &&& st.store_name == store_name
            &&& st.store_admin == sender
            &&& st.store_rating.rating == "0.00"@
            &&& st.store_rating.votes == "0.00"@
            &&& refund matches Some(p) ==> st.refund_period_policy == p
            &&& refund is None ==> st.refund_period_policy == 100
            &&& s2.config matches Some(c)
            &&& c.pay_denom == "ucosm"@
        }),
{
}

/// Through `execute`, each request acts for the address that sent it: a
/// listing is removed only by its seller, and anyone else is refused with
/// `NotAnOwner` and changes nothing; a listing is bought only by someone
/// other than its seller; a new or changed listing has the sender as
/// seller; and a store rating records the sender as having rated.
pub proof fn law_execute_acts_for_sender(
    s: MarketView,
    info: MessageInfo,
    msg: ExecuteMsg,
    validated_sender: Result<Seq<char>, StdError>,
)
    ensures
        msg matches ExecuteMsg::DeleteListing { id } ==> (s.listings.contains_key(id)
            && s.listings[id].seller != info.sender@ ==> execute_outcome(
            s,
            info,
            msg,
            validated_sender,
        ) == Err::<(MarketView, Seq<(Seq<char>, Seq<char>)>), ContractErrorView>(
            ContractErrorView::NotAnOwner,
        )),
        msg matches ExecuteMsg::DeleteListing { id } ==> (execute_outcome(
            s,
            info,
            msg,
            validated_sender,
        ) is Ok ==> s.listings[id].seller == info.sender@ && !state_after(
            execute_outcome(s, info, msg, validated_sender),
        ).listings.contains_key(id)),
        msg matches ExecuteMsg::Buy { id } ==> (execute_outcome(s, info, msg, validated_sender) is Ok
            ==> s.listings[id].seller != info.sender@),
        msg matches ExecuteMsg::Buy { id } ==> (s.listings.contains_key(id) && s.listings[id].seller
            == info.sender@ ==> execute_outcome(s, info, msg, validated_sender) == Err::<
            (MarketView, Seq<(Seq<char>, Seq<char>)>),
            ContractErrorView,
        >(ContractErrorView::BuyFromSelf)),
        msg matches ExecuteMsg::UpdateListing { id, .. } ==> (execute_outcome(
            s,
            info,
            msg,
            validated_sender,
        ) is Ok ==> state_after(execute_outcome(s, info, msg, validated_sender)).listings[id].seller
            == info.sender@),
        msg matches ExecuteMsg::ListItem { .. } ==> (execute_outcome(s, info, msg, validated_sender) is Ok
            ==> ({
            let id = next_id(s.item_counter) as u64;
            state_after(execute_outcome(s, info, msg, validated_sender)).listings[id].seller
                == info.sender@ && s.users.contains_key(info.sender@)
        })),
        msg matches ExecuteMsg::RateStore { .. } ==> (execute_outcome(s, info, msg, validated_sender) is Ok
            ==> state_after(execute_outcome(s, info, msg, validated_sender)).store_raters.contains_key(
            info.sender@,
        ) && !s.store_raters.contains_key(info.sender@)),
        msg matches ExecuteMsg::RateSeller { sellerAddr, .. } ==> (execute_outcome(
            s,
            info,
            msg,
            validated_sender,
        ) is Ok ==> sellerAddr@ != info.sender@),
{
}


/// Whether names may hold a character: decimal digits, lower case ASCII
/// letters, '.', '-' and '_'.
pub open spec fn name_char_allowed(c: char) -> bool {
    ('0' <= c && c <= '9') || ('a' <= c && c <= 'z') || c == '.' || c == '-' || c == '_'
}

/// A name is accepted exactly when it is 3 to 64 bytes long in UTF-8 and
/// holds allowed characters only. A shorter or longer one is refused with
/// its length in bytes; otherwise the error names the first character that
/// is not allowed.
pub proof fn law_name_rules(n: Seq<char>)
    ensures
        name_fault(n) is None <==> (3 <= encode_utf8(n).len() <= 64 && forall|i: int|
            0 <= i < n.len() ==> name_char_allowed(#[trigger] n[i])),
        encode_utf8(n).len() < 3 ==> name_fault(n) == Some(
            ContractErrorView::NameTooShort(encode_utf8(n).len() as u64, 3),
        ),
        64 < encode_utf8(n).len() ==> name_fault(n) == Some(
            ContractErrorView::NameTooLong(encode_utf8(n).len() as u64, 64),
        ),
        forall|i: int|
            #![trigger n[i]]
            3 <= encode_utf8(n).len() <= 64 && 0 <= i < n.len() && !name_char_allowed(n[i]) && (
            forall|j: int| 0 <= j < i ==> name_char_allowed(#[trigger] n[j])) ==> name_fault(n)
                == Some(ContractErrorView::InvalidCharacter(n[i])),
{
    assert forall|i: int|
        #![trigger n[i]]
        3 <= encode_utf8(n).len() <= 64 && 0 <= i < n.len() && !name_char_allowed(n[i]) && (forall|
            j: int,
        | 0 <= j < i ==> name_char_allowed(#[trigger] n[j])) implies name_fault(n) == Some(
        ContractErrorView::InvalidCharacter(n[i]),
    ) by {
        assert(crate::helpers::is_first_invalid(n, i));
        let k = choose|k: int| crate::helpers::is_first_invalid(n, k);
        if k < i {
            assert(name_char_allowed(n[k]));
        } else if k > i {
            assert(!crate::helpers::is_invalid_char(n[i]));
        }
    }
}

/// A purchase from someone other than the seller, with a first coin in the
/// contract's denomination, is refused exactly when that coin is below the
/// price, naming the price and the amount sent; a coin in another
/// denomination, or none, is refused as such.
pub proof fn law_buy_refusals(s: MarketView, buyer: Seq<char>, funds: Seq<CoinView>, id: u64)
    requires
        s.listings.contains_key(id),
        s.listings[id].seller != buyer,
        s.config is Some,
    ensures
        funds.len() == 0 ==> buy_outcome(s, buyer, funds, id) == Err::<
            (MarketView, Seq<(Seq<char>, Seq<char>)>),
            ContractErrorView,
        >(ContractErrorView::GenericMsgErr("Send some tokens with the Trx."@)),
        funds.len() >= 1 && funds[0].denom != s.config->0.pay_denom ==> buy_outcome(s, buyer, funds, id)
            == Err::<(MarketView, Seq<(Seq<char>, Seq<char>)>), ContractErrorView>(
            ContractErrorView::InvalidDenom(s.config->0.pay_denom, funds[0].denom),
        ),
        funds.len() >= 1 && funds[0].denom == s.config->0.pay_denom ==> (buy_outcome(
            s,
            buyer,
            funds,
            id,
        ) is Ok <==> funds[0].amount >= s.listings[id].price.amount),
        funds.len() >= 1 && funds[0].denom == s.config->0.pay_denom && funds[0].amount
            < s.listings[id].price.amount ==> buy_outcome(s, buyer, funds, id) == Err::<
            (MarketView, Seq<(Seq<char>, Seq<char>)>),
            ContractErrorView,
        >(ContractErrorView::InsufficientFunds(s.listings[id].price.amount, funds[0].amount)),
{
}

} // verus!
