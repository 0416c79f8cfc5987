//! The contract's data and the state that holds it.

use vstd::prelude::*;
use vstd::hash_map::{HashMapWithView, StringHashMap};
use cosmwasm_std::StdError;
use crate::error::{not_found, std_not_found};
use crate::keys::{
    config_missing, config_missing_text, listing_missing, listing_missing_text, store_missing,
    store_missing_text, user_missing, user_missing_text,
};

verus! {

broadcast use vstd::std_specs::hash::group_hash_axioms;

/// An amount of tokens of one denomination.
#[derive(Debug)]
pub struct Coin {
    pub denom: String,
    pub amount: u128,
}

pub struct CoinView {
    pub denom: Seq<char>,
    pub amount: u128,
}

impl View for Coin {
    type V = CoinView;

    open spec fn view(&self) -> CoinView {
        CoinView { denom: self.denom@, amount: self.amount }
    }
}

impl Clone for Coin {
    fn clone(&self) -> (r: Self)
        ensures
            r == *self,
    {
        Coin { denom: self.denom.clone(), amount: self.amount }
    }
}

/// An average rating and the number of votes it was taken over, both as
/// decimal texts.
#[derive(Debug)]
pub struct Rating {
    pub rating: String,
    pub votes: String,
}

pub struct RatingView {
    pub rating: Seq<char>,
    pub votes: Seq<char>,
}

impl View for Rating {
    type V = RatingView;

    open spec fn view(&self) -> RatingView {
        RatingView { rating: self.rating@, votes: self.votes@ }
    }
}

impl Clone for Rating {
    fn clone(&self) -> (r: Self)
        ensures
            r == *self,
    {
        Rating { rating: self.rating.clone(), votes: self.votes.clone() }
    }
}

#[derive(Debug, Clone, Copy, PartialEq, Eq, Structural)]
pub enum Roles {
    Admin,
    Regular,
}

#[derive(Debug, Clone, Copy, PartialEq, Eq, Structural)]
pub enum CountedValues {
    Listing,
}

pub open spec fn opt_text(o: Option<String>) -> Option<Seq<char>> {
    match o {
        Some(s) => Some(s@),
        None => None,
    }
}

pub open spec fn opt_rating(o: Option<Rating>) -> Option<RatingView> {
    match o {
        Some(r) => Some(r@),
        None => None,
    }
}

pub fn clone_opt_text(o: &Option<String>) -> (r: Option<String>)
    ensures
        r == *o,
{
    match o {
        Some(s) => Some(s.clone()),
        None => None,
    }
}

pub fn clone_opt_rating(o: &Option<Rating>) -> (r: Option<Rating>)
    ensures
        r == *o,
{
    match o {
        Some(s) => Some(s.clone()),
        None => None,
    }
}

/// An item put up for sale.
#[derive(Debug)]
pub struct Listing {
    pub name: String,
    pub price: Coin,
    pub seller: String,
    pub desc: Option<String>,
    pub id: u64,
}

pub struct ListingView {
    pub name: Seq<char>,
    pub price: CoinView,
    pub seller: Seq<char>,
    pub desc: Option<Seq<char>>,
    pub id: u64,
}

impl View for Listing {
    type V = ListingView;

    open spec fn view(&self) -> ListingView {
        ListingView {
            name: self.name@,
            price: self.price@,
            seller: self.seller@,
            desc: opt_text(self.desc),
            id: self.id,
        }
    }
}

impl Clone for Listing {
    fn clone(&self) -> (r: Self)
        ensures
            r == *self,
    {
        Listing {
            name: self.name.clone(),
            price: self.price.clone(),
            seller: self.seller.clone(),
            desc: clone_opt_text(&self.desc),
            id: self.id,
        }
    }
}

/// A registered user.
#[derive(Debug)]
pub struct User {
    pub name: String,
    pub role: Roles,
    pub rating: Option<Rating>,
}

pub struct UserView {
    pub name: Seq<char>,
    pub role: Roles,
    pub rating: Option<RatingView>,
}

impl View for User {
    type V = UserView;

    open spec fn view(&self) -> UserView {
        UserView { name: self.name@, role: self.role, rating: opt_rating(self.rating) }
    }
}

impl Clone for User {
    fn clone(&self) -> (r: Self)
        ensures
            r == *self,
    {
        User { name: self.name.clone(), role: self.role, rating: clone_opt_rating(&self.rating) }
    }
}

/// The store: its name, rating, admin and refund period.
#[derive(Debug)]
#[allow(non_snake_case)]
pub struct Store {
    pub storeName: String,
    pub storeRating: Rating,
    pub storeAdmin: String,
    pub refundPeriodPolicy: u64,
}

pub struct StoreView {
    pub store_name: Seq<char>,
    pub store_rating: RatingView,
    pub store_admin: Seq<char>,
    pub refund_period_policy: u64,
}

impl View for Store {
    type V = StoreView;

    open spec fn view(&self) -> StoreView {
        StoreView {
            store_name: self.storeName@,
            store_rating: self.storeRating@,
            store_admin: self.storeAdmin@,
            refund_period_policy: self.refundPeriodPolicy,
        }
    }
}

impl Clone for Store {
    fn clone(&self) -> (r: Self)
        ensures
            r == *self,
    {
        Store {
            storeName: self.storeName.clone(),
            storeRating: self.storeRating.clone(),
            storeAdmin: self.storeAdmin.clone(),
            refundPeriodPolicy: self.refundPeriodPolicy,
        }
    }
}

/// The contract's settings: the denomination that prices and payments use.
#[derive(Debug)]
#[allow(non_snake_case)]
pub struct Config {
    pub payDenom: String,
}

pub struct ConfigView {
    pub pay_denom: Seq<char>,
}

impl View for Config {
    type V = ConfigView;

    open spec fn view(&self) -> ConfigView {
        ConfigView { pay_denom: self.payDenom@ }
    }
}

impl Clone for Config {
    fn clone(&self) -> (r: Self)
        ensures
            r == *self,
    {
        Config { payDenom: self.payDenom.clone() }
    }
}

pub open spec fn opt_config(o: Option<Config>) -> Option<ConfigView> {
    match o {
        Some(c) => Some(c@),
        None => None,
    }
}

pub open spec fn opt_store(o: Option<Store>) -> Option<StoreView> {
    match o {
        Some(s) => Some(s@),
        None => None,
    }
}

/// A table keyed by address, which remembers its keys so that they can be
/// listed.
#[verifier::reject_recursive_types(V)]
pub struct AddrTable<V> {
    map: StringHashMap<V>,
    keys: Vec<String>,
}

impl<V> View for AddrTable<V> {
    type V = Map<Seq<char>, V>;

    closed spec fn view(&self) -> Map<Seq<char>, V> {
        self.map@
    }
}

impl<V> AddrTable<V> {
    /// The listed keys are exactly the keys of the table, each once.
    pub closed spec fn wf(&self) -> bool {
        &&& forall|i: int| 0 <= i < self.keys.len() ==> self.map@.contains_key(#[trigger] self.keys@[i]@)
        &&& forall|k: Seq<char>|
            #[trigger] self.map@.contains_key(k) ==> exists|i: int|
                0 <= i < self.keys.len() && #[trigger] self.keys@[i]@ == k
        &&& forall|i: int, j: int|
            0 <= i < j < self.keys.len() ==> #[trigger] self.keys@[i]@ != #[trigger] self.keys@[j]@
    }

    pub fn new() -> (t: Self)
        ensures
            t.wf(),
            t@ == Map::<Seq<char>, V>::empty(),
    {
        AddrTable { map: StringHashMap::new(), keys: Vec::new() }
    }

    pub fn contains(&self, k: &str) -> (r: bool)
        ensures
            r == self@.contains_key(k@),
    {
        self.map.contains_key(k)
    }

    pub fn get(&self, k: &str) -> (r: Option<&V>)
        ensures
            match r {
                Some(v) => self@.contains_key(k@) && *v == self@[k@],
                None => !self@.contains_key(k@),
            },
    {
        self.map.get(k)
    }

    pub fn insert(&mut self, k: String, v: V)
        requires
            old(self).wf(),
        ensures
            final(self).wf(),
            final(self)@ == old(self)@.insert(k@, v),
    {
        if !self.map.contains_key(k.as_str()) {
            self.keys.push(k.clone());
            proof {
                assert forall|i: int| 0 <= i < self.keys.len() - 1 implies #[trigger] self.keys@[i]@
                    != k@ by {
                    assert(old(self).map@.contains_key(old(self).keys@[i]@));
                }
            }
        }
        let ghost keys = self.keys@;
        self.map.insert(k, v);
        proof {
            assert forall|kk: Seq<char>| #[trigger] self.map@.contains_key(kk) implies exists|i: int|
                0 <= i < self.keys.len() && #[trigger] self.keys@[i]@ == kk by {
                if kk == k@ {
                    if old(self).map@.contains_key(kk) {
                        let i = choose|i: int| 0 <= i < old(self).keys.len() && #[trigger] old(self).keys@[i]@ == kk;
                        assert(self.keys@[i]@ == kk);
                    } else {
                        assert(self.keys@[self.keys.len() - 1]@ == kk);
                    }
                } else {
                    let i = choose|i: int| 0 <= i < old(self).keys.len() && #[trigger] old(self).keys@[i]@ == kk;
                    assert(self.keys@[i]@ == kk);
                }
            }
        }
    }

    /// The keys of the table, each once.
    pub fn addresses(&self) -> (r: Vec<String>)
        requires
            self.wf(),
        ensures
            forall|i: int| 0 <= i < r.len() ==> self@.contains_key(#[trigger] r@[i]@),
            forall|k: Seq<char>| #[trigger] self@.contains_key(k) ==> exists|i: int|
                0 <= i < r.len() && #[trigger] r@[i]@ == k,
            forall|i: int, j: int| 0 <= i < j < r.len() ==> #[trigger] r@[i]@ != #[trigger] r@[j]@,
    {
        self.keys.clone()
    }
}


/// Whether a sequence of listing ids is strictly ascending.
pub open spec fn ascending(ids: Seq<u64>) -> bool {
    forall|i: int, j: int| 0 <= i < j < ids.len() ==> ids[i] < ids[j]
}

/// The mathematical model of the contract's state: what each of its stored
/// items and maps holds. `listing_ids` is the order in which listings are
/// enumerated.
#[verifier::ext_equal]
pub struct MarketView {
    pub config: Option<ConfigView>,
    pub store: Option<StoreView>,
    pub users: Map<Seq<char>, UserView>,
    pub listings: Map<u64, ListingView>,
    pub listing_ids: Seq<u64>,
    pub store_raters: Map<Seq<char>, bool>,
    pub seller_raters: Map<Seq<char>, bool>,
    pub item_counter: Option<u64>,
}

impl MarketView {
    /// The listings are enumerated in ascending order of id, each once; each
    /// is stored under its own id; and every id is one that the counter has
    /// handed out: at least 1 and at most the counter.
    pub open spec fn wf(self) -> bool {
        &&& ascending(self.listing_ids)
        &&& forall|i: int|
            0 <= i < self.listing_ids.len() ==> self.listings.contains_key(
                #[trigger] self.listing_ids[i],
            )
        &&& forall|k: u64| #[trigger]
            self.listings.contains_key(k) ==> self.listing_ids.contains(k)
        &&& forall|k: u64| #[trigger]
            self.listings.contains_key(k) ==> self.listings[k].id == k
        &&& forall|k: u64| #[trigger]
            self.listings.contains_key(k) ==> (self.item_counter matches Some(c) && 1 <= k <= c)
    }

    /// The state before anything was stored.
    pub open spec fn empty() -> MarketView {
        MarketView {
            config: None,
            store: None,
            users: Map::empty(),
            listings: Map::empty(),
            listing_ids: Seq::empty(),
            store_raters: Map::empty(),
            seller_raters: Map::empty(),
            item_counter: None,
        }
    }
}

/// The contract's state: its stored items and maps.
pub struct Marketplace {
    config: Option<Config>,
    store: Option<Store>,
    users: AddrTable<User>,
    listings: HashMapWithView<u64, Listing>,
    listing_ids: Vec<u64>,
    store_raters: AddrTable<bool>,
    seller_raters: AddrTable<bool>,
    item_counter: Option<u64>,
}

impl View for Marketplace {
    type V = MarketView;

    closed spec fn view(&self) -> MarketView {
        MarketView {
            config: opt_config(self.config),
            store: opt_store(self.store),
            users: self.users@.map_values(|u: User| u@),
            listings: self.listings@.map_values(|l: Listing| l@),
            listing_ids: self.listing_ids@,
            store_raters: self.store_raters@,
            seller_raters: self.seller_raters@,
            item_counter: self.item_counter,
        }
    }
}

impl Marketplace {
    pub closed spec fn wf(&self) -> bool {
        &&& self.users.wf()
        &&& self.store_raters.wf()
        &&& self.seller_raters.wf()
        &&& self@.wf()
        &&& forall|k: u64| #[trigger] self.listings@.contains_key(k) ==> self.listings@[k].id == k
    }

    /// A valid state has a valid model.
    pub proof fn lemma_view_wf(&self)
        requires
            self.wf(),
        ensures
            self@.wf(),
    {
    }

    /// A state where nothing is stored yet.
    pub fn new() -> (m: Self)
        ensures
            m.wf(),
            m@ == MarketView::empty(),
    {
        let m = Marketplace {
            config: None,
            store: None,
            users: AddrTable::new(),
            listings: HashMapWithView::new(),
            listing_ids: Vec::new(),
            store_raters: AddrTable::new(),
            seller_raters: AddrTable::new(),
            item_counter: None,
        };
        assert(m@ =~= MarketView::empty());
        m
    }

    /// The stored settings, or the error of a read that finds none.
    pub fn load_config(&self) -> (r: Result<Config, StdError>)
        ensures
            match r {
                Ok(c) => self@.config == Some(c@),
                Err(e) => self@.config is None && e == std_not_found(config_missing()),
            },
    {
        match &self.config {
            Some(c) => Ok(c.clone()),
            None => Err(not_found(config_missing_text().as_str())),
        }
    }

    pub fn save_config(&mut self, c: Config)
        requires
            old(self).wf(),
        ensures
            final(self).wf(),
            final(self)@ == (MarketView { config: Some(c@), ..old(self)@ }),
    {
        self.config = Some(c);
        assert(self@ =~= (MarketView { config: Some(c@), ..old(self)@ }));
    }

    /// The stored store, or the error of a read that finds none.
    pub fn load_store(&self) -> (r: Result<Store, StdError>)
        ensures
            match r {
                Ok(st) => self@.store == Some(st@),
                Err(e) => self@.store is None && e == std_not_found(store_missing()),
            },
    {
        match &self.store {
            Some(st) => Ok(st.clone()),
            None => Err(not_found(store_missing_text().as_str())),
        }
    }

    pub fn save_store(&mut self, st: Store)
        requires
            old(self).wf(),
        ensures
            final(self).wf(),
            final(self)@ == (MarketView { store: Some(st@), ..old(self)@ }),
    {
        self.store = Some(st);
        assert(self@ =~= (MarketView { store: Some(st@), ..old(self)@ }));
    }

    /// The value of the listing counter, if one was ever stored.
    pub fn load_counter(&self) -> (r: Option<u64>)
        ensures
            r == self@.item_counter,
    {
        self.item_counter
    }

    /// Stores the listing counter; it never goes back.
    pub fn save_counter(&mut self, c: u64)
        requires
            old(self).wf(),
            old(self)@.item_counter matches Some(old_c) ==> old_c <= c,
        ensures
            final(self).wf(),
            final(self)@ == (MarketView { item_counter: Some(c), ..old(self)@ }),
    {
        self.item_counter = Some(c);
        assert(self@ =~= (MarketView { item_counter: Some(c), ..old(self)@ }));
    }

    /// The user registered under an address, or the error of a read that
    /// finds none.
    pub fn load_user(&self, addr: &str) -> (r: Result<User, StdError>)
        ensures
            match r {
                Ok(u) => self@.users.contains_key(addr@) && self@.users[addr@] == u@,
                Err(e) => !self@.users.contains_key(addr@) && e == std_not_found(user_missing(addr@)),
            },
    {
        match self.users.get(addr) {
            Some(u) => Ok(u.clone()),
            None => Err(not_found(user_missing_text(addr).as_str())),
        }
    }

    pub fn has_user(&self, addr: &str) -> (r: bool)
        ensures
            r == self@.users.contains_key(addr@),
    {
        self.users.contains(addr)
    }

    pub fn save_user(&mut self, addr: String, u: User)
        requires
            old(self).wf(),
        ensures
            final(self).wf(),
            final(self)@ == (MarketView { users: old(self)@.users.insert(addr@, u@), ..old(self)@ }),
    {
        let ghost a = addr@;
        let ghost uv = u@;
        self.users.insert(addr, u);
        assert(self@.users =~= old(self)@.users.insert(a, uv));
        assert(self@ =~= (MarketView { users: old(self)@.users.insert(a, uv), ..old(self)@ }));
    }

    /// The listing stored under an id, or the error of a read that finds
    /// none.
    pub fn load_listing(&self, id: u64) -> (r: Result<Listing, StdError>)
        ensures
            match r {
                Ok(l) => self@.listings.contains_key(id) && self@.listings[id] == l@,
                Err(e) => !self@.listings.contains_key(id) && e == std_not_found(listing_missing(id)),
            },
    {
        match self.listings.get(&id) {
            Some(l) => Ok(l.clone()),
            None => Err(not_found(listing_missing_text(id).as_str())),
        }
    }

    /// The ids of the stored listings, in ascending order.
    pub fn listing_ids(&self) -> (r: &Vec<u64>)
        ensures
            r@ == self@.listing_ids,
    {
        &self.listing_ids
    }

    /// Stores a listing under the id that the counter has just handed out.
    pub fn add_listing(&mut self, l: Listing)
        requires
            old(self).wf(),
            old(self)@.item_counter == Some(l.id),
            1 <= l.id,
            forall|k: u64| #[trigger] old(self)@.listings.contains_key(k) ==> k < l.id,
        ensures
            final(self).wf(),
            final(self)@ == (MarketView {
                listings: old(self)@.listings.insert(l.id, l@),
                listing_ids: old(self)@.listing_ids.push(l.id),
                ..old(self)@
            }),
    {
        let ghost lv = l@;
        let id = l.id;
        self.listings.insert(id, l);
        self.listing_ids.push(id);
        let ghost post = MarketView {
            listings: old(self)@.listings.insert(id, lv),
            listing_ids: old(self)@.listing_ids.push(id),
            ..old(self)@
        };
        assert(self@.listings =~= post.listings);
        assert(self@ =~= post);
        assert forall|i: int, j: int| 0 <= i < j < self.listing_ids@.len() implies self.listing_ids@[i]
            < self.listing_ids@[j] by {
            if j == self.listing_ids@.len() - 1 {
                assert(old(self)@.listings.contains_key(old(self).listing_ids@[i]));
            }
        }
        assert forall|k: u64| #[trigger] self@.listings.contains_key(k) implies self@.listing_ids.contains(
            k) by {
            if k == id {
                assert(self.listing_ids@[self.listing_ids@.len() - 1] == id);
            } else {
                assert(old(self)@.listing_ids.contains(k));
                let i = choose|i: int| 0 <= i < old(self)@.listing_ids.len() && old(self)@.listing_ids[i] == k;
                assert(self.listing_ids@[i] == k);
            }
        }
    }

    /// Stores a listing in place of the one under the same id.
    pub fn replace_listing(&mut self, l: Listing)
        requires
            old(self).wf(),
            old(self)@.listings.contains_key(l.id),
        ensures
            final(self).wf(),
            final(self)@ == (MarketView { listings: old(self)@.listings.insert(l.id, l@), ..old(self)@ }),
    {
        let ghost lv = l@;
        let id = l.id;
        self.listings.insert(id, l);
        let ghost post = MarketView { listings: old(self)@.listings.insert(id, lv), ..old(self)@ };
        assert(self@.listings =~= post.listings);
        assert(self@ =~= post);
    }

    /// Removes the listing stored under an id.
    pub fn remove_listing(&mut self, id: u64)
        requires
            old(self).wf(),
            old(self)@.listings.contains_key(id),
        ensures
            final(self).wf(),
            final(self)@ == (MarketView {
                listings: old(self)@.listings.remove(id),
                listing_ids: old(self)@.listing_ids.remove(old(self)@.listing_ids.index_of(id)),
                ..old(self)@
            }),
    {
        let ghost ids = self.listing_ids@;
        assert(ids.contains(id));
        let n = self.listing_ids.len();
        let mut i: usize = 0;
        while i < n && self.listing_ids[i] != id
            invariant
                self.listing_ids@ == ids,
                n == ids.len(),
                0 <= i <= n,
                forall|j: int| 0 <= j < i ==> ids[j] != id,
            decreases n - i,
        {
            i = i + 1;
        }
        proof {
            if i == n {
                let w = choose|w: int| 0 <= w < ids.len() && ids[w] == id;
                assert(ids[w] == id);
            }
        }
        assert(ids.index_of(id) == i) by {
            let w = ids.index_of(id);
            assert(0 <= w < ids.len() && ids[w] == id);
            if w < i {
                assert(ids[w] != id);
            } else if w > i {
                assert(ids[i as int] < ids[w]);
            }
        }
        self.listing_ids.remove(i);
        self.listings.remove(&id);
        let ghost post = MarketView {
            listings: old(self)@.listings.remove(id),
            listing_ids: ids.remove(i as int),
            ..old(self)@
        };
        assert(self@.listings =~= post.listings);
        assert(self@ =~= post);
        assert forall|i2: int, j: int| 0 <= i2 < j < self.listing_ids@.len() implies self.listing_ids@[i2]
            < self.listing_ids@[j] by {
            if i2 < i {
                if j < i {
                } else {
                    assert(self.listing_ids@[j] == ids[j + 1]);
                }
            } else {
                assert(self.listing_ids@[i2] == ids[i2 + 1]);
                assert(self.listing_ids@[j] == ids[j + 1]);
            }
        }
        assert forall|j: int| 0 <= j < self.listing_ids@.len() implies self@.listings.contains_key(
            #[trigger] self.listing_ids@[j]) by {
            if j < i {
                assert(ids[j] != id);
                assert(old(self)@.listings.contains_key(ids[j]));
            } else {
                assert(self.listing_ids@[j] == ids[j + 1]);
                assert(ids[i as int] < ids[j + 1]);
                assert(old(self)@.listings.contains_key(ids[j + 1]));
            }
        }
        assert forall|k: u64| #[trigger] self@.listings.contains_key(k) implies self@.listing_ids.contains(
            k) by {
            assert(old(self)@.listings.contains_key(k));
            assert(ids.contains(k));
            let w = choose|w: int| 0 <= w < ids.len() && ids[w] == k;
            assert(w != i);
            if w < i {
                assert(self.listing_ids@[w] == k);
            } else {
                assert(self.listing_ids@[w - 1] == k);
            }
        }
    }

    /// Puts back a listing read from storage, where it comes after the
    /// listings put back so far and its id is one that the counter has handed
    /// out; returns whether it did.
    pub fn restore_listing(&mut self, l: Listing) -> (done: bool)
        requires
            old(self).wf(),
        ensures
            final(self).wf(),
            done == (old(self)@.item_counter matches Some(c) && 1 <= l.id <= c && (
                old(self)@.listing_ids.len() == 0
                    || old(self)@.listing_ids.last() < l.id)),
            done ==> final(self)@ == (MarketView {
                listings: old(self)@.listings.insert(l.id, l@),
                listing_ids: old(self)@.listing_ids.push(l.id),
                ..old(self)@
            }),
            !done ==> final(self)@ == old(self)@,
    {
        let covered = match self.item_counter {
            Some(c) => 1 <= l.id && l.id <= c,
            None => false,
        };
        let n = self.listing_ids.len();
        let fresh = n == 0 || self.listing_ids[n - 1] < l.id;
        if !(covered && fresh) {
            return false;
        }
        let ghost lv = l@;
        let id = l.id;
        proof {
            assert forall|k: u64| #[trigger] self@.listings.contains_key(k) implies k < id by {
                let w = choose|w: int| 0 <= w < self.listing_ids@.len() && self.listing_ids@[w] == k;
                assert(self@.listing_ids.contains(k));
                if w < n - 1 {
                    assert(self.listing_ids@[w] < self.listing_ids@[n - 1]);
                }
            }
        }
        self.listings.insert(id, l);
        self.listing_ids.push(id);
        let ghost post = MarketView {
            listings: old(self)@.listings.insert(id, lv),
            listing_ids: old(self)@.listing_ids.push(id),
            ..old(self)@
        };
        assert(self@.listings =~= post.listings);
        assert(self@ =~= post);
        assert forall|i: int, j: int| 0 <= i < j < self.listing_ids@.len() implies self.listing_ids@[i]
            < self.listing_ids@[j] by {
            if j == self.listing_ids@.len() - 1 && i < j {
                assert(old(self)@.listings.contains_key(old(self).listing_ids@[i]));
                if i < n - 1 {
                    assert(old(self).listing_ids@[i] < old(self).listing_ids@[n - 1]);
                }
            }
        }
        assert forall|k: u64| #[trigger] self@.listings.contains_key(k) implies self@.listing_ids.contains(
            k) by {
            if k == id {
                assert(self.listing_ids@[self.listing_ids@.len() - 1] == id);
            } else {
                assert(old(self)@.listing_ids.contains(k));
                let i = choose|i: int| 0 <= i < old(self)@.listing_ids.len() && old(self)@.listing_ids[i] == k;
                assert(self.listing_ids@[i] == k);
            }
        }
        true
    }

    /// The addresses of the registered users, each once.
    pub fn user_addresses(&self) -> (r: Vec<String>)
        requires
            self.wf(),
        ensures
            forall|i: int| 0 <= i < r.len() ==> self@.users.contains_key(#[trigger] r@[i]@),
            forall|k: Seq<char>| #[trigger] self@.users.contains_key(k) ==> exists|i: int|
                0 <= i < r.len() && #[trigger] r@[i]@ == k,
            forall|i: int, j: int| 0 <= i < j < r.len() ==> #[trigger] r@[i]@ != #[trigger] r@[j]@,
    {
        let r = self.users.addresses();
        assert forall|k: Seq<char>| #[trigger] self@.users.contains_key(k) implies exists|i: int|
            0 <= i < r.len() && #[trigger] r@[i]@ == k by {
            assert(self.users@.contains_key(k));
        }
        r
    }

    /// The addresses that have rated the store, each once.
    pub fn store_rater_addresses(&self) -> (r: Vec<String>)
        requires
            self.wf(),
        ensures
            forall|i: int| 0 <= i < r.len() ==> self@.store_raters.contains_key(#[trigger] r@[i]@),
            forall|k: Seq<char>| #[trigger] self@.store_raters.contains_key(k) ==> exists|i: int|
                0 <= i < r.len() && #[trigger] r@[i]@ == k,
            forall|i: int, j: int| 0 <= i < j < r.len() ==> #[trigger] r@[i]@ != #[trigger] r@[j]@,
    {
        self.store_raters.addresses()
    }

    /// The addresses that have rated a seller, each once.
    pub fn seller_rater_addresses(&self) -> (r: Vec<String>)
        requires
            self.wf(),
        ensures
            forall|i: int| 0 <= i < r.len() ==> self@.seller_raters.contains_key(#[trigger] r@[i]@),
            forall|k: Seq<char>| #[trigger] self@.seller_raters.contains_key(k) ==> exists|i: int|
                0 <= i < r.len() && #[trigger] r@[i]@ == k,
            forall|i: int, j: int| 0 <= i < j < r.len() ==> #[trigger] r@[i]@ != #[trigger] r@[j]@,
    {
        self.seller_raters.addresses()
    }

    /// Whether an address has rated the store, and with what value.
    pub fn load_store_rater(&self, addr: &str) -> (r: Option<bool>)
        ensures
            match r {
                Some(v) => self@.store_raters.contains_key(addr@) && self@.store_raters[addr@] == v,
                None => !self@.store_raters.contains_key(addr@),
            },
    {
        match self.store_raters.get(addr) {
            Some(v) => Some(*v),
            None => None,
        }
    }

    /// Whether an address has rated a seller, and with what value.
    pub fn load_seller_rater(&self, addr: &str) -> (r: Option<bool>)
        ensures
            match r {
                Some(v) => self@.seller_raters.contains_key(addr@) && self@.seller_raters[addr@] == v,
                None => !self@.seller_raters.contains_key(addr@),
            },
    {
        match self.seller_raters.get(addr) {
            Some(v) => Some(*v),
            None => None,
        }
    }

    pub fn has_store_rater(&self, addr: &str) -> (r: bool)
        ensures
            r == self@.store_raters.contains_key(addr@),
    {
        self.store_raters.contains(addr)
    }

    pub fn save_store_rater(&mut self, addr: String, v: bool)
        requires
            old(self).wf(),
        ensures
            final(self).wf(),
            final(self)@ == (MarketView { store_raters: old(self)@.store_raters.insert(addr@, v), ..old(self)@ }),
    {
        let ghost a = addr@;
        self.store_raters.insert(addr, v);
        assert(self@ =~= (MarketView { store_raters: old(self)@.store_raters.insert(a, v), ..old(self)@ }));
    }

    pub fn has_seller_rater(&self, addr: &str) -> (r: bool)
        ensures
            r == self@.seller_raters.contains_key(addr@),
    {
        self.seller_raters.contains(addr)
    }

    pub fn save_seller_rater(&mut self, addr: String, v: bool)
        requires
            old(self).wf(),
        ensures
            final(self).wf(),
            final(self)@ == (MarketView { seller_raters: old(self)@.seller_raters.insert(addr@, v), ..old(self)@ }),
    {
        let ghost a = addr@;
        self.seller_raters.insert(addr, v);
        assert(self@ =~= (MarketView { seller_raters: old(self)@.seller_raters.insert(a, v), ..old(self)@ }));
    }
}

} // verus!
