//! What the contract is sent and what it answers.

use vstd::prelude::*;
use vstd::string::*;
use cosmwasm_std::{Empty, SubMsg};
use crate::state::{Coin, Config, Listing, Store, User};

verus! {

/// A message that the chain sends on behalf of a contract.
#[verifier::external_type_specification]
#[verifier::external_body]
#[verifier::reject_recursive_types(T)]
pub struct ExSubMsg<T>(SubMsg<T>);

/// The empty custom message of the chain.
#[verifier::external_type_specification]
#[verifier::external_body]
pub struct ExEmpty(Empty);

/// Who sent a request, and the tokens sent with it.
#[derive(Debug)]
pub struct MessageInfo {
    pub sender: String,
    pub funds: Vec<Coin>,
}

/// A key and a value that a response reports.
#[derive(Debug, PartialEq, Eq)]
pub struct Attribute {
    pub key: String,
    pub value: String,
}

/// An attribute made of two texts.
pub fn attr(key: &str, value: &str) -> (a: Attribute)
    ensures
        a.key@ == key@,
        a.value@ == value@,
{
    Attribute { key: String::from_str(key), value: String::from_str(value) }
}

/// The answer to a request that succeeded: messages to send on, and the
/// attributes that report what was done.
#[derive(Debug)]
pub struct Response {
    pub messages: Vec<SubMsg<Empty>>,
    pub attributes: Vec<Attribute>,
}

impl Response {
    /// The attributes as pairs of texts.
    pub open spec fn attrs(&self) -> Seq<(Seq<char>, Seq<char>)> {
        self.attributes@.map_values(|a: Attribute| (a.key@, a.value@))
    }

    pub fn new() -> (r: Response)
        ensures
            r.messages@.len() == 0,
            r.attrs() == Seq::<(Seq<char>, Seq<char>)>::empty(),
    {
        let r = Response { messages: Vec::new(), attributes: Vec::new() };
        assert(r.attrs() =~= Seq::<(Seq<char>, Seq<char>)>::empty());
        r
    }

    /// The same response with one more attribute at the end.
    pub fn add_attribute(self, key: &str, value: String) -> (r: Response)
        ensures
            r.messages@ == self.messages@,
            r.attrs() == self.attrs().push((key@, value@)),
    {
        let mut r = self;
        let ghost before = r.attrs();
        r.attributes.push(Attribute { key: String::from_str(key), value });
        assert(r.attrs() =~= before.push((key@, value@)));
        r
    }
}

#[derive(Debug)]
#[allow(non_snake_case)]
pub struct InstantiateMsg {
    pub storeName: String,
    pub refundPeriodPolicy: Option<u64>,
}

#[derive(Debug)]
#[allow(non_snake_case)]
pub enum ExecuteMsg {
    Register { user: String },
    ListItem { name: String, price: Coin, desc: Option<String> },
    UpdateListing { id: u64, name: Option<String>, price: Option<Coin>, desc: Option<String> },
    DeleteListing { id: u64 },
    Buy { id: u64 },
    RateStore { rating: u16 },
    RateSeller { sellerAddr: String, rating: u16 },
}

#[derive(Debug)]
pub enum QueryMsg {
    QueryConfig {},
    QueryStoreInfo {},
    QueryUser { id: String },
    QueryListing { id: u64 },
    QueryListings { start_after: Option<u64>, limit: Option<u32> },
}

#[derive(Debug)]
pub struct ConfigResponse {
    pub config: Config,
}

#[derive(Debug)]
pub struct StoreInfoResponse {
    pub store_info: Store,
}

#[derive(Debug)]
pub struct UserResponse {
    pub user_info: User,
}

#[derive(Debug)]
pub struct ListingResponse {
    pub listing: Listing,
}

#[derive(Debug)]
pub struct ListingsResponse {
    pub listings: Vec<Listing>,
}

/// The answer to a query, before it is encoded.
#[derive(Debug)]
pub enum QueryAnswer {
    Config(ConfigResponse),
    StoreInfo(StoreInfoResponse),
    User(UserResponse),
    Listing(ListingResponse),
    Listings(ListingsResponse),
}

} // verus!
