# village-contracts

A marketplace contract: a store with a name, an admin and a rating; users who
register under a name; listings that registered users put up for sale, change,
remove or sell; and ratings that addresses give to the store.

- `src/` is the verified library. `state.rs` holds the contract's state
  (`Marketplace`) and its model (`MarketView`); `contract.rs` states what each
  request does as a spec function of the state (`*_outcome`) and carries it out;
  `helpers.rs` holds the name check, the coin check, the listing counter and the
  rating computation; `decimal.rs` reaches `rust_decimal` for the decimal
  arithmetic; `laws.rs` proves properties that span requests.
- `app/` holds the CosmWasm entry points: they load the state from the chain's
  storage, check the sender's address with the chain, call the library, and
  store the state and encode the answers.
- `tests/` runs the library on concrete requests.
