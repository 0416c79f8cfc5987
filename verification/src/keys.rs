//! The storage keys under which the contract's items live, and the text that
//! a read reports when nothing is stored under one.
//!
//! An item lives under the bytes of its name; an entry of a map under the
//! length of the map's name in two bytes (big-endian), the name, and the
//! entry's key. A read that finds nothing reports
//! `type: <stored type>; key: [<bytes in upper-case hex>]`.

use vstd::prelude::*;
use vstd::string::*;
use vstd::utf8::encode_utf8;

verus! {

/// The bytes of "config".
pub open spec fn config_name() -> Seq<u8> {
    seq![0x63u8, 0x6Fu8, 0x6Eu8, 0x66u8, 0x69u8, 0x67u8]
}

/// The bytes of "store".
pub open spec fn store_name() -> Seq<u8> {
    seq![0x73u8, 0x74u8, 0x6Fu8, 0x72u8, 0x65u8]
}

/// The bytes of "users".
pub open spec fn users_name() -> Seq<u8> {
    seq![0x75u8, 0x73u8, 0x65u8, 0x72u8, 0x73u8]
}

/// The bytes of "listings".
pub open spec fn listings_name() -> Seq<u8> {
    seq![0x6Cu8, 0x69u8, 0x73u8, 0x74u8, 0x69u8, 0x6Eu8, 0x67u8, 0x73u8]
}

/// The `k` last bytes of `n`, most significant first.
pub open spec fn be_bytes(n: nat, k: nat) -> Seq<u8>
    decreases k,
{
    if k == 0 {
        seq![]
    } else {
        be_bytes(n / 256, (k - 1) as nat).push((n % 256) as u8)
    }
}

/// The key of a user's entry.
pub open spec fn user_key(addr: Seq<char>) -> Seq<u8> {
    seq![0u8, 5u8] + users_name() + encode_utf8(addr)
}

/// The key of a listing's entry.
pub open spec fn listing_key(id: u64) -> Seq<u8> {
    seq![0u8, 8u8] + listings_name() + be_bytes(id as nat, 8)
}

/// The upper-case hexadecimal digit of `d`.
pub open spec fn hex_char(d: nat) -> char {
    if d < 10 {
        crate::text::digit_char(d)
    } else if d == 10 {
        'A'
    } else if d == 11 {
        'B'
    } else if d == 12 {
        'C'
    } else if d == 13 {
        'D'
    } else if d == 14 {
        'E'
    } else {
        'F'
    }
}

/// A byte as two upper-case hexadecimal digits.
pub open spec fn byte_hex(b: u8) -> Seq<char> {
    seq![hex_char((b / 16) as nat), hex_char((b % 16) as nat)]
}

/// The bytes as two-digit hexadecimal numbers, separated by ", ".
pub open spec fn hex_items(bs: Seq<u8>) -> Seq<char>
    decreases bs.len(),
{
    if bs.len() == 0 {
        seq![]
    } else if bs.len() == 1 {
        byte_hex(bs[0])
    } else {
        hex_items(bs.drop_last()) + ", "@ + byte_hex(bs.last())
    }
}

/// The bytes as a bracketed list of two-digit hexadecimal numbers.
pub open spec fn hex_list(bs: Seq<u8>) -> Seq<char> {
    "["@ + hex_items(bs) + "]"@
}

/// What a read of the settings reports when they are not stored.
pub open spec fn config_missing() -> Seq<char> {
    "type: village_contracts::state::Config; key: "@ + hex_list(config_name())
}

/// What a read of the store reports when it is not stored.
pub open spec fn store_missing() -> Seq<char> {
    "type: village_contracts::state::Store; key: "@ + hex_list(store_name())
}

/// What a read of a user reports when none is registered at `addr`.
pub open spec fn user_missing(addr: Seq<char>) -> Seq<char> {
    "type: village_contracts::state::User; key: "@ + hex_list(user_key(addr))
}

/// What a read of a listing reports when none is stored under `id`.
pub open spec fn listing_missing(id: u64) -> Seq<char> {
    "type: village_contracts::state::Listing; key: "@ + hex_list(listing_key(id))
}

fn hex_str(d: u8) -> (s: &'static str)
    requires
        d < 16,
    ensures
        s@ == seq![hex_char(d as nat)],
{
    if d == 0 {
        proof { reveal_strlit("0"); }
        "0"
    } else if d == 1 {
        proof { reveal_strlit("1"); }
        "1"
    } else if d == 2 {
        proof { reveal_strlit("2"); }
        "2"
    } else if d == 3 {
        proof { reveal_strlit("3"); }
        "3"
    } else if d == 4 {
        proof { reveal_strlit("4"); }
        "4"
    } else if d == 5 {
        proof { reveal_strlit("5"); }
        "5"
    } else if d == 6 {
        proof { reveal_strlit("6"); }
        "6"
    } else if d == 7 {
        proof { reveal_strlit("7"); }
        "7"
    } else if d == 8 {
        proof { reveal_strlit("8"); }
        "8"
    } else if d == 9 {
        proof { reveal_strlit("9"); }
        "9"
    } else if d == 10 {
        proof { reveal_strlit("A"); }
        "A"
    } else if d == 11 {
        proof { reveal_strlit("B"); }
        "B"
    } else if d == 12 {
        proof { reveal_strlit("C"); }
        "C"
    } else if d == 13 {
        proof { reveal_strlit("D"); }
        "D"
    } else if d == 14 {
        proof { reveal_strlit("E"); }
        "E"
    } else {
        proof { reveal_strlit("F"); }
        "F"
    }
}

/// The bytes as a bracketed list of two-digit hexadecimal numbers.
pub fn hex_list_text(bs: &Vec<u8>) -> (s: String)
    ensures
        s@ == hex_list(bs@),
{
    let mut s = String::from_str("[");
    let mut i: usize = 0;
    while i < bs.len()
        invariant
            i <= bs@.len(),
            s@ == "["@ + hex_items(bs@.subrange(0, i as int)),
        decreases bs@.len() - i,
    {
        let ghost before = s@;
        if i > 0 {
            s.append(", ");
        }
        let b = bs[i];
        s.append(hex_str(b / 16));
        s.append(hex_str(b % 16));
        proof {
            let next = bs@.subrange(0, i + 1);
            if i > 0 {
                assert(next.drop_last() =~= bs@.subrange(0, i as int));
            }
            assert(next.last() == b);
            assert(s@ =~= "["@ + hex_items(next));
        }
        i = i + 1;
    }
    assert(bs@.subrange(0, bs@.len() as int) =~= bs@);
    s.append("]");
    s
}

fn push_bytes(out: &mut Vec<u8>, bs: &[u8])
    ensures
        final(out)@ == old(out)@ + bs@,
{
    let mut i: usize = 0;
    while i < bs.len()
        invariant
            i <= bs@.len(),
            out@ == old(out)@ + bs@.subrange(0, i as int),
        decreases bs@.len() - i,
    {
        out.push(bs[i]);
        assert(bs@.subrange(0, i + 1) =~= bs@.subrange(0, i as int).push(bs@[i as int]));
        i = i + 1;
    }
    assert(bs@.subrange(0, bs@.len() as int) =~= bs@);
}

fn be_bytes_of(n: u64, k: usize) -> (r: Vec<u8>)
    ensures
        r@ == be_bytes(n as nat, k as nat),
    decreases k,
{
    if k == 0 {
        Vec::new()
    } else {
        let mut v = be_bytes_of(n / 256, k - 1);
        v.push((n % 256) as u8);
        v
    }
}

/// What a read of the settings reports when they are not stored.
pub fn config_missing_text() -> (s: String)
    ensures
        s@ == config_missing(),
{
    let key: Vec<u8> = vec![0x63u8, 0x6Fu8, 0x6Eu8, 0x66u8, 0x69u8, 0x67u8];
    assert(key@ =~= config_name());
    let mut s = String::from_str("type: village_contracts::state::Config; key: ");
    s.append(hex_list_text(&key).as_str());
    s
}

/// What a read of the store reports when it is not stored.
pub fn store_missing_text() -> (s: String)
    ensures
        s@ == store_missing(),
{
    let key: Vec<u8> = vec![0x73u8, 0x74u8, 0x6Fu8, 0x72u8, 0x65u8];
    assert(key@ =~= store_name());
    let mut s = String::from_str("type: village_contracts::state::Store; key: ");
    s.append(hex_list_text(&key).as_str());
    s
}

/// What a read of a user reports when none is registered at `addr`.
pub fn user_missing_text(addr: &str) -> (s: String)
    ensures
        s@ == user_missing(addr@),
{
    let mut key: Vec<u8> = vec![0u8, 5u8, 0x75u8, 0x73u8, 0x65u8, 0x72u8, 0x73u8];
    assert(key@ =~= seq![0u8, 5u8] + users_name());
    push_bytes(&mut key, addr.as_bytes());
    let mut s = String::from_str("type: village_contracts::state::User; key: ");
    s.append(hex_list_text(&key).as_str());
    s
}

/// What a read of a listing reports when none is stored under `id`.
pub fn listing_missing_text(id: u64) -> (s: String)
    ensures
        s@ == listing_missing(id),
{
    let mut key: Vec<u8> = vec![
        0u8,
        8u8,
        0x6Cu8,
        0x69u8,
        0x73u8,
        0x74u8,
        0x69u8,
        0x6Eu8,
        0x67u8,
        0x73u8,
    ];
    assert(key@ =~= seq![0u8, 8u8] + listings_name());
    let tail = be_bytes_of(id, 8);
    push_bytes(&mut key, tail.as_slice());
    let mut s = String::from_str("type: village_contracts::state::Listing; key: ");
    s.append(hex_list_text(&key).as_str());
    s
}

} // verus!
