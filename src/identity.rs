//! Display names for validator accounts.
//!
//! A name comes from the account's on-chain identity registration when its
//! display field holds raw bytes, else from an offchain mapping of accounts
//! to names, else the account is marked as having no identity.
use vstd::prelude::*;
use vstd::string::*;

verus! {

/// A field of an on-chain identity: empty, up to 32 raw bytes, or the
/// digest of data kept elsewhere.
#[derive(Debug)]
pub enum IdentityData {
    Empty,
    Raw(Vec<u8>),
    BlakeTwo256([u8; 32]),
    Sha256([u8; 32]),
    Keccak256([u8; 32]),
    ShaThree256([u8; 32]),
}

/// The longest raw payload an identity field can carry.
pub const MAX_RAW_LEN: usize = 32;

/// The text decoded from `bytes` as UTF-8, with every invalid sequence
/// replaced by U+FFFD.
pub uninterp spec fn utf8_lossy_of(bytes: Seq<u8>) -> Seq<char>;

/// Relies on `String::from_utf8_lossy`: the decoded text depends on the
/// bytes alone, and no bytes decode to no text.
#[verifier::external_body]
fn decode_utf8_lossy(bytes: &Vec<u8>) -> (r: String)
    ensures
        r@ == utf8_lossy_of(bytes@),
        bytes@.len() == 0 ==> r@.len() == 0,
{
    String::from_utf8_lossy(bytes.as_slice()).to_string()
}

/// The display text held by an identity field: its raw bytes decoded, when
/// it holds at most 32 of them, and nothing otherwise.
pub open spec fn raw_text(data: IdentityData) -> Option<Seq<char>> {
    match data {
        IdentityData::Raw(bytes) => if bytes@.len() <= MAX_RAW_LEN {
            Some(utf8_lossy_of(bytes@))
        } else {
            None
        },
        _ => None,
    }
}

/// The text of a raw identity field, decoded as UTF-8 with invalid
/// sequences replaced.
pub fn extract_raw_data(data: &IdentityData) -> (r: Option<String>)
    ensures
        r matches Some(text) ==> raw_text(*data) == Some(text@),
        r is None ==> raw_text(*data) is None,
{
    match data {
        IdentityData::Raw(bytes) => {
            if bytes.len() <= MAX_RAW_LEN {
                Some(decode_utf8_lossy(bytes))
            } else {
                None
            }
        },
        _ => None,
    }
}

/// `name [account]`.
pub open spec fn labeled(name: Seq<char>, account: Seq<char>) -> Seq<char> {
    name + seq![' ', '['] + account + seq![']']
}

/// The marker used for an account that has no name anywhere.
pub open spec fn no_ident() -> Seq<char> {
    seq!['N', 'O', '_', 'I', 'D', 'E', 'N', 'T']
}

/// Writes `name [account]`.
pub fn label(name: &str, account: &str) -> (r: String)
    ensures
        r@ == labeled(name@, account@),
{
    let mut out = name.to_owned();
    proof {
        reveal_strlit(" [");
        reveal_strlit("]");
    }
    assert(" ["@ =~= seq![' ', '[']);
    assert("]"@ =~= seq![']']);
    out.append(" [");
    out.append(account);
    out.append("]");
    out
}

/// The entries of an account-to-name mapping, as pairs of texts.
pub open spec fn entries_view(entries: Seq<(String, String)>) -> Seq<(Seq<char>, Seq<char>)> {
    entries.map_values(|e: (String, String)| (e.0@, e.1@))
}

/// The name given to `account` by the first entry for it, if any.
pub open spec fn local_name(entries: Seq<(Seq<char>, Seq<char>)>, account: Seq<char>) -> Option<
    Seq<char>,
>
    decreases entries.len(),
{
    if entries.len() == 0 {
        None
    } else if entries[0].0 == account {
        Some(entries[0].1)
    } else {
        local_name(entries.drop_first(), account)
    }
}

/// Looks `account` up in an account-to-name mapping.
pub fn lookup_local_name(entries: &Vec<(String, String)>, account: &String) -> (r: Option<String>)
    ensures
        r matches Some(name) ==> local_name(entries_view(entries@), account@) == Some(name@),
        r is None ==> local_name(entries_view(entries@), account@) is None,
{
    let ghost all = entries_view(entries@);
    let mut i: usize = 0;
    assert(all.subrange(0, all.len() as int) =~= all);
    while i < entries.len()
        invariant
            0 <= i <= entries@.len(),
            all == entries_view(entries@),
            local_name(all, account@) == local_name(all.subrange(i as int, all.len() as int), account@),
        decreases entries@.len() - i,
    {
        let ghost rest = all.subrange(i as int, all.len() as int);
        assert(rest.drop_first() =~= all.subrange(i as int + 1, all.len() as int));
        assert(rest[0] == (entries@[i as int].0@, entries@[i as int].1@));
        if entries[i].0 == *account {
            return Some(entries[i].1.clone());
        }
        i = i + 1;
    }
    proof {
        assert(all.subrange(i as int, all.len() as int).len() == 0);
    }
    None
}

/// The display string of `account`: its on-chain display name if the
/// registration holds a raw one, else its name in the offchain mapping,
/// else the no-identity marker; in each case followed by ` [account]`.
pub open spec fn resolved_identity(
    account: Seq<char>,
    display: Option<IdentityData>,
    entries: Seq<(Seq<char>, Seq<char>)>,
) -> Seq<char> {
    let onchain = match display {
        Some(data) => raw_text(data),
        None => None,
    };
    match onchain {
        Some(text) => labeled(text, account),
        None => match local_name(entries, account) {
            Some(name) => labeled(name, account),
            None => labeled(no_ident(), account),
        },
    }
}

/// Resolves the display string of `account` from the display field of its
/// on-chain identity registration, if it has one, and the offchain
/// account-to-name mapping.
pub fn resolve_identity(
    account: &String,
    display: &Option<IdentityData>,
    local_map: &Vec<(String, String)>,
) -> (r: String)
    ensures
        r@ == resolved_identity(account@, *display, entries_view(local_map@)),
{
    let onchain = match display {
        Some(data) => extract_raw_data(data),
        None => None,
    };
    match onchain {
        Some(text) => label(text.as_str(), account.as_str()),
        None => match lookup_local_name(local_map, account) {
            Some(name) => label(name.as_str(), account.as_str()),
            None => {
                proof {
                    reveal_strlit("NO_IDENT");
                }
                assert("NO_IDENT"@ =~= no_ident());
                label("NO_IDENT", account.as_str())
            },
        },
    }
}

/// What a JSON text holds when it is one object whose values are all
/// strings: its entries, ordered by key, the last of equal keys kept.
pub uninterp spec fn json_string_map_of(text: Seq<char>) -> Option<Seq<(Seq<char>, Seq<char>)>>;

/// Relies on `serde_json::from_str` into a `BTreeMap<String, String>`: it
/// succeeds exactly on a JSON object of string values, and the map, walked
/// in key order, depends on the text alone.
#[verifier::external_body]
fn parse_json_string_map(text: &str) -> (r: Option<Vec<(String, String)>>)
    ensures
        r matches Some(entries) ==> json_string_map_of(text@) == Some(entries_view(entries@)),
        r is None ==> json_string_map_of(text@) is None,
{
    match serde_json::from_str::<std::collections::BTreeMap<String, String>>(text) {
        Ok(map) => Some(map.into_iter().collect()),
        Err(_) => None,
    }
}

/// The account-to-name mapping held by the text of the offchain mapping
/// file; a text that is not a JSON object of string values gives an empty
/// mapping.
pub fn parse_local_map(text: &str) -> (r: Vec<(String, String)>)
    ensures
        json_string_map_of(text@) matches Some(entries) ==> entries_view(r@) == entries,
        json_string_map_of(text@) is None ==> r@.len() == 0,
{
    match parse_json_string_map(text) {
        Some(entries) => entries,
        None => Vec::new(),
    }
}

} // verus!
