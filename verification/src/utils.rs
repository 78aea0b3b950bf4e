//! Constants, time conversion and the token identifier codec.

use crate::account_id::{is_valid_account_id, AccountId};
use crate::error::LockerError;
use vstd::prelude::*;
use vstd::string::StringExecFns;

verus! {

/// The separator between the contract id and the inner token id of a
/// multi-token identifier, as a text.
pub const MFT_TAG: &'static str = "@";

/// The separator as a character.
pub const MFT_SEPARATOR: char = '@';

/// The most locks one account may hold through deposits.
pub const MAX_LOCK_NUM: usize = 64;

/// Nanoseconds in one second.
pub const NANOS_PER_SEC: u64 = 1_000_000_000;

/// Gas handed to a token contract for a transfer.
pub const GAS_FOR_TOKEN_TRANSFER: u64 = 20_000_000_000_000;

/// Gas kept for the settlement that follows a transfer.
pub const GAS_FOR_AFTER_TOKEN_TRANSFER: u64 = 10_000_000_000_000;

/// Gas kept for the settlement that follows a burn.
pub const GAS_FOR_AFTER_TOKEN_BURN: u64 = 10_000_000_000_000;

/// The whole seconds of a nanosecond timestamp, kept to 32 bits.
pub open spec fn spec_nano_to_sec(nano: u64) -> u32 {
    ((nano / NANOS_PER_SEC) % 0x1_0000_0000) as u32
}

/// Converts a block timestamp in nanoseconds to seconds, dropping the bits
/// above the low 32 of the quotient.
pub fn nano_to_sec(nano: u64) -> (sec: u32)
    ensures
        sec == spec_nano_to_sec(nano),
        nano / NANOS_PER_SEC <= u32::MAX ==> sec == nano / NANOS_PER_SEC,
{
    let whole: u64 = nano / NANOS_PER_SEC;
    let low: u64 = whole % 0x1_0000_0000;
    low as u32
}

/// The identifier of the inner token `inner` of the multi-token contract
/// `contract`: the two joined by the separator.
pub open spec fn mft_token_id(contract: Seq<char>, inner: Seq<char>) -> Seq<char> {
    contract.push(MFT_SEPARATOR) + inner
}

/// Where the separator first stands in `s`, if it stands there at all.
pub open spec fn first_separator(s: Seq<char>) -> int {
    choose|i: int|
        0 <= i < s.len() && s[i] == MFT_SEPARATOR && forall|j: int|
            0 <= j < i ==> s[j] != MFT_SEPARATOR
}

/// What a token identifier names. Without a separator it is the id of a token
/// contract. With exactly one it is a contract id, then the id of a token
/// inside that contract. Anything else names nothing.
pub open spec fn decode_token_id(s: Seq<char>) -> Option<(Seq<char>, Option<Seq<char>>)> {
    if !s.contains(MFT_SEPARATOR) {
        if is_valid_account_id(s) {
            Some((s, None))
        } else {
            None
        }
    } else {
        let at = first_separator(s);
        let contract = s.take(at);
        let inner = s.skip(at + 1);
        if !inner.contains(MFT_SEPARATOR) && is_valid_account_id(contract) {
            Some((contract, Some(inner)))
        } else {
            None
        }
    }
}

/// The view of an optional text.
pub open spec fn text_view(text: Option<String>) -> Option<Seq<char>> {
    match text {
        Some(t) => Some(t@),
        None => None,
    }
}

/// The first position of the separator in `s` is the one position that holds
/// it and has none before it.
pub proof fn lemma_first_separator(s: Seq<char>, at: int)
    requires
        0 <= at < s.len(),
        s[at] == MFT_SEPARATOR,
        forall|j: int| 0 <= j < at ==> s[j] != MFT_SEPARATOR,
    ensures
        s.contains(MFT_SEPARATOR),
        first_separator(s) == at,
{
    let found = first_separator(s);
    assert(0 <= found < s.len() && s[found] == MFT_SEPARATOR && forall|j: int|
        0 <= j < found ==> s[j] != MFT_SEPARATOR);
}

/// A well-formed account id holds no separator of token identifiers.
pub proof fn lemma_account_id_has_no_separator(s: Seq<char>)
    requires
        is_valid_account_id(s),
    ensures
        !s.contains(MFT_SEPARATOR),
{
}

/// Decoding undoes encoding: the identifier made of a well-formed contract id
/// and an inner id without separator names exactly these two.
pub proof fn lemma_decode_encoded(contract: Seq<char>, inner: Seq<char>)
    requires
        is_valid_account_id(contract),
        !inner.contains(MFT_SEPARATOR),
    ensures
        decode_token_id(mft_token_id(contract, inner)) == Some((contract, Some(inner))),
{
    let s = mft_token_id(contract, inner);
    let at = contract.len() as int;
    lemma_account_id_has_no_separator(contract);
    lemma_first_separator(s, at);
}

/// Makes the identifier under which the ledger keeps the inner token
/// `token_id` of the multi-token contract `contract_id`. An inner id that
/// holds the separator gives an identifier that names no token: a lock kept
/// under it cannot be withdrawn.
pub fn generate_mft_token_id(contract_id: &AccountId, token_id: String) -> (id: String)
    ensures
        id@ == mft_token_id(contract_id@, token_id@),
        !token_id@.contains(MFT_SEPARATOR) ==> decode_token_id(id@) == Some(
            (contract_id@, Some(token_id@)),
        ),
{
    proof {
        reveal_strlit("@");
    }
    let mut id = String::from_str(contract_id.as_str());
    id.append(MFT_TAG);
    id.append(token_id.as_str());
    proof {
        if !token_id@.contains(MFT_SEPARATOR) {
            lemma_decode_encoded(contract_id@, token_id@);
        }
    }
    id
}

/// Where the separator first stands in `text` at or after `from`, or the
/// length of `text` if it does not.
fn find_separator(text: &str, from: usize) -> (at: usize)
    requires
        from <= text@.len(),
    ensures
        from <= at <= text@.len(),
        forall|j: int| from <= j < at ==> text@[j] != MFT_SEPARATOR,
        at < text@.len() ==> text@[at as int] == MFT_SEPARATOR,
{
    let len = text.unicode_len();
    let mut at: usize = from;
    while at < len
        invariant
            len == text@.len(),
            from <= at <= len,
            forall|j: int| from <= j < at ==> text@[j] != MFT_SEPARATOR,
        decreases len - at,
    {
        if text.get_char(at) == MFT_SEPARATOR {
            return at;
        }
        at = at + 1;
    }
    at
}

/// Splits a token identifier into the id of the token contract and, for a
/// token inside a multi-token contract, its inner id.
pub fn parse_token_id(
    token_id: &String,
) -> (parsed: Result<(AccountId, Option<String>), LockerError>)
    ensures
        match parsed {
            Ok((contract, inner)) => decode_token_id(token_id@) == Some(
                (contract@, text_view(inner)),
            ),
            Err(e) => e == LockerError::MalformedAssetId && decode_token_id(token_id@).is_none(),
        },
{
    let text = token_id.as_str();
    let len = text.unicode_len();
    let at = find_separator(text, 0);
    if at == len {
        match AccountId::parse(text) {
            Some(contract) => Ok((contract, None)),
            None => Err(LockerError::MalformedAssetId),
        }
    } else {
        proof {
            lemma_first_separator(token_id@, at as int);
        }
        let next = find_separator(text, at + 1);
        let head = text.substring_char(0, at);
        let tail = text.substring_char(at + 1, len);
        if next < len {
            assert(tail@[next - at - 1] == MFT_SEPARATOR);
            return Err(LockerError::MalformedAssetId);
        }
        match AccountId::parse(head) {
            Some(contract) => Ok((contract, Some(String::from_str(tail)))),
            None => Err(LockerError::MalformedAssetId),
        }
    }
}

} // verus!
