//! Account identifiers.

use vstd::prelude::*;
use vstd::std_specs::cmp::PartialEqSpecImpl;

verus! {

/// Whether `c` separates the parts of an account id.
pub open spec fn is_id_separator(c: char) -> bool {
    c == '-' || c == '_' || c == '.'
}

/// Whether `c` is a lower-case letter or a digit.
pub open spec fn is_id_alphanumeric(c: char) -> bool {
    ('a' <= c && c <= 'z') || ('0' <= c && c <= '9')
}

/// Whether `s` is a well-formed account id: 2 to 64 characters, each a
/// lower-case letter, a digit or a separator, with no separator at either end
/// and no two separators side by side.
pub open spec fn is_valid_account_id(s: Seq<char>) -> bool {
    &&& 2 <= s.len() <= 64
    &&& forall|i: int|
        0 <= i < s.len() ==> is_id_alphanumeric(#[trigger] s[i]) || is_id_separator(s[i])
    &&& !is_id_separator(s[0])
    &&& !is_id_separator(s[s.len() - 1])
    &&& forall|i: int|
        0 <= i < s.len() - 1 ==> !(is_id_separator(#[trigger] s[i]) && is_id_separator(s[i + 1]))
}

/// `near_sdk::AccountId::validate`, reduced to whether it accepts `text`.
/// It accepts exactly the texts that `is_valid_account_id` describes: it
/// refuses a text shorter than 2 or longer than 64 bytes, then walks the
/// characters and refuses one outside `a-z`, `0-9`, `-`, `_`, `.`, a separator
/// that comes first or follows another, and a separator at the end.
#[verifier::external_body]
fn accepts_account_id(text: &str) -> (ok: bool)
    ensures
        ok == is_valid_account_id(text@),
{
    near_sdk::AccountId::validate(text).is_ok()
}

/// The id of an account: a text that is a well-formed account id.
#[derive(Debug)]
pub struct AccountId {
    id: String,
}

impl View for AccountId {
    type V = Seq<char>;

    closed spec fn view(&self) -> Seq<char> {
        self.id@
    }
}

impl AccountId {
    #[verifier::type_invariant]
    spec fn well_formed(&self) -> bool {
        is_valid_account_id(self.id@)
    }

    /// Makes an account id of `text` if it is well-formed.
    pub fn parse(text: &str) -> (id: Option<AccountId>)
        ensures
            id.is_some() == is_valid_account_id(text@),
            id matches Some(a) ==> a@ == text@,
    {
        if accepts_account_id(text) {
            Some(AccountId { id: text.to_owned() })
        } else {
            None
        }
    }

    /// The text of the id.
    pub fn as_str(&self) -> (text: &str)
        ensures
            text@ == self@,
            is_valid_account_id(text@),
    {
        proof {
            use_type_invariant(self);
        }
        self.id.as_str()
    }
}

impl Clone for AccountId {
    fn clone(&self) -> (copy: Self)
        ensures
            copy@ == self@,
    {
        proof {
            use_type_invariant(self);
        }
        AccountId { id: self.id.clone() }
    }
}

impl PartialEq for AccountId {
    fn eq(&self, other: &Self) -> (equal: bool) {
        self.id == other.id
    }
}

impl Eq for AccountId {}

impl PartialEqSpecImpl for AccountId {
    open spec fn obeys_eq_spec() -> bool {
        true
    }

    open spec fn eq_spec(&self, other: &Self) -> bool {
        self@ == other@
    }
}

} // verus!
