//! What the ledger reports of what happened.

use crate::account_id::AccountId;
use vstd::prelude::*;
use vstd::string::StringExecFns;

verus! {

/// Something that happened in the ledger.
#[derive(Clone, Debug, PartialEq, Eq)]
pub enum Event {
    /// A deposit made a lock.
    LockedToken { account_id: AccountId, token_id: String, amount: u128, unlock_time_sec: u32 },
    /// A deposit extended a lock.
    AppendToken { account_id: AccountId, token_id: String, amount: u128, unlock_time_sec: u32 },
    /// A withdrawal took its amount out of a lock and sent it off.
    WithdrawStarted { account_id: AccountId, token_id: String, amount: u128 },
    /// The transfer of a withdrawal arrived.
    WithdrawSucceeded { account_id: AccountId, token_id: String, amount: u128 },
    /// The transfer of a withdrawal failed and its amount is locked again.
    WithdrawFailed { account_id: AccountId, token_id: String, amount: u128 },
    /// The transfer of a withdrawal failed and the account is gone: the
    /// amount is in no lock.
    WithdrawLostfound { account_id: AccountId, token_id: String, amount: u128 },
    /// An account was registered.
    AccountRegister { account_id: AccountId },
    /// An account was unregistered.
    AccountUnregister { account_id: AccountId },
}

/// An event as values.
pub enum EventView {
    LockedToken { account_id: Seq<char>, token_id: Seq<char>, amount: u128, unlock_time_sec: u32 },
    AppendToken { account_id: Seq<char>, token_id: Seq<char>, amount: u128, unlock_time_sec: u32 },
    WithdrawStarted { account_id: Seq<char>, token_id: Seq<char>, amount: u128 },
    WithdrawSucceeded { account_id: Seq<char>, token_id: Seq<char>, amount: u128 },
    WithdrawFailed { account_id: Seq<char>, token_id: Seq<char>, amount: u128 },
    WithdrawLostfound { account_id: Seq<char>, token_id: Seq<char>, amount: u128 },
    AccountRegister { account_id: Seq<char> },
    AccountUnregister { account_id: Seq<char> },
}

impl View for Event {
    type V = EventView;

    open spec fn view(&self) -> EventView {
        match self {
            Event::LockedToken { account_id, token_id, amount, unlock_time_sec } => {
                EventView::LockedToken {
                    account_id: account_id@,
                    token_id: token_id@,
                    amount: *amount,
                    unlock_time_sec: *unlock_time_sec,
                }
            },
            Event::AppendToken { account_id, token_id, amount, unlock_time_sec } => {
                EventView::AppendToken {
                    account_id: account_id@,
                    token_id: token_id@,
                    amount: *amount,
                    unlock_time_sec: *unlock_time_sec,
                }
            },
            Event::WithdrawStarted { account_id, token_id, amount } => EventView::WithdrawStarted {
                account_id: account_id@,
                token_id: token_id@,
                amount: *amount,
            },
            Event::WithdrawSucceeded { account_id, token_id, amount } => {
                EventView::WithdrawSucceeded {
                    account_id: account_id@,
                    token_id: token_id@,
                    amount: *amount,
                }
            },
            Event::WithdrawFailed { account_id, token_id, amount } => EventView::WithdrawFailed {
                account_id: account_id@,
                token_id: token_id@,
                amount: *amount,
            },
            Event::WithdrawLostfound { account_id, token_id, amount } => {
                EventView::WithdrawLostfound {
                    account_id: account_id@,
                    token_id: token_id@,
                    amount: *amount,
                }
            },
            Event::AccountRegister { account_id } => EventView::AccountRegister {
                account_id: account_id@,
            },
            Event::AccountUnregister { account_id } => EventView::AccountUnregister {
                account_id: account_id@,
            },
        }
    }
}

/// The name of the standard that the event lines follow.
pub const EVENT_STANDARD: &'static str = "token-locker";

/// The version of that standard.
pub const EVENT_STANDARD_VERSION: &'static str = "1.0.0";

/// The character for the digit `d`, which is below 10.
pub open spec fn digit_char(d: int) -> char {
    ('0' as int + d) as char
}

/// The character for the hexadecimal digit `d`, which is below 16.
pub open spec fn hex_digit_char(d: int) -> char {
    if d < 10 {
        ('0' as int + d) as char
    } else {
        ('a' as int + d - 10) as char
    }
}

/// The number `n` in decimal digits, without leading zeros.
pub open spec fn decimal_text(n: nat) -> Seq<char>
    decreases n,
{
    if n < 10 {
        seq![digit_char(n as int)]
    } else {
        decimal_text(n / 10).push(digit_char((n % 10) as int))
    }
}

/// What stands for the character `c` inside a JSON string: a backslash and a
/// letter for the quote, the backslash and five control characters, a
/// backslash, `u00` and two hexadecimal digits for the other characters
/// below the space, and the character itself for all others.
pub open spec fn json_escaped_char(c: char) -> Seq<char> {
    if c == '"' {
        seq!['\\', '"']
    } else if c == '\\' {
        seq!['\\', '\\']
    } else if c as int == 0x08 {
        seq!['\\', 'b']
    } else if c as int == 0x09 {
        seq!['\\', 't']
    } else if c as int == 0x0a {
        seq!['\\', 'n']
    } else if c as int == 0x0c {
        seq!['\\', 'f']
    } else if c as int == 0x0d {
        seq!['\\', 'r']
    } else if (c as int) < 0x20 {
        seq!['\\', 'u', '0', '0', hex_digit_char(c as int / 16), hex_digit_char(c as int % 16)]
    } else {
        seq![c]
    }
}

/// What stands for the characters of `text` inside a JSON string.
pub open spec fn json_escaped(text: Seq<char>) -> Seq<char>
    decreases text.len(),
{
    if text.len() == 0 {
        Seq::empty()
    } else {
        json_escaped(text.drop_last()) + json_escaped_char(text.last())
    }
}

/// The JSON string for `text`: its characters, escaped, between quotes.
pub open spec fn json_string_text(text: Seq<char>) -> Seq<char> {
    seq!['"'] + json_escaped(text) + seq!['"']
}

/// `serde_json::Value::String(..).to_string()`: the compact JSON text of a
/// string value. It is a quote, the characters of the string with those
/// escaped that `json_escaped_char` describes, and a quote.
#[verifier::external_body]
fn json_string(text: &str) -> (json: String)
    ensures
        json@ == json_string_text(text@),
{
    serde_json::Value::String(text.to_owned()).to_string()
}

/// The name under which an event is reported.
pub open spec fn event_name(event: EventView) -> Seq<char> {
    match event {
        EventView::LockedToken { .. } => "locked_token"@,
        EventView::AppendToken { .. } => "append_token"@,
        EventView::WithdrawStarted { .. } => "withdraw_started"@,
        EventView::WithdrawSucceeded { .. } => "withdraw_succeeded"@,
        EventView::WithdrawFailed { .. } => "withdraw_failed"@,
        EventView::WithdrawLostfound { .. } => "withdraw_lostfound"@,
        EventView::AccountRegister { .. } => "account_register"@,
        EventView::AccountUnregister { .. } => "account_unregister"@,
    }
}

/// The JSON text of the account, the token and the amount of an event. The
/// amount is a string of decimal digits.
pub open spec fn transfer_fields(account_id: Seq<char>, token_id: Seq<char>, amount: u128) -> Seq<
    char,
> {
    "{\"account_id\":"@ + json_string_text(account_id) + ",\"token_id\":"@ + json_string_text(
        token_id,
    ) + ",\"amount\":\""@ + decimal_text(amount as nat) + "\""@
}

/// The JSON object that holds what an event is about.
pub open spec fn event_data(event: EventView) -> Seq<char> {
    match event {
        EventView::LockedToken { account_id, token_id, amount, unlock_time_sec } => transfer_fields(
            account_id,
            token_id,
            amount,
        ) + ",\"unlock_time_sec\":"@ + decimal_text(unlock_time_sec as nat) + "}"@,
        EventView::AppendToken { account_id, token_id, amount, unlock_time_sec } => transfer_fields(
            account_id,
            token_id,
            amount,
        ) + ",\"unlock_time_sec\":"@ + decimal_text(unlock_time_sec as nat) + "}"@,
        EventView::WithdrawStarted { account_id, token_id, amount } => transfer_fields(
            account_id,
            token_id,
            amount,
        ) + "}"@,
        EventView::WithdrawSucceeded { account_id, token_id, amount } => transfer_fields(
            account_id,
            token_id,
            amount,
        ) + "}"@,
        EventView::WithdrawFailed { account_id, token_id, amount } => transfer_fields(
            account_id,
            token_id,
            amount,
        ) + "}"@,
        EventView::WithdrawLostfound { account_id, token_id, amount } => transfer_fields(
            account_id,
            token_id,
            amount,
        ) + "}"@,
        EventView::AccountRegister { account_id } => "{\"account_id\":"@ + json_string_text(
            account_id,
        ) + "}"@,
        EventView::AccountUnregister { account_id } => "{\"account_id\":"@ + json_string_text(
            account_id,
        ) + "}"@,
    }
}

/// The line that reports an event: a marker, then a JSON object with the
/// standard, its version, the name of the event and, in a list, its data.
pub open spec fn event_line(event: EventView) -> Seq<char> {
    "EVENT_JSON:{\"standard\":\""@ + EVENT_STANDARD@ + "\",\"version\":\""@
        + EVENT_STANDARD_VERSION@ + "\",\"event\":\""@ + event_name(event) + "\",\"data\":["@
        + event_data(event) + "]}"@
}

/// The text of the digit `d`.
fn digit_text(d: u8) -> (text: &'static str)
    requires
        d < 10,
    ensures
        text@ == seq![digit_char(d as int)],
{
    proof {
        reveal_strlit("0");
        reveal_strlit("1");
        reveal_strlit("2");
        reveal_strlit("3");
        reveal_strlit("4");
        reveal_strlit("5");
        reveal_strlit("6");
        reveal_strlit("7");
        reveal_strlit("8");
        reveal_strlit("9");
    }
    let text = match d {
        0 => "0",
        1 => "1",
        2 => "2",
        3 => "3",
        4 => "4",
        5 => "5",
        6 => "6",
        7 => "7",
        8 => "8",
        _ => "9",
    };
    text
}

/// Writes `n` in decimal digits, without leading zeros.
pub fn decimal(n: u128) -> (text: String)
    ensures
        text@ == decimal_text(n as nat),
    decreases n,
{
    if n < 10 {
        String::from_str(digit_text(n as u8))
    } else {
        let mut text = decimal(n / 10);
        text.append(digit_text((n % 10) as u8));
        text
    }
}

/// Writes the account, the token and the amount of an event as the start of a
/// JSON object.
fn write_transfer_fields(account_id: &AccountId, token_id: &String, amount: u128) -> (text: String)
    ensures
        text@ == transfer_fields(account_id@, token_id@, amount),
{
    let mut text = String::from_str("{\"account_id\":");
    text.append(json_string(account_id.as_str()).as_str());
    text.append(",\"token_id\":");
    text.append(json_string(token_id.as_str()).as_str());
    text.append(",\"amount\":\"");
    text.append(decimal(amount).as_str());
    text.append("\"");
    text
}

/// Closes the JSON object of an event that has an unlock time.
fn write_locked(fields: String, unlock_time_sec: u32) -> (text: String)
    ensures
        text@ == fields@ + ",\"unlock_time_sec\":"@ + decimal_text(unlock_time_sec as nat) + "}"@,
{
    let mut text = fields;
    text.append(",\"unlock_time_sec\":");
    text.append(decimal(unlock_time_sec as u128).as_str());
    text.append("}");
    text
}

/// Writes a JSON object that holds an account id alone.
fn write_account(account_id: &AccountId) -> (text: String)
    ensures
        text@ == "{\"account_id\":"@ + json_string_text(account_id@) + "}"@,
{
    let mut text = String::from_str("{\"account_id\":");
    text.append(json_string(account_id.as_str()).as_str());
    text.append("}");
    text
}

impl Event {
    /// The name under which the event is reported.
    pub fn name(&self) -> (name: &'static str)
        ensures
            name@ == event_name(self@),
    {
        match self {
            Event::LockedToken { .. } => "locked_token",
            Event::AppendToken { .. } => "append_token",
            Event::WithdrawStarted { .. } => "withdraw_started",
            Event::WithdrawSucceeded { .. } => "withdraw_succeeded",
            Event::WithdrawFailed { .. } => "withdraw_failed",
            Event::WithdrawLostfound { .. } => "withdraw_lostfound",
            Event::AccountRegister { .. } => "account_register",
            Event::AccountUnregister { .. } => "account_unregister",
        }
    }

    /// The JSON object that holds what the event is about.
    fn data(&self) -> (text: String)
        ensures
            text@ == event_data(self@),
    {
        match self {
            Event::LockedToken { account_id, token_id, amount, unlock_time_sec } => write_locked(
                write_transfer_fields(account_id, token_id, *amount),
                *unlock_time_sec,
            ),
            Event::AppendToken { account_id, token_id, amount, unlock_time_sec } => write_locked(
                write_transfer_fields(account_id, token_id, *amount),
                *unlock_time_sec,
            ),
            Event::WithdrawStarted { account_id, token_id, amount } => {
                let mut text = write_transfer_fields(account_id, token_id, *amount);
                text.append("}");
                text
            },
            Event::WithdrawSucceeded { account_id, token_id, amount } => {
                let mut text = write_transfer_fields(account_id, token_id, *amount);
                text.append("}");
                text
            },
            Event::WithdrawFailed { account_id, token_id, amount } => {
                let mut text = write_transfer_fields(account_id, token_id, *amount);
                text.append("}");
                text
            },
            Event::WithdrawLostfound { account_id, token_id, amount } => {
                let mut text = write_transfer_fields(account_id, token_id, *amount);
                text.append("}");
                text
            },
            Event::AccountRegister { account_id } => write_account(account_id),
            Event::AccountUnregister { account_id } => write_account(account_id),
        }
    }

    /// Writes the line that reports the event, for the log of the
    /// surroundings.
    pub fn emit(&self) -> (line: String)
        ensures
            line@ == event_line(self@),
    {
        let mut line = String::from_str("EVENT_JSON:{\"standard\":\"");
        line.append(EVENT_STANDARD);
        line.append("\",\"version\":\"");
        line.append(EVENT_STANDARD_VERSION);
        line.append("\",\"event\":\"");
        line.append(self.name());
        line.append("\",\"data\":[");
        line.append(self.data().as_str());
        line.append("]}");
        line
    }
}

} // verus!
