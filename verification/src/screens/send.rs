//! Fee choices, input validation and the step flow of the send screen.

use vstd::prelude::*;
use crate::state::view_models::{dash_number, parse_dash_amount, parse_dash_amount_spec, push_dash_number};
use crate::backend::error::{BackendError, BackendResult, backend_error_text};
use crate::text::{hex_encode, hex_lower, string_from_chars, trim};

verus! {

/// Fee rate presets.
#[derive(Debug, Clone, Copy, PartialEq, Eq, Structural)]
pub enum FeeRate {
    Economy,
    Normal,
    Priority,
}

impl FeeRate {
    /// All presets, cheapest first.
    pub const ALL: [FeeRate; 3] = [FeeRate::Economy, FeeRate::Normal, FeeRate::Priority];

    /// Name shown for the preset.
    pub fn label(self) -> (r: &'static str)
        ensures
            r@ == match self {
                FeeRate::Economy => "Economy"@,
                FeeRate::Normal => "Normal"@,
                FeeRate::Priority => "Priority"@,
            },
    {
        match self {
            FeeRate::Economy => "Economy",
            FeeRate::Normal => "Normal",
            FeeRate::Priority => "Priority",
        }
    }

    /// Approximate rate shown for the preset.
    pub fn description(self) -> (r: &'static str)
        ensures
            r@ == match self {
                FeeRate::Economy => "~1 sat/byte"@,
                FeeRate::Normal => "~10 sat/byte"@,
                FeeRate::Priority => "~100 sat/byte"@,
            },
    {
        match self {
            FeeRate::Economy => "~1 sat/byte",
            FeeRate::Normal => "~10 sat/byte",
            FeeRate::Priority => "~100 sat/byte",
        }
    }

    /// Fee rate in satoshis per kilobyte.
    pub fn sat_per_kb(self) -> (r: u32)
        ensures
            r == match self {
                FeeRate::Economy => 1_000u32,
                FeeRate::Normal => 10_000u32,
                FeeRate::Priority => 100_000u32,
            },
    {
        match self {
            FeeRate::Economy => 1_000,
            FeeRate::Normal => 10_000,
            FeeRate::Priority => 100_000,
        }
    }
}

/// Outcome of decoding an address string for the wallet's network.
#[derive(Debug, Clone, Copy, PartialEq, Eq, Structural)]
pub enum AddressDecoding {
    /// Not a well-formed Dash address.
    Malformed,
    /// A well-formed address of another network.
    OtherNetwork,
    /// A well-formed address of the wallet's network.
    Valid,
}

/// Message of [`validate_send_address`]: `None` when the address is accepted.
pub open spec fn send_address_error(address: Seq<char>, decoded: AddressDecoding) -> Option<Seq<char>> {
    if trim(address).len() == 0 {
        Some("Address is required"@)
    } else {
        match decoded {
            AddressDecoding::Malformed => Some("Invalid address format"@),
            AddressDecoding::OtherNetwork => Some("Address is for a different network"@),
            AddressDecoding::Valid => None,
        }
    }
}

/// Validate a Dash address string, given how its trimmed text decodes for
/// the wallet's network.
pub fn validate_send_address(address: &str, decoded: AddressDecoding) -> (r: Result<(), String>)
    ensures
        match r {
            Ok(()) => send_address_error(address@, decoded) is None,
            Err(m) => send_address_error(address@, decoded) == Some(m@),
        },
{
    let cs = crate::text::str_chars(address);
    let (lo, hi) = crate::text::trim_bounds(&cs);
    if lo == hi {
        return Err(String::from_str("Address is required"));
    }
    match decoded {
        AddressDecoding::Malformed => Err(String::from_str("Invalid address format")),
        AddressDecoding::OtherNetwork => Err(String::from_str("Address is for a different network")),
        AddressDecoding::Valid => Ok(()),
    }
}

/// Message or amount of [`validate_send_amount`].
pub open spec fn send_amount_check(amount: Seq<char>, spendable: u64) -> Result<nat, Seq<char>> {
    match parse_dash_amount_spec(amount) {
        None => Err("Invalid amount"@),
        Some(sats) => if sats == 0 {
            Err("Amount must be greater than 0"@)
        } else if sats > spendable {
            Err("Exceeds spendable balance"@)
        } else {
            Ok(sats)
        },
    }
}

/// Validate a send amount against the spendable balance.
pub fn validate_send_amount(amount_str: &str, spendable: u64) -> (r: Result<u64, String>)
    ensures
        match r {
            Ok(v) => send_amount_check(amount_str@, spendable) == Ok::<nat, Seq<char>>(v as nat),
            Err(m) => send_amount_check(amount_str@, spendable) == Err::<nat, Seq<char>>(m@),
        },
{
    match parse_dash_amount(amount_str) {
        None => Err(String::from_str("Invalid amount")),
        Some(sats) => {
            if sats == 0 {
                Err(String::from_str("Amount must be greater than 0"))
            } else if sats > spendable {
                Err(String::from_str("Exceeds spendable balance"))
            } else {
                Ok(sats)
            }
        },
    }
}

/// Format a satoshi amount as a user-friendly DASH string for the "Max" button.
pub fn format_max_amount(sats: u64) -> (r: String)
    ensures
        r@ == dash_number(sats as nat),
{
    let mut v: Vec<char> = Vec::new();
    push_dash_number(&mut v, sats);
    string_from_chars(&v)
}

/// Filling the amount field with the "Max" text of the spendable balance
/// is always accepted, as exactly the spendable balance, when it is not zero.
pub proof fn law_max_amount_accepted(spendable: u64)
    requires
        spendable > 0,
    ensures
        send_amount_check(dash_number(spendable as nat), spendable) == Ok::<nat, Seq<char>>(
            spendable as nat,
        ),
{
    crate::state::view_models::law_parse_dash_number_roundtrip(spendable);
}

/// The steps of the send screen.
#[derive(Debug, Clone, PartialEq)]
pub enum SendStep {
    Form,
    Review,
    Sending,
    /// Sent; holds the hex of the transaction id.
    Success(String),
    /// Failed; holds the error message.
    Error(String),
}

/// The amount a fee estimate is asked for: the entered amount, when it is a
/// positive amount and an address has been entered.
pub open spec fn fee_estimate_amount_spec(address: Seq<char>, amount: Seq<char>) -> Option<nat> {
    match parse_dash_amount_spec(amount) {
        Some(sats) => if sats > 0 && trim(address).len() > 0 {
            Some(sats)
        } else {
            None
        },
        None => None,
    }
}

/// The amount to estimate a fee for, if the form allows an estimate.
pub fn fee_estimate_amount(address: &str, amount_str: &str) -> (r: Option<u64>)
    ensures
        match r {
            Some(v) => fee_estimate_amount_spec(address@, amount_str@) == Some(v as nat),
            None => fee_estimate_amount_spec(address@, amount_str@) is None,
        },
{
    let amount_sats = match parse_dash_amount(amount_str) {
        Some(sats) => {
            if sats > 0 {
                sats
            } else {
                return None;
            }
        },
        None => {
            return None;
        },
    };
    let cs = crate::text::str_chars(address);
    let (lo, hi) = crate::text::trim_bounds(&cs);
    if lo == hi {
        return None;
    }
    Some(amount_sats)
}

/// Both messages of the send form: for the address and for the amount
/// (`None` where the field is accepted).
pub fn validate_form(
    address: &str,
    decoded: AddressDecoding,
    amount_str: &str,
    spendable: u64,
) -> (r: (Option<String>, Option<String>))
    ensures
        match r.0 {
            Some(m) => send_address_error(address@, decoded) == Some(m@),
            None => send_address_error(address@, decoded) is None,
        },
        match r.1 {
            Some(m) => send_amount_check(amount_str@, spendable) == Err::<nat, Seq<char>>(m@),
            None => send_amount_check(amount_str@, spendable) is Ok,
        },
{
    let address_error = match validate_send_address(address, decoded) {
        Ok(()) => None,
        Err(e) => Some(e),
    };
    let amount_error = match validate_send_amount(amount_str, spendable) {
        Ok(_) => None,
        Err(e) => Some(e),
    };
    (address_error, amount_error)
}

/// The figures shown on the review step, in satoshis.
#[derive(Debug, Clone, Copy, PartialEq, Eq)]
pub struct SendReview {
    pub amount: u64,
    pub fee: u64,
    /// Amount plus fee, saturating at `u64::MAX`.
    pub total: u64,
    /// Spendable balance less the total, saturating at 0.
    pub remaining: u64,
}

/// The review figures for the entered amount (0 if it does not parse), the
/// fee estimate (0 if there is none) and the spendable balance.
pub fn review_summary(amount_str: &str, fee_estimate: Option<u64>, spendable: u64) -> (r: SendReview)
    ensures
        r.amount as nat == (match parse_dash_amount_spec(amount_str@) {
            Some(v) => v,
            None => 0,
        }),
        r.fee == (match fee_estimate {
            Some(f) => f,
            None => 0,
        }),
        r.total as int == if r.amount + r.fee > u64::MAX {
            u64::MAX as int
        } else {
            r.amount + r.fee
        },
        r.remaining as int == if spendable >= r.total {
            spendable - r.total
        } else {
            0
        },
{
    let amount = match parse_dash_amount(amount_str) {
        Some(v) => v,
        None => 0,
    };
    let fee = match fee_estimate {
        Some(f) => f,
        None => 0,
    };
    let total = if amount > u64::MAX - fee {
        u64::MAX
    } else {
        amount + fee
    };
    let remaining = if spendable >= total {
        spendable - total
    } else {
        0
    };
    SendReview { amount, fee, total, remaining }
}

/// The step after the backend answered a send: the hex of the transaction
/// id, or the error's message.
pub fn send_outcome(result: &BackendResult<[u8; 32]>) -> (r: SendStep)
    ensures
        match result {
            Ok(txid) => r matches SendStep::Success(h) && h@ == hex_lower(txid@),
            Err(e) => r matches SendStep::Error(m) && m@ == backend_error_text(*e),
        },
{
    match result {
        Ok(txid) => SendStep::Success(hex_encode(txid)),
        Err(e) => SendStep::Error(e.message()),
    }
}

} // verus!
