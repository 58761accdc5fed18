//! Checks on what a user enters.

use crate::constants;
use crate::decimal;
use crate::error::{outcome, ErrorView, Outcome, OxideScannerError};
use crate::text;
use vstd::prelude::*;
use vstd::utf8::encode_utf8;

verus! {

/// A target is a name or an address that is not empty and takes no more bytes
/// than a domain name may.
pub open spec fn checked_target(target: Seq<char>) -> core::result::Result<Seq<char>, ErrorView> {
    if target.len() == 0 {
        Err(ErrorView::Validation("Target cannot be empty"@))
    } else if encode_utf8(target).len() > constants::validation::MAX_TARGET_LENGTH {
        Err(ErrorView::Validation("Target is too long"@))
    } else {
        Ok(target)
    }
}

/// At least one port is scanned.
pub open spec fn checked_port_limit(limit: u16) -> core::result::Result<u16, ErrorView> {
    if limit < constants::ports::MIN {
        Err(ErrorView::Validation("Port limit must be at least 1"@))
    } else {
        Ok(limit)
    }
}

/// A text that stands for a port that can be scanned.
pub open spec fn is_port(s: Seq<char>) -> bool {
    match decimal::unsigned_up_to(s, constants::ports::MAX as nat) {
        Some(n) => n >= constants::ports::MIN,
        None => false,
    }
}

/// A port list is made of ports with commas between them.
pub open spec fn checked_port_list(list: Seq<char>) -> core::result::Result<Seq<char>, ErrorView> {
    let entries = text::split_on(list, ',');
    if forall|i: int| 0 <= i < entries.len() ==> is_port(#[trigger] entries[i]) {
        Ok(list)
    } else {
        Err(ErrorView::Validation("Invalid port list"@))
    }
}

pub fn validate_target(target: &str) -> (r: Outcome<String>)
    ensures
        outcome(r) == checked_target(target@),
{
    if target.is_empty() {
        return Err(OxideScannerError::validation("Target cannot be empty"));
    }
    if target.as_bytes().len() > constants::validation::MAX_TARGET_LENGTH {
        return Err(OxideScannerError::validation("Target is too long"));
    }
    Ok(target.to_owned())
}

pub fn validate_port_limit(limit: u16) -> (r: Outcome<u16>)
    ensures
        outcome(r) == checked_port_limit(limit),
{
    if limit < constants::ports::MIN {
        return Err(OxideScannerError::validation("Port limit must be at least 1"));
    }
    Ok(limit)
}

pub fn validate_port_list(list: &str) -> (r: Outcome<String>)
    ensures
        outcome(r) == checked_port_list(list@),
{
    let entries = text::split(list, ',');
    let ghost pieces = text::split_on(list@, ',');
    let mut i: usize = 0;
    while i < entries.len()
        invariant
            i <= entries@.len(),
            entries.deep_view() == pieces,
            pieces == text::split_on(list@, ','),
            forall|j: int| 0 <= j < i ==> is_port(#[trigger] pieces[j]),
        decreases entries@.len() - i,
    {
        let entry = entries[i].as_str();
        assert(entry@ == pieces[i as int]);
        match decimal::read(entry, constants::ports::MAX as u64) {
            Some(n) if n >= constants::ports::MIN as u64 => {},
            _ => {
                return Err(OxideScannerError::validation("Invalid port list"));
            },
        }
        i += 1;
    }
    Ok(list.to_owned())
}

} // verus!
