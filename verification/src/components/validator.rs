//! The rules that single values have to meet.

use vstd::prelude::*;
use crate::model::bed::Bed;
use crate::pattern::{is_match, matches_pattern};
use crate::text::result_text;

verus! {

pub const MIN_FLOOR: i16 = 1;

pub const MAX_FLOOR: i16 = 100;

/// The lowest price, in the currency's minor unit.
pub const MIN_PRICE: i64 = 1;

/// The highest price, in the currency's minor unit.
pub const MAX_PRICE: i64 = 100_000_00;

pub const MIN_BED_COUNT: i16 = 1;

pub const MAX_BED_COUNT: i16 = 9;

/// The expression that an e-mail address matches.
pub const EMAIL_PATTERN: &'static str = "^[a-zA-Z0-9._%+-]+@[a-zA-Z0-9.-]+\\.[a-zA-Z]{2,}$";

/// The expression that a password matches.
pub const PASSWORD_PATTERN: &'static str = "^[a-zA-Z0-9!@#$%^&*(){}]{8,20}$";

/// `Ok` where `holds`, else the given complaint.
pub open spec fn verdict(holds: bool, complaint: Seq<char>) -> Result<(), Seq<char>> {
    if holds {
        Ok(())
    } else {
        Err(complaint)
    }
}

/// Checks of addresses, passwords and the numbers of a room. It holds no
/// state of its own.
#[derive(Debug)]
pub struct Validator {}

impl Validator {
    pub open spec fn email_verdict(email: Seq<char>) -> Result<(), Seq<char>> {
        verdict(matches_pattern(EMAIL_PATTERN@, email), "Invalid email"@)
    }

    pub open spec fn password_verdict(password: Seq<char>) -> Result<(), Seq<char>> {
        verdict(matches_pattern(PASSWORD_PATTERN@, password), "Invalid password"@)
    }

    pub open spec fn price_verdict(price: i64) -> Result<(), Seq<char>> {
        verdict(MIN_PRICE <= price <= MAX_PRICE, "Invalid price"@)
    }

    pub open spec fn floor_verdict(floor: i16) -> Result<(), Seq<char>> {
        verdict(MIN_FLOOR <= floor <= MAX_FLOOR, "Invalid floor"@)
    }

    pub open spec fn bed_verdict(bed: Bed) -> Result<(), Seq<char>> {
        verdict(MIN_BED_COUNT <= bed.count <= MAX_BED_COUNT, "Invalid bed count"@)
    }

    pub fn validate_email(&self, email: &str) -> (r: Result<(), String>)
        ensures
            result_text(r) == Self::email_verdict(email@),
    {
        if is_match(EMAIL_PATTERN, email) {
            Ok(())
        } else {
            Err("Invalid email".to_owned())
        }
    }

    pub fn validate_password(&self, password: &str) -> (r: Result<(), String>)
        ensures
            result_text(r) == Self::password_verdict(password@),
    {
        if is_match(PASSWORD_PATTERN, password) {
            Ok(())
        } else {
            Err("Invalid password".to_owned())
        }
    }

    pub fn validate_price(price: i64) -> (r: Result<(), String>)
        ensures
            result_text(r) == Self::price_verdict(price),
    {
        if MIN_PRICE <= price && price <= MAX_PRICE {
            Ok(())
        } else {
            Err("Invalid price".to_owned())
        }
    }

    pub fn validate_floor(floor: i16) -> (r: Result<(), String>)
        ensures
            result_text(r) == Self::floor_verdict(floor),
    {
        if MIN_FLOOR <= floor && floor <= MAX_FLOOR {
            Ok(())
        } else {
            Err("Invalid floor".to_owned())
        }
    }

    pub fn validate_bed(bed: &Bed) -> (r: Result<(), String>)
        ensures
            result_text(r) == Self::bed_verdict(*bed),
    {
        if MIN_BED_COUNT <= bed.count && bed.count <= MAX_BED_COUNT {
            Ok(())
        } else {
            Err("Invalid bed count".to_owned())
        }
    }
}

impl Default for Validator {
    fn default() -> Self {
        Validator {  }
    }
}

} // verus!
