use vstd::prelude::*;

use vstd::string::StringExecFns;

use crate::wage::{Prefix, Unit};

verus! {

/// The error type for argument handling. Contains only the error message.
#[derive(Debug)]
pub struct Error {
    pub message: String,
}

/// Choose the pay-period prefix from the three period flags, in flag order:
/// the hour flag wins over the day flag, which wins over the month flag.
/// When no flag is set, no prefix can be chosen and an error message is
/// returned instead.
pub fn prefix_from_flags(hour: bool, day: bool, month: bool) -> (r: Result<Prefix, Error>)
    ensures
        hour ==> r == Ok::<Prefix, Error>(Prefix::Hour),
        !hour && day ==> r == Ok::<Prefix, Error>(Prefix::Day),
        !hour && !day && month ==> r == Ok::<Prefix, Error>(Prefix::Month),
        !hour && !day && !month ==> (r matches Err(e) && e.message@
            == "You must specify an prefix!"@),
{
    if hour {
        Ok(Prefix::Hour)
    } else if day {
        Ok(Prefix::Day)
    } else if month {
        Ok(Prefix::Month)
    } else {
        Err(Error { message: String::from_str("You must specify an prefix!") })
    }
}

/// Choose the workday unit from the three workday-length flags, in flag
/// order: the 4-hour flag wins over the 6-hour flag, which wins over the
/// 8-hour flag. When no flag is set, no unit can be chosen and an error
/// message is returned instead.
pub fn unit_from_flags(hour4: bool, hour6: bool, hour8: bool) -> (r: Result<Unit, Error>)
    ensures
        hour4 ==> r == Ok::<Unit, Error>(Unit::Hour4),
        !hour4 && hour6 ==> r == Ok::<Unit, Error>(Unit::Hour6),
        !hour4 && !hour6 && hour8 ==> r == Ok::<Unit, Error>(Unit::Hour8),
        !hour4 && !hour6 && !hour8 ==> (r matches Err(e) && e.message@
            == "You must specify an unit!"@),
{
    if hour4 {
        Ok(Unit::Hour4)
    } else if hour6 {
        Ok(Unit::Hour6)
    } else if hour8 {
        Ok(Unit::Hour8)
    } else {
        Err(Error { message: String::from_str("You must specify an unit!") })
    }
}

} // verus!
