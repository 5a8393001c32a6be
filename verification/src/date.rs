//! A calendar date, carried only to be rendered into a query parameter.
use vstd::prelude::*;

use vstd::string::StringExecFns;
use crate::text::spec_decimal;
use crate::text::spec_zero_pad;
use crate::text::zero_padded_decimal;

verus! {

/// A calendar date. The library does not interpret it; it only renders it as
/// `YYYY-MM-DD` for the schedule query.
#[derive(Debug, Copy, Clone, PartialEq, Eq, Structural)]
pub struct Date {
    /// Year, rendered as at least four digits.
    pub year: u16,
    /// Month, rendered as at least two digits.
    pub month: u8,
    /// Day, rendered as at least two digits.
    pub day: u8,
}

/// The `YYYY-MM-DD` text of a date.
pub open spec fn spec_date_text(d: Date) -> Seq<char> {
    spec_zero_pad(spec_decimal(d.year as nat), 4) + "-"@ + spec_zero_pad(
        spec_decimal(d.month as nat),
        2,
    ) + "-"@ + spec_zero_pad(spec_decimal(d.day as nat), 2)
}

impl Date {
    /// A date from its year, month and day.
    pub fn new(year: u16, month: u8, day: u8) -> (r: Date)
        ensures
            r == (Date { year, month, day }),
    {
        Date { year, month, day }
    }

    /// Renders the date as `YYYY-MM-DD`.
    pub fn to_string(&self) -> (r: String)
        ensures
            r@ == spec_date_text(*self),
    {
        let mut out = zero_padded_decimal(self.year as u64, 4);
        out.append("-");
        let month = zero_padded_decimal(self.month as u64, 2);
        out.append(month.as_str());
        out.append("-");
        let day = zero_padded_decimal(self.day as u64, 2);
        out.append(day.as_str());
        out
    }
}

} // verus!
