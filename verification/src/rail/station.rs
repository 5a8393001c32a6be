//! The closed set of rail station codes, with its bidirectional string
//! mapping and the operations a station gains from the fetch capability.
use vstd::prelude::*;

use crate::dispatch::FromJson;
use crate::error::Error;
use crate::json::Json;
use crate::rail::responses;
use crate::rail::traits::NeedsStation;
use crate::text::str_eq;

verus! {

/// Every rail station code, as the upstream service defines them.
#[derive(Debug, Copy, Clone, PartialEq, Eq, Structural)]
pub enum Station {
    A01,
    A02,
    A03,
    A04,
    A05,
    A06,
    A07,
    A08,
    A09,
    A10,
    A11,
    A12,
    A13,
    A14,
    A15,
    B01,
    B02,
    B03,
    B04,
    B05,
    B06,
    B07,
    B08,
    B09,
    B10,
    B11,
    B35,
    C01,
    C02,
    C03,
    C04,
    C05,
    C06,
    C07,
    C08,
    C09,
    C10,
    C12,
    C13,
    C14,
    C15,
    D01,
    D02,
    D03,
    D04,
    D05,
    D06,
    D07,
    D08,
    D09,
    D10,
    D11,
    D12,
    D13,
    E01,
    E02,
    E03,
    E04,
    E05,
    E06,
    E07,
    E08,
    E09,
    E10,
    F01,
    F02,
    F03,
    F04,
    F05,
    F06,
    F07,
    F08,
    F09,
    F10,
    F11,
    G01,
    G02,
    G03,
    G04,
    G05,
    J02,
    J03,
    K01,
    K02,
    K03,
    K04,
    K05,
    K06,
    K07,
    K08,
    N01,
    N02,
    N03,
    N04,
    N06,
}

/// The canonical three-character code of a station.
pub open spec fn spec_station_code(s: Station) -> Seq<char> {
    match s {
        Station::A01 => "A01"@,
        Station::A02 => "A02"@,
        Station::A03 => "A03"@,
        Station::A04 => "A04"@,
        Station::A05 => "A05"@,
        Station::A06 => "A06"@,
        Station::A07 => "A07"@,
        Station::A08 => "A08"@,
        Station::A09 => "A09"@,
        Station::A10 => "A10"@,
        Station::A11 => "A11"@,
        Station::A12 => "A12"@,
        Station::A13 => "A13"@,
        Station::A14 => "A14"@,
        Station::A15 => "A15"@,
        Station::B01 => "B01"@,
        Station::B02 => "B02"@,
        Station::B03 => "B03"@,
        Station::B04 => "B04"@,
        Station::B05 => "B05"@,
        Station::B06 => "B06"@,
        Station::B07 => "B07"@,
        Station::B08 => "B08"@,
        Station::B09 => "B09"@,
        Station::B10 => "B10"@,
        Station::B11 => "B11"@,
        Station::B35 => "B35"@,
        Station::C01 => "C01"@,
        Station::C02 => "C02"@,
        Station::C03 => "C03"@,
        Station::C04 => "C04"@,
        Station::C05 => "C05"@,
        Station::C06 => "C06"@,
        Station::C07 => "C07"@,
        Station::C08 => "C08"@,
        Station::C09 => "C09"@,
        Station::C10 => "C10"@,
        Station::C12 => "C12"@,
        Station::C13 => "C13"@,
        Station::C14 => "C14"@,
        Station::C15 => "C15"@,
        Station::D01 => "D01"@,
        Station::D02 => "D02"@,
        Station::D03 => "D03"@,
        Station::D04 => "D04"@,
        Station::D05 => "D05"@,
        Station::D06 => "D06"@,
        Station::D07 => "D07"@,
        Station::D08 => "D08"@,
        Station::D09 => "D09"@,
        Station::D10 => "D10"@,
        Station::D11 => "D11"@,
        Station::D12 => "D12"@,
        Station::D13 => "D13"@,
        Station::E01 => "E01"@,
        Station::E02 => "E02"@,
        Station::E03 => "E03"@,
        Station::E04 => "E04"@,
        Station::E05 => "E05"@,
        Station::E06 => "E06"@,
        Station::E07 => "E07"@,
        Station::E08 => "E08"@,
        Station::E09 => "E09"@,
        Station::E10 => "E10"@,
        Station::F01 => "F01"@,
        Station::F02 => "F02"@,
        Station::F03 => "F03"@,
        Station::F04 => "F04"@,
        Station::F05 => "F05"@,
        Station::F06 => "F06"@,
        Station::F07 => "F07"@,
        Station::F08 => "F08"@,
        Station::F09 => "F09"@,
        Station::F10 => "F10"@,
        Station::F11 => "F11"@,
        Station::G01 => "G01"@,
        Station::G02 => "G02"@,
        Station::G03 => "G03"@,
        Station::G04 => "G04"@,
        Station::G05 => "G05"@,
        Station::J02 => "J02"@,
        Station::J03 => "J03"@,
        Station::K01 => "K01"@,
        Station::K02 => "K02"@,
        Station::K03 => "K03"@,
        Station::K04 => "K04"@,
        Station::K05 => "K05"@,
        Station::K06 => "K06"@,
        Station::K07 => "K07"@,
        Station::K08 => "K08"@,
        Station::N01 => "N01"@,
        Station::N02 => "N02"@,
        Station::N03 => "N03"@,
        Station::N04 => "N04"@,
        Station::N06 => "N06"@,
    }
}

/// The station a text names: the unique station whose canonical code equals
/// the text, if any.
pub open spec fn spec_parse_station(s: Seq<char>) -> Option<Station> {
    if s == "A01"@ {
        Some(Station::A01)
    } else if s == "A02"@ {
        Some(Station::A02)
    } else if s == "A03"@ {
        Some(Station::A03)
    } else if s == "A04"@ {
        Some(Station::A04)
    } else if s == "A05"@ {
        Some(Station::A05)
    } else if s == "A06"@ {
        Some(Station::A06)
    } else if s == "A07"@ {
        Some(Station::A07)
    } else if s == "A08"@ {
        Some(Station::A08)
    } else if s == "A09"@ {
        Some(Station::A09)
    } else if s == "A10"@ {
        Some(Station::A10)
    } else if s == "A11"@ {
        Some(Station::A11)
    } else if s == "A12"@ {
        Some(Station::A12)
    } else if s == "A13"@ {
        Some(Station::A13)
    } else if s == "A14"@ {
        Some(Station::A14)
    } else if s == "A15"@ {
        Some(Station::A15)
    } else if s == "B01"@ {
        Some(Station::B01)
    } else if s == "B02"@ {
        Some(Station::B02)
    } else if s == "B03"@ {
        Some(Station::B03)
    } else if s == "B04"@ {
        Some(Station::B04)
    } else if s == "B05"@ {
        Some(Station::B05)
    } else if s == "B06"@ {
        Some(Station::B06)
    } else if s == "B07"@ {
        Some(Station::B07)
    } else if s == "B08"@ {
        Some(Station::B08)
    } else if s == "B09"@ {
        Some(Station::B09)
    } else if s == "B10"@ {
        Some(Station::B10)
    } else if s == "B11"@ {
        Some(Station::B11)
    } else if s == "B35"@ {
        Some(Station::B35)
    } else if s == "C01"@ {
        Some(Station::C01)
    } else if s == "C02"@ {
        Some(Station::C02)
    } else if s == "C03"@ {
        Some(Station::C03)
    } else if s == "C04"@ {
        Some(Station::C04)
    } else if s == "C05"@ {
        Some(Station::C05)
    } else if s == "C06"@ {
        Some(Station::C06)
    } else if s == "C07"@ {
        Some(Station::C07)
    } else if s == "C08"@ {
        Some(Station::C08)
    } else if s == "C09"@ {
        Some(Station::C09)
    } else if s == "C10"@ {
        Some(Station::C10)
    } else if s == "C12"@ {
        Some(Station::C12)
    } else if s == "C13"@ {
        Some(Station::C13)
    } else if s == "C14"@ {
        Some(Station::C14)
    } else if s == "C15"@ {
        Some(Station::C15)
    } else if s == "D01"@ {
        Some(Station::D01)
    } else if s == "D02"@ {
        Some(Station::D02)
    } else if s == "D03"@ {
        Some(Station::D03)
    } else if s == "D04"@ {
        Some(Station::D04)
    } else if s == "D05"@ {
        Some(Station::D05)
    } else if s == "D06"@ {
        Some(Station::D06)
    } else if s == "D07"@ {
        Some(Station::D07)
    } else if s == "D08"@ {
        Some(Station::D08)
    } else if s == "D09"@ {
        Some(Station::D09)
    } else if s == "D10"@ {
        Some(Station::D10)
    } else if s == "D11"@ {
        Some(Station::D11)
    } else if s == "D12"@ {
        Some(Station::D12)
    } else if s == "D13"@ {
        Some(Station::D13)
    } else if s == "E01"@ {
        Some(Station::E01)
    } else if s == "E02"@ {
        Some(Station::E02)
    } else if s == "E03"@ {
        Some(Station::E03)
    } else if s == "E04"@ {
        Some(Station::E04)
    } else if s == "E05"@ {
        Some(Station::E05)
    } else if s == "E06"@ {
        Some(Station::E06)
    } else if s == "E07"@ {
        Some(Station::E07)
    } else if s == "E08"@ {
        Some(Station::E08)
    } else if s == "E09"@ {
        Some(Station::E09)
    } else if s == "E10"@ {
        Some(Station::E10)
    } else if s == "F01"@ {
        Some(Station::F01)
    } else if s == "F02"@ {
        Some(Station::F02)
    } else if s == "F03"@ {
        Some(Station::F03)
    } else if s == "F04"@ {
        Some(Station::F04)
    } else if s == "F05"@ {
        Some(Station::F05)
    } else if s == "F06"@ {
        Some(Station::F06)
    } else if s == "F07"@ {
        Some(Station::F07)
    } else if s == "F08"@ {
        Some(Station::F08)
    } else if s == "F09"@ {
        Some(Station::F09)
    } else if s == "F10"@ {
        Some(Station::F10)
    } else if s == "F11"@ {
        Some(Station::F11)
    } else if s == "G01"@ {
        Some(Station::G01)
    } else if s == "G02"@ {
        Some(Station::G02)
    } else if s == "G03"@ {
        Some(Station::G03)
    } else if s == "G04"@ {
        Some(Station::G04)
    } else if s == "G05"@ {
        Some(Station::G05)
    } else if s == "J02"@ {
        Some(Station::J02)
    } else if s == "J03"@ {
        Some(Station::J03)
    } else if s == "K01"@ {
        Some(Station::K01)
    } else if s == "K02"@ {
        Some(Station::K02)
    } else if s == "K03"@ {
        Some(Station::K03)
    } else if s == "K04"@ {
        Some(Station::K04)
    } else if s == "K05"@ {
        Some(Station::K05)
    } else if s == "K06"@ {
        Some(Station::K06)
    } else if s == "K07"@ {
        Some(Station::K07)
    } else if s == "K08"@ {
        Some(Station::K08)
    } else if s == "N01"@ {
        Some(Station::N01)
    } else if s == "N02"@ {
        Some(Station::N02)
    } else if s == "N03"@ {
        Some(Station::N03)
    } else if s == "N04"@ {
        Some(Station::N04)
    } else if s == "N06"@ {
        Some(Station::N06)
    } else {
        None
    }
}

/// An error indicating that the provided string is not a station code.
#[derive(Debug, Copy, Clone, PartialEq, Eq, Structural)]
pub struct StringIsNotStationError;

impl StringIsNotStationError {
    /// A human-readable description of the error.
    pub fn message(&self) -> (r: String)
        ensures
            r@ == "Provided string is not a valid station code."@,
    {
        "Provided string is not a valid station code.".to_owned()
    }
}

impl Station {
    /// The canonical code of this station, e.g. `"A01"`.
    pub fn to_string(&self) -> (r: String)
        ensures
            r@ == spec_station_code(*self),
    {
        match self {
            Station::A01 => "A01".to_owned(),
            Station::A02 => "A02".to_owned(),
            Station::A03 => "A03".to_owned(),
            Station::A04 => "A04".to_owned(),
            Station::A05 => "A05".to_owned(),
            Station::A06 => "A06".to_owned(),
            Station::A07 => "A07".to_owned(),
            Station::A08 => "A08".to_owned(),
            Station::A09 => "A09".to_owned(),
            Station::A10 => "A10".to_owned(),
            Station::A11 => "A11".to_owned(),
            Station::A12 => "A12".to_owned(),
            Station::A13 => "A13".to_owned(),
            Station::A14 => "A14".to_owned(),
            Station::A15 => "A15".to_owned(),
            Station::B01 => "B01".to_owned(),
            Station::B02 => "B02".to_owned(),
            Station::B03 => "B03".to_owned(),
            Station::B04 => "B04".to_owned(),
            Station::B05 => "B05".to_owned(),
            Station::B06 => "B06".to_owned(),
            Station::B07 => "B07".to_owned(),
            Station::B08 => "B08".to_owned(),
            Station::B09 => "B09".to_owned(),
            Station::B10 => "B10".to_owned(),
            Station::B11 => "B11".to_owned(),
            Station::B35 => "B35".to_owned(),
            Station::C01 => "C01".to_owned(),
            Station::C02 => "C02".to_owned(),
            Station::C03 => "C03".to_owned(),
            Station::C04 => "C04".to_owned(),
            Station::C05 => "C05".to_owned(),
            Station::C06 => "C06".to_owned(),
            Station::C07 => "C07".to_owned(),
            Station::C08 => "C08".to_owned(),
            Station::C09 => "C09".to_owned(),
            Station::C10 => "C10".to_owned(),
            Station::C12 => "C12".to_owned(),
            Station::C13 => "C13".to_owned(),
            Station::C14 => "C14".to_owned(),
            Station::C15 => "C15".to_owned(),
            Station::D01 => "D01".to_owned(),
            Station::D02 => "D02".to_owned(),
            Station::D03 => "D03".to_owned(),
            Station::D04 => "D04".to_owned(),
            Station::D05 => "D05".to_owned(),
            Station::D06 => "D06".to_owned(),
            Station::D07 => "D07".to_owned(),
            Station::D08 => "D08".to_owned(),
            Station::D09 => "D09".to_owned(),
            Station::D10 => "D10".to_owned(),
            Station::D11 => "D11".to_owned(),
            Station::D12 => "D12".to_owned(),
            Station::D13 => "D13".to_owned(),
            Station::E01 => "E01".to_owned(),
            Station::E02 => "E02".to_owned(),
            Station::E03 => "E03".to_owned(),
            Station::E04 => "E04".to_owned(),
            Station::E05 => "E05".to_owned(),
            Station::E06 => "E06".to_owned(),
            Station::E07 => "E07".to_owned(),
            Station::E08 => "E08".to_owned(),
            Station::E09 => "E09".to_owned(),
            Station::E10 => "E10".to_owned(),
            Station::F01 => "F01".to_owned(),
            Station::F02 => "F02".to_owned(),
            Station::F03 => "F03".to_owned(),
            Station::F04 => "F04".to_owned(),
            Station::F05 => "F05".to_owned(),
            Station::F06 => "F06".to_owned(),
            Station::F07 => "F07".to_owned(),
            Station::F08 => "F08".to_owned(),
            Station::F09 => "F09".to_owned(),
            Station::F10 => "F10".to_owned(),
            Station::F11 => "F11".to_owned(),
            Station::G01 => "G01".to_owned(),
            Station::G02 => "G02".to_owned(),
            Station::G03 => "G03".to_owned(),
            Station::G04 => "G04".to_owned(),
            Station::G05 => "G05".to_owned(),
            Station::J02 => "J02".to_owned(),
            Station::J03 => "J03".to_owned(),
            Station::K01 => "K01".to_owned(),
            Station::K02 => "K02".to_owned(),
            Station::K03 => "K03".to_owned(),
            Station::K04 => "K04".to_owned(),
            Station::K05 => "K05".to_owned(),
            Station::K06 => "K06".to_owned(),
            Station::K07 => "K07".to_owned(),
            Station::K08 => "K08".to_owned(),
            Station::N01 => "N01".to_owned(),
            Station::N02 => "N02".to_owned(),
            Station::N03 => "N03".to_owned(),
            Station::N04 => "N04".to_owned(),
            Station::N06 => "N06".to_owned(),
        }
    }

    /// Parses a station code; fails exactly on strings outside the closed
    /// set, the empty string included.
    #[verifier::rlimit(60)]
    pub fn from_str(s: &str) -> (r: Result<Station, StringIsNotStationError>)
        ensures
            r matches Ok(st) ==> spec_parse_station(s@) == Some(st),
            r is Err <==> spec_parse_station(s@) is None,
    {
        if str_eq(s, "A01") {
            Ok(Station::A01)
        } else if str_eq(s, "A02") {
            Ok(Station::A02)
        } else if str_eq(s, "A03") {
            Ok(Station::A03)
        } else if str_eq(s, "A04") {
            Ok(Station::A04)
        } else if str_eq(s, "A05") {
            Ok(Station::A05)
        } else if str_eq(s, "A06") {
            Ok(Station::A06)
        } else if str_eq(s, "A07") {
            Ok(Station::A07)
        } else if str_eq(s, "A08") {
            Ok(Station::A08)
        } else if str_eq(s, "A09") {
            Ok(Station::A09)
        } else if str_eq(s, "A10") {
            Ok(Station::A10)
        } else if str_eq(s, "A11") {
            Ok(Station::A11)
        } else if str_eq(s, "A12") {
            Ok(Station::A12)
        } else if str_eq(s, "A13") {
            Ok(Station::A13)
        } else if str_eq(s, "A14") {
            Ok(Station::A14)
        } else if str_eq(s, "A15") {
            Ok(Station::A15)
        } else if str_eq(s, "B01") {
            Ok(Station::B01)
        } else if str_eq(s, "B02") {
            Ok(Station::B02)
        } else if str_eq(s, "B03") {
            Ok(Station::B03)
        } else if str_eq(s, "B04") {
            Ok(Station::B04)
        } else if str_eq(s, "B05") {
            Ok(Station::B05)
        } else if str_eq(s, "B06") {
            Ok(Station::B06)
        } else if str_eq(s, "B07") {
            Ok(Station::B07)
        } else if str_eq(s, "B08") {
            Ok(Station::B08)
        } else if str_eq(s, "B09") {
            Ok(Station::B09)
        } else if str_eq(s, "B10") {
            Ok(Station::B10)
        } else if str_eq(s, "B11") {
            Ok(Station::B11)
        } else if str_eq(s, "B35") {
            Ok(Station::B35)
        } else if str_eq(s, "C01") {
            Ok(Station::C01)
        } else if str_eq(s, "C02") {
            Ok(Station::C02)
        } else if str_eq(s, "C03") {
            Ok(Station::C03)
        } else if str_eq(s, "C04") {
            Ok(Station::C04)
        } else if str_eq(s, "C05") {
            Ok(Station::C05)
        } else if str_eq(s, "C06") {
            Ok(Station::C06)
        } else if str_eq(s, "C07") {
            Ok(Station::C07)
        } else if str_eq(s, "C08") {
            Ok(Station::C08)
        } else if str_eq(s, "C09") {
            Ok(Station::C09)
        } else if str_eq(s, "C10") {
            Ok(Station::C10)
        } else if str_eq(s, "C12") {
            Ok(Station::C12)
        } else if str_eq(s, "C13") {
            Ok(Station::C13)
        } else if str_eq(s, "C14") {
            Ok(Station::C14)
        } else if str_eq(s, "C15") {
            Ok(Station::C15)
        } else if str_eq(s, "D01") {
            Ok(Station::D01)
        } else if str_eq(s, "D02") {
            Ok(Station::D02)
        } else if str_eq(s, "D03") {
            Ok(Station::D03)
        } else if str_eq(s, "D04") {
            Ok(Station::D04)
        } else if str_eq(s, "D05") {
            Ok(Station::D05)
        } else if str_eq(s, "D06") {
            Ok(Station::D06)
        } else if str_eq(s, "D07") {
            Ok(Station::D07)
        } else if str_eq(s, "D08") {
            Ok(Station::D08)
        } else if str_eq(s, "D09") {
            Ok(Station::D09)
        } else if str_eq(s, "D10") {
            Ok(Station::D10)
        } else if str_eq(s, "D11") {
            Ok(Station::D11)
        } else if str_eq(s, "D12") {
            Ok(Station::D12)
        } else if str_eq(s, "D13") {
            Ok(Station::D13)
        } else if str_eq(s, "E01") {
            Ok(Station::E01)
        } else if str_eq(s, "E02") {
            Ok(Station::E02)
        } else if str_eq(s, "E03") {
            Ok(Station::E03)
        } else if str_eq(s, "E04") {
            Ok(Station::E04)
        } else if str_eq(s, "E05") {
            Ok(Station::E05)
        } else if str_eq(s, "E06") {
            Ok(Station::E06)
        } else if str_eq(s, "E07") {
            Ok(Station::E07)
        } else if str_eq(s, "E08") {
            Ok(Station::E08)
        } else if str_eq(s, "E09") {
            Ok(Station::E09)
        } else if str_eq(s, "E10") {
            Ok(Station::E10)
        } else if str_eq(s, "F01") {
            Ok(Station::F01)
        } else if str_eq(s, "F02") {
            Ok(Station::F02)
        } else if str_eq(s, "F03") {
            Ok(Station::F03)
        } else if str_eq(s, "F04") {
            Ok(Station::F04)
        } else if str_eq(s, "F05") {
            Ok(Station::F05)
        } else if str_eq(s, "F06") {
            Ok(Station::F06)
        } else if str_eq(s, "F07") {
            Ok(Station::F07)
        } else if str_eq(s, "F08") {
            Ok(Station::F08)
        } else if str_eq(s, "F09") {
            Ok(Station::F09)
        } else if str_eq(s, "F10") {
            Ok(Station::F10)
        } else if str_eq(s, "F11") {
            Ok(Station::F11)
        } else if str_eq(s, "G01") {
            Ok(Station::G01)
        } else if str_eq(s, "G02") {
            Ok(Station::G02)
        } else if str_eq(s, "G03") {
            Ok(Station::G03)
        } else if str_eq(s, "G04") {
            Ok(Station::G04)
        } else if str_eq(s, "G05") {
            Ok(Station::G05)
        } else if str_eq(s, "J02") {
            Ok(Station::J02)
        } else if str_eq(s, "J03") {
            Ok(Station::J03)
        } else if str_eq(s, "K01") {
            Ok(Station::K01)
        } else if str_eq(s, "K02") {
            Ok(Station::K02)
        } else if str_eq(s, "K03") {
            Ok(Station::K03)
        } else if str_eq(s, "K04") {
            Ok(Station::K04)
        } else if str_eq(s, "K05") {
            Ok(Station::K05)
        } else if str_eq(s, "K06") {
            Ok(Station::K06)
        } else if str_eq(s, "K07") {
            Ok(Station::K07)
        } else if str_eq(s, "K08") {
            Ok(Station::K08)
        } else if str_eq(s, "N01") {
            Ok(Station::N01)
        } else if str_eq(s, "N02") {
            Ok(Station::N02)
        } else if str_eq(s, "N03") {
            Ok(Station::N03)
        } else if str_eq(s, "N04") {
            Ok(Station::N04)
        } else if str_eq(s, "N06") {
            Ok(Station::N06)
        } else {
            Err(StringIsNotStationError)
        }
    }
}

/// Round-trip law: parsing the canonical code of any station yields that
/// station.
#[verifier::rlimit(100)]
#[verifier::spinoff_prover]
pub proof fn lemma_station_round_trip(s: Station)
    ensures
        spec_parse_station(spec_station_code(s)) == Some(s),
{
    reveal_strlit("A01");
    reveal_strlit("A02");
    reveal_strlit("A03");
    reveal_strlit("A04");
    reveal_strlit("A05");
    reveal_strlit("A06");
    reveal_strlit("A07");
    reveal_strlit("A08");
    reveal_strlit("A09");
    reveal_strlit("A10");
    reveal_strlit("A11");
    reveal_strlit("A12");
    reveal_strlit("A13");
    reveal_strlit("A14");
    reveal_strlit("A15");
    reveal_strlit("B01");
    reveal_strlit("B02");
    reveal_strlit("B03");
    reveal_strlit("B04");
    reveal_strlit("B05");
    reveal_strlit("B06");
    reveal_strlit("B07");
    reveal_strlit("B08");
    reveal_strlit("B09");
    reveal_strlit("B10");
    reveal_strlit("B11");
    reveal_strlit("B35");
    reveal_strlit("C01");
    reveal_strlit("C02");
    reveal_strlit("C03");
    reveal_strlit("C04");
    reveal_strlit("C05");
    reveal_strlit("C06");
    reveal_strlit("C07");
    reveal_strlit("C08");
    reveal_strlit("C09");
    reveal_strlit("C10");
    reveal_strlit("C12");
    reveal_strlit("C13");
    reveal_strlit("C14");
    reveal_strlit("C15");
    reveal_strlit("D01");
    reveal_strlit("D02");
    reveal_strlit("D03");
    reveal_strlit("D04");
    reveal_strlit("D05");
    reveal_strlit("D06");
    reveal_strlit("D07");
    reveal_strlit("D08");
    reveal_strlit("D09");
    reveal_strlit("D10");
    reveal_strlit("D11");
    reveal_strlit("D12");
    reveal_strlit("D13");
    reveal_strlit("E01");
    reveal_strlit("E02");
    reveal_strlit("E03");
    reveal_strlit("E04");
    reveal_strlit("E05");
    reveal_strlit("E06");
    reveal_strlit("E07");
    reveal_strlit("E08");
    reveal_strlit("E09");
    reveal_strlit("E10");
    reveal_strlit("F01");
    reveal_strlit("F02");
    reveal_strlit("F03");
    reveal_strlit("F04");
    reveal_strlit("F05");
    reveal_strlit("F06");
    reveal_strlit("F07");
    reveal_strlit("F08");
    reveal_strlit("F09");
    reveal_strlit("F10");
    reveal_strlit("F11");
    reveal_strlit("G01");
    reveal_strlit("G02");
    reveal_strlit("G03");
    reveal_strlit("G04");
    reveal_strlit("G05");
    reveal_strlit("J02");
    reveal_strlit("J03");
    reveal_strlit("K01");
    reveal_strlit("K02");
    reveal_strlit("K03");
    reveal_strlit("K04");
    reveal_strlit("K05");
    reveal_strlit("K06");
    reveal_strlit("K07");
    reveal_strlit("K08");
    reveal_strlit("N01");
    reveal_strlit("N02");
    reveal_strlit("N03");
    reveal_strlit("N04");
    reveal_strlit("N06");
    assert("A01"@[0] == 'A' && "A01"@[1] == '0' && "A01"@[2] == '1');
    assert("A02"@[0] == 'A' && "A02"@[1] == '0' && "A02"@[2] == '2');
    assert("A03"@[0] == 'A' && "A03"@[1] == '0' && "A03"@[2] == '3');
    assert("A04"@[0] == 'A' && "A04"@[1] == '0' && "A04"@[2] == '4');
    assert("A05"@[0] == 'A' && "A05"@[1] == '0' && "A05"@[2] == '5');
    assert("A06"@[0] == 'A' && "A06"@[1] == '0' && "A06"@[2] == '6');
    assert("A07"@[0] == 'A' && "A07"@[1] == '0' && "A07"@[2] == '7');
    assert("A08"@[0] == 'A' && "A08"@[1] == '0' && "A08"@[2] == '8');
    assert("A09"@[0] == 'A' && "A09"@[1] == '0' && "A09"@[2] == '9');
    assert("A10"@[0] == 'A' && "A10"@[1] == '1' && "A10"@[2] == '0');
    assert("A11"@[0] == 'A' && "A11"@[1] == '1' && "A11"@[2] == '1');
    assert("A12"@[0] == 'A' && "A12"@[1] == '1' && "A12"@[2] == '2');
    assert("A13"@[0] == 'A' && "A13"@[1] == '1' && "A13"@[2] == '3');
    assert("A14"@[0] == 'A' && "A14"@[1] == '1' && "A14"@[2] == '4');
    assert("A15"@[0] == 'A' && "A15"@[1] == '1' && "A15"@[2] == '5');
    assert("B01"@[0] == 'B' && "B01"@[1] == '0' && "B01"@[2] == '1');
    assert("B02"@[0] == 'B' && "B02"@[1] == '0' && "B02"@[2] == '2');
    assert("B03"@[0] == 'B' && "B03"@[1] == '0' && "B03"@[2] == '3');
    assert("B04"@[0] == 'B' && "B04"@[1] == '0' && "B04"@[2] == '4');
    assert("B05"@[0] == 'B' && "B05"@[1] == '0' && "B05"@[2] == '5');
    assert("B06"@[0] == 'B' && "B06"@[1] == '0' && "B06"@[2] == '6');
    assert("B07"@[0] == 'B' && "B07"@[1] == '0' && "B07"@[2] == '7');
    assert("B08"@[0] == 'B' && "B08"@[1] == '0' && "B08"@[2] == '8');
    assert("B09"@[0] == 'B' && "B09"@[1] == '0' && "B09"@[2] == '9');
    assert("B10"@[0] == 'B' && "B10"@[1] == '1' && "B10"@[2] == '0');
    assert("B11"@[0] == 'B' && "B11"@[1] == '1' && "B11"@[2] == '1');
    assert("B35"@[0] == 'B' && "B35"@[1] == '3' && "B35"@[2] == '5');
    assert("C01"@[0] == 'C' && "C01"@[1] == '0' && "C01"@[2] == '1');
    assert("C02"@[0] == 'C' && "C02"@[1] == '0' && "C02"@[2] == '2');
    assert("C03"@[0] == 'C' && "C03"@[1] == '0' && "C03"@[2] == '3');
    assert("C04"@[0] == 'C' && "C04"@[1] == '0' && "C04"@[2] == '4');
    assert("C05"@[0] == 'C' && "C05"@[1] == '0' && "C05"@[2] == '5');
    assert("C06"@[0] == 'C' && "C06"@[1] == '0' && "C06"@[2] == '6');
    assert("C07"@[0] == 'C' && "C07"@[1] == '0' && "C07"@[2] == '7');
    assert("C08"@[0] == 'C' && "C08"@[1] == '0' && "C08"@[2] == '8');
    assert("C09"@[0] == 'C' && "C09"@[1] == '0' && "C09"@[2] == '9');
    assert("C10"@[0] == 'C' && "C10"@[1] == '1' && "C10"@[2] == '0');
    assert("C12"@[0] == 'C' && "C12"@[1] == '1' && "C12"@[2] == '2');
    assert("C13"@[0] == 'C' && "C13"@[1] == '1' && "C13"@[2] == '3');
    assert("C14"@[0] == 'C' && "C14"@[1] == '1' && "C14"@[2] == '4');
    assert("C15"@[0] == 'C' && "C15"@[1] == '1' && "C15"@[2] == '5');
    assert("D01"@[0] == 'D' && "D01"@[1] == '0' && "D01"@[2] == '1');
    assert("D02"@[0] == 'D' && "D02"@[1] == '0' && "D02"@[2] == '2');
    assert("D03"@[0] == 'D' && "D03"@[1] == '0' && "D03"@[2] == '3');
    assert("D04"@[0] == 'D' && "D04"@[1] == '0' && "D04"@[2] == '4');
    assert("D05"@[0] == 'D' && "D05"@[1] == '0' && "D05"@[2] == '5');
    assert("D06"@[0] == 'D' && "D06"@[1] == '0' && "D06"@[2] == '6');
    assert("D07"@[0] == 'D' && "D07"@[1] == '0' && "D07"@[2] == '7');
    assert("D08"@[0] == 'D' && "D08"@[1] == '0' && "D08"@[2] == '8');
    assert("D09"@[0] == 'D' && "D09"@[1] == '0' && "D09"@[2] == '9');
    assert("D10"@[0] == 'D' && "D10"@[1] == '1' && "D10"@[2] == '0');
    assert("D11"@[0] == 'D' && "D11"@[1] == '1' && "D11"@[2] == '1');
    assert("D12"@[0] == 'D' && "D12"@[1] == '1' && "D12"@[2] == '2');
    assert("D13"@[0] == 'D' && "D13"@[1] == '1' && "D13"@[2] == '3');
    assert("E01"@[0] == 'E' && "E01"@[1] == '0' && "E01"@[2] == '1');
    assert("E02"@[0] == 'E' && "E02"@[1] == '0' && "E02"@[2] == '2');
    assert("E03"@[0] == 'E' && "E03"@[1] == '0' && "E03"@[2] == '3');
    assert("E04"@[0] == 'E' && "E04"@[1] == '0' && "E04"@[2] == '4');
    assert("E05"@[0] == 'E' && "E05"@[1] == '0' && "E05"@[2] == '5');
    assert("E06"@[0] == 'E' && "E06"@[1] == '0' && "E06"@[2] == '6');
    assert("E07"@[0] == 'E' && "E07"@[1] == '0' && "E07"@[2] == '7');
    assert("E08"@[0] == 'E' && "E08"@[1] == '0' && "E08"@[2] == '8');
    assert("E09"@[0] == 'E' && "E09"@[1] == '0' && "E09"@[2] == '9');
    assert("E10"@[0] == 'E' && "E10"@[1] == '1' && "E10"@[2] == '0');
    assert("F01"@[0] == 'F' && "F01"@[1] == '0' && "F01"@[2] == '1');
    assert("F02"@[0] == 'F' && "F02"@[1] == '0' && "F02"@[2] == '2');
    assert("F03"@[0] == 'F' && "F03"@[1] == '0' && "F03"@[2] == '3');
    assert("F04"@[0] == 'F' && "F04"@[1] == '0' && "F04"@[2] == '4');
    assert("F05"@[0] == 'F' && "F05"@[1] == '0' && "F05"@[2] == '5');
    assert("F06"@[0] == 'F' && "F06"@[1] == '0' && "F06"@[2] == '6');
    assert("F07"@[0] == 'F' && "F07"@[1] == '0' && "F07"@[2] == '7');
    assert("F08"@[0] == 'F' && "F08"@[1] == '0' && "F08"@[2] == '8');
    assert("F09"@[0] == 'F' && "F09"@[1] == '0' && "F09"@[2] == '9');
    assert("F10"@[0] == 'F' && "F10"@[1] == '1' && "F10"@[2] == '0');
    assert("F11"@[0] == 'F' && "F11"@[1] == '1' && "F11"@[2] == '1');
    assert("G01"@[0] == 'G' && "G01"@[1] == '0' && "G01"@[2] == '1');
    assert("G02"@[0] == 'G' && "G02"@[1] == '0' && "G02"@[2] == '2');
    assert("G03"@[0] == 'G' && "G03"@[1] == '0' && "G03"@[2] == '3');
    assert("G04"@[0] == 'G' && "G04"@[1] == '0' && "G04"@[2] == '4');
    assert("G05"@[0] == 'G' && "G05"@[1] == '0' && "G05"@[2] == '5');
    assert("J02"@[0] == 'J' && "J02"@[1] == '0' && "J02"@[2] == '2');
    assert("J03"@[0] == 'J' && "J03"@[1] == '0' && "J03"@[2] == '3');
    assert("K01"@[0] == 'K' && "K01"@[1] == '0' && "K01"@[2] == '1');
    assert("K02"@[0] == 'K' && "K02"@[1] == '0' && "K02"@[2] == '2');
    assert("K03"@[0] == 'K' && "K03"@[1] == '0' && "K03"@[2] == '3');
    assert("K04"@[0] == 'K' && "K04"@[1] == '0' && "K04"@[2] == '4');
    assert("K05"@[0] == 'K' && "K05"@[1] == '0' && "K05"@[2] == '5');
    assert("K06"@[0] == 'K' && "K06"@[1] == '0' && "K06"@[2] == '6');
    assert("K07"@[0] == 'K' && "K07"@[1] == '0' && "K07"@[2] == '7');
    assert("K08"@[0] == 'K' && "K08"@[1] == '0' && "K08"@[2] == '8');
    assert("N01"@[0] == 'N' && "N01"@[1] == '0' && "N01"@[2] == '1');
    assert("N02"@[0] == 'N' && "N02"@[1] == '0' && "N02"@[2] == '2');
    assert("N03"@[0] == 'N' && "N03"@[1] == '0' && "N03"@[2] == '3');
    assert("N04"@[0] == 'N' && "N04"@[1] == '0' && "N04"@[2] == '4');
    assert("N06"@[0] == 'N' && "N06"@[1] == '0' && "N06"@[2] == '6');
    match s {
        Station::A01 => assert(spec_parse_station("A01"@) == Some(Station::A01)),
        Station::A02 => assert(spec_parse_station("A02"@) == Some(Station::A02)),
        Station::A03 => assert(spec_parse_station("A03"@) == Some(Station::A03)),
        Station::A04 => assert(spec_parse_station("A04"@) == Some(Station::A04)),
        Station::A05 => assert(spec_parse_station("A05"@) == Some(Station::A05)),
        Station::A06 => assert(spec_parse_station("A06"@) == Some(Station::A06)),
        Station::A07 => assert(spec_parse_station("A07"@) == Some(Station::A07)),
        Station::A08 => assert(spec_parse_station("A08"@) == Some(Station::A08)),
        Station::A09 => assert(spec_parse_station("A09"@) == Some(Station::A09)),
        Station::A10 => assert(spec_parse_station("A10"@) == Some(Station::A10)),
        Station::A11 => assert(spec_parse_station("A11"@) == Some(Station::A11)),
        Station::A12 => assert(spec_parse_station("A12"@) == Some(Station::A12)),
        Station::A13 => assert(spec_parse_station("A13"@) == Some(Station::A13)),
        Station::A14 => assert(spec_parse_station("A14"@) == Some(Station::A14)),
        Station::A15 => assert(spec_parse_station("A15"@) == Some(Station::A15)),
        Station::B01 => assert(spec_parse_station("B01"@) == Some(Station::B01)),
        Station::B02 => assert(spec_parse_station("B02"@) == Some(Station::B02)),
        Station::B03 => assert(spec_parse_station("B03"@) == Some(Station::B03)),
        Station::B04 => assert(spec_parse_station("B04"@) == Some(Station::B04)),
        Station::B05 => assert(spec_parse_station("B05"@) == Some(Station::B05)),
        Station::B06 => assert(spec_parse_station("B06"@) == Some(Station::B06)),
        Station::B07 => assert(spec_parse_station("B07"@) == Some(Station::B07)),
        Station::B08 => assert(spec_parse_station("B08"@) == Some(Station::B08)),
        Station::B09 => assert(spec_parse_station("B09"@) == Some(Station::B09)),
        Station::B10 => assert(spec_parse_station("B10"@) == Some(Station::B10)),
        Station::B11 => assert(spec_parse_station("B11"@) == Some(Station::B11)),
        Station::B35 => assert(spec_parse_station("B35"@) == Some(Station::B35)),
        Station::C01 => assert(spec_parse_station("C01"@) == Some(Station::C01)),
        Station::C02 => assert(spec_parse_station("C02"@) == Some(Station::C02)),
        Station::C03 => assert(spec_parse_station("C03"@) == Some(Station::C03)),
        Station::C04 => assert(spec_parse_station("C04"@) == Some(Station::C04)),
        Station::C05 => assert(spec_parse_station("C05"@) == Some(Station::C05)),
        Station::C06 => assert(spec_parse_station("C06"@) == Some(Station::C06)),
        Station::C07 => assert(spec_parse_station("C07"@) == Some(Station::C07)),
        Station::C08 => assert(spec_parse_station("C08"@) == Some(Station::C08)),
        Station::C09 => assert(spec_parse_station("C09"@) == Some(Station::C09)),
        Station::C10 => assert(spec_parse_station("C10"@) == Some(Station::C10)),
        Station::C12 => assert(spec_parse_station("C12"@) == Some(Station::C12)),
        Station::C13 => assert(spec_parse_station("C13"@) == Some(Station::C13)),
        Station::C14 => assert(spec_parse_station("C14"@) == Some(Station::C14)),
        Station::C15 => assert(spec_parse_station("C15"@) == Some(Station::C15)),
        Station::D01 => assert(spec_parse_station("D01"@) == Some(Station::D01)),
        Station::D02 => assert(spec_parse_station("D02"@) == Some(Station::D02)),
        Station::D03 => assert(spec_parse_station("D03"@) == Some(Station::D03)),
        Station::D04 => assert(spec_parse_station("D04"@) == Some(Station::D04)),
        Station::D05 => assert(spec_parse_station("D05"@) == Some(Station::D05)),
        Station::D06 => assert(spec_parse_station("D06"@) == Some(Station::D06)),
        Station::D07 => assert(spec_parse_station("D07"@) == Some(Station::D07)),
        Station::D08 => assert(spec_parse_station("D08"@) == Some(Station::D08)),
        Station::D09 => assert(spec_parse_station("D09"@) == Some(Station::D09)),
        Station::D10 => assert(spec_parse_station("D10"@) == Some(Station::D10)),
        Station::D11 => assert(spec_parse_station("D11"@) == Some(Station::D11)),
        Station::D12 => assert(spec_parse_station("D12"@) == Some(Station::D12)),
        Station::D13 => assert(spec_parse_station("D13"@) == Some(Station::D13)),
        Station::E01 => assert(spec_parse_station("E01"@) == Some(Station::E01)),
        Station::E02 => assert(spec_parse_station("E02"@) == Some(Station::E02)),
        Station::E03 => assert(spec_parse_station("E03"@) == Some(Station::E03)),
        Station::E04 => assert(spec_parse_station("E04"@) == Some(Station::E04)),
        Station::E05 => assert(spec_parse_station("E05"@) == Some(Station::E05)),
        Station::E06 => assert(spec_parse_station("E06"@) == Some(Station::E06)),
        Station::E07 => assert(spec_parse_station("E07"@) == Some(Station::E07)),
        Station::E08 => assert(spec_parse_station("E08"@) == Some(Station::E08)),
        Station::E09 => assert(spec_parse_station("E09"@) == Some(Station::E09)),
        Station::E10 => assert(spec_parse_station("E10"@) == Some(Station::E10)),
        Station::F01 => assert(spec_parse_station("F01"@) == Some(Station::F01)),
        Station::F02 => assert(spec_parse_station("F02"@) == Some(Station::F02)),
        Station::F03 => assert(spec_parse_station("F03"@) == Some(Station::F03)),
        Station::F04 => assert(spec_parse_station("F04"@) == Some(Station::F04)),
        Station::F05 => assert(spec_parse_station("F05"@) == Some(Station::F05)),
        Station::F06 => assert(spec_parse_station("F06"@) == Some(Station::F06)),
        Station::F07 => assert(spec_parse_station("F07"@) == Some(Station::F07)),
        Station::F08 => assert(spec_parse_station("F08"@) == Some(Station::F08)),
        Station::F09 => assert(spec_parse_station("F09"@) == Some(Station::F09)),
        Station::F10 => assert(spec_parse_station("F10"@) == Some(Station::F10)),
        Station::F11 => assert(spec_parse_station("F11"@) == Some(Station::F11)),
        Station::G01 => assert(spec_parse_station("G01"@) == Some(Station::G01)),
        Station::G02 => assert(spec_parse_station("G02"@) == Some(Station::G02)),
        Station::G03 => assert(spec_parse_station("G03"@) == Some(Station::G03)),
        Station::G04 => assert(spec_parse_station("G04"@) == Some(Station::G04)),
        Station::G05 => assert(spec_parse_station("G05"@) == Some(Station::G05)),
        Station::J02 => assert(spec_parse_station("J02"@) == Some(Station::J02)),
        Station::J03 => assert(spec_parse_station("J03"@) == Some(Station::J03)),
        Station::K01 => assert(spec_parse_station("K01"@) == Some(Station::K01)),
        Station::K02 => assert(spec_parse_station("K02"@) == Some(Station::K02)),
        Station::K03 => assert(spec_parse_station("K03"@) == Some(Station::K03)),
        Station::K04 => assert(spec_parse_station("K04"@) == Some(Station::K04)),
        Station::K05 => assert(spec_parse_station("K05"@) == Some(Station::K05)),
        Station::K06 => assert(spec_parse_station("K06"@) == Some(Station::K06)),
        Station::K07 => assert(spec_parse_station("K07"@) == Some(Station::K07)),
        Station::K08 => assert(spec_parse_station("K08"@) == Some(Station::K08)),
        Station::N01 => assert(spec_parse_station("N01"@) == Some(Station::N01)),
        Station::N02 => assert(spec_parse_station("N02"@) == Some(Station::N02)),
        Station::N03 => assert(spec_parse_station("N03"@) == Some(Station::N03)),
        Station::N04 => assert(spec_parse_station("N04"@) == Some(Station::N04)),
        Station::N06 => assert(spec_parse_station("N06"@) == Some(Station::N06)),
    }
}

/// Format totality: every station's canonical code is a fixed
/// three-character text, never empty.
#[verifier::rlimit(60)]
#[verifier::spinoff_prover]
pub proof fn lemma_station_format_total(s: Station)
    ensures
        spec_station_code(s).len() == 3,
{
    reveal_strlit("A01");
    reveal_strlit("A02");
    reveal_strlit("A03");
    reveal_strlit("A04");
    reveal_strlit("A05");
    reveal_strlit("A06");
    reveal_strlit("A07");
    reveal_strlit("A08");
    reveal_strlit("A09");
    reveal_strlit("A10");
    reveal_strlit("A11");
    reveal_strlit("A12");
    reveal_strlit("A13");
    reveal_strlit("A14");
    reveal_strlit("A15");
    reveal_strlit("B01");
    reveal_strlit("B02");
    reveal_strlit("B03");
    reveal_strlit("B04");
    reveal_strlit("B05");
    reveal_strlit("B06");
    reveal_strlit("B07");
    reveal_strlit("B08");
    reveal_strlit("B09");
    reveal_strlit("B10");
    reveal_strlit("B11");
    reveal_strlit("B35");
    reveal_strlit("C01");
    reveal_strlit("C02");
    reveal_strlit("C03");
    reveal_strlit("C04");
    reveal_strlit("C05");
    reveal_strlit("C06");
    reveal_strlit("C07");
    reveal_strlit("C08");
    reveal_strlit("C09");
    reveal_strlit("C10");
    reveal_strlit("C12");
    reveal_strlit("C13");
    reveal_strlit("C14");
    reveal_strlit("C15");
    reveal_strlit("D01");
    reveal_strlit("D02");
    reveal_strlit("D03");
    reveal_strlit("D04");
    reveal_strlit("D05");
    reveal_strlit("D06");
    reveal_strlit("D07");
    reveal_strlit("D08");
    reveal_strlit("D09");
    reveal_strlit("D10");
    reveal_strlit("D11");
    reveal_strlit("D12");
    reveal_strlit("D13");
    reveal_strlit("E01");
    reveal_strlit("E02");
    reveal_strlit("E03");
    reveal_strlit("E04");
    reveal_strlit("E05");
    reveal_strlit("E06");
    reveal_strlit("E07");
    reveal_strlit("E08");
    reveal_strlit("E09");
    reveal_strlit("E10");
    reveal_strlit("F01");
    reveal_strlit("F02");
    reveal_strlit("F03");
    reveal_strlit("F04");
    reveal_strlit("F05");
    reveal_strlit("F06");
    reveal_strlit("F07");
    reveal_strlit("F08");
    reveal_strlit("F09");
    reveal_strlit("F10");
    reveal_strlit("F11");
    reveal_strlit("G01");
    reveal_strlit("G02");
    reveal_strlit("G03");
    reveal_strlit("G04");
    reveal_strlit("G05");
    reveal_strlit("J02");
    reveal_strlit("J03");
    reveal_strlit("K01");
    reveal_strlit("K02");
    reveal_strlit("K03");
    reveal_strlit("K04");
    reveal_strlit("K05");
    reveal_strlit("K06");
    reveal_strlit("K07");
    reveal_strlit("K08");
    reveal_strlit("N01");
    reveal_strlit("N02");
    reveal_strlit("N03");
    reveal_strlit("N04");
    reveal_strlit("N06");
}

/// Parse totality: a text parses to no station exactly when it differs from
/// every station's canonical code.
#[verifier::rlimit(100)]
#[verifier::spinoff_prover]
pub proof fn lemma_station_parse_totality(s: Seq<char>)
    ensures
        spec_parse_station(s) is None <==> (forall|st: Station| s != spec_station_code(st)),
{
    if spec_parse_station(s) is Some {
        let st = spec_parse_station(s)->Some_0;
        assert(s == spec_station_code(st));
    }
}

impl Station {
    /// Distance, fare and travel time from this station, optionally to one
    /// destination: the station capability's operation, invoked on this code.
    pub fn to_station(
        &self,
        destination_station: Option<Station>,
        api_key: String,
        transport: &impl NeedsStation,
    ) -> (r: Result<responses::StationToStationInfos, Error>)
        ensures
            r matches Ok(v) ==> exists|j: Json|
                responses::StationToStationInfos::json_wf(j) && (#[trigger] v.of_json(j)),
    {
        transport.station_to_station(Some(*self), destination_station, api_key.as_str())
    }

    /// Elevator and escalator incidents at this station.
    pub fn elevator_and_escalator_incidents(
        &self,
        api_key: String,
        transport: &impl NeedsStation,
    ) -> (r: Result<responses::ElevatorAndEscalatorIncidents, Error>)
        ensures
            r matches Ok(v) ==> exists|j: Json|
                responses::ElevatorAndEscalatorIncidents::json_wf(j) && (#[trigger] v.of_json(j)),
    {
        transport.elevator_and_escalator_incidents_at(Some(*self), api_key.as_str())
    }

    /// Rail incidents at this station.
    pub fn incidents(&self, api_key: String, transport: &impl NeedsStation) -> (r: Result<
        responses::RailIncidents,
        Error,
    >)
        ensures
            r matches Ok(v) ==> exists|j: Json|
                responses::RailIncidents::json_wf(j) && (#[trigger] v.of_json(j)),
    {
        transport.incidents_at(Some(*self), api_key.as_str())
    }

    /// Next train arrivals at this station.
    pub fn next_trains(&self, api_key: String, transport: &impl NeedsStation) -> (r: Result<
        responses::RailPredictions,
        Error,
    >)
        ensures
            r matches Ok(v) ==> exists|j: Json|
                responses::RailPredictions::json_wf(j) && (#[trigger] v.of_json(j)),
    {
        transport.next_trains(*self, api_key.as_str())
    }

    /// Metadata of this station.
    pub fn information(&self, api_key: String, transport: &impl NeedsStation) -> (r: Result<
        responses::StationInformation,
        Error,
    >)
        ensures
            r matches Ok(v) ==> exists|j: Json|
                responses::StationInformation::json_wf(j) && (#[trigger] v.of_json(j)),
    {
        transport.station_information(*self, api_key.as_str())
    }

    /// Parking information at this station.
    pub fn parking_information(&self, api_key: String, transport: &impl NeedsStation) -> (r:
        Result<responses::StationsParking, Error>)
        ensures
            r matches Ok(v) ==> exists|j: Json|
                responses::StationsParking::json_wf(j) && (#[trigger] v.of_json(j)),
    {
        transport.parking_information(*self, api_key.as_str())
    }

    /// The stations along the path from this station to another.
    pub fn path_to(
        &self,
        destination_station: Station,
        api_key: String,
        transport: &impl NeedsStation,
    ) -> (r: Result<responses::PathBetweenStations, Error>)
        ensures
            r matches Ok(v) ==> exists|j: Json|
                responses::PathBetweenStations::json_wf(j) && (#[trigger] v.of_json(j)),
    {
        transport.path_from(*self, destination_station, api_key.as_str())
    }

    /// Opening and first/last train times of this station.
    pub fn timings(&self, api_key: String, transport: &impl NeedsStation) -> (r: Result<
        responses::StationTimings,
        Error,
    >)
        ensures
            r matches Ok(v) ==> exists|j: Json|
                responses::StationTimings::json_wf(j) && (#[trigger] v.of_json(j)),
    {
        transport.timings(*self, api_key.as_str())
    }
}

} // verus!
