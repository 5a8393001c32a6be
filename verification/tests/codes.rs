//! Tests for the closed domain code sets: round trips, canonical forms, and
//! parse totality.
use wmata::{Line, Station};

#[test]
fn line_round_trip() {
    let lines = [
        Line::Red,
        Line::Blue,
        Line::Yellow,
        Line::Orange,
        Line::Green,
        Line::Silver,
    ];
    for line in lines {
        let text = line.to_string();
        assert_eq!(Line::from_str(&text), Ok(line));
    }
}

#[test]
fn line_canonical_forms() {
    assert_eq!(Line::Red.to_string(), "RD");
    assert_eq!(Line::Blue.to_string(), "BL");
    assert_eq!(Line::Yellow.to_string(), "YL");
    assert_eq!(Line::Orange.to_string(), "OR");
    assert_eq!(Line::Green.to_string(), "GR");
    assert_eq!(Line::Silver.to_string(), "SV");
}

#[test]
fn line_parse_totality() {
    assert!(Line::from_str("").is_err());
    assert!(Line::from_str("rd").is_err());
    assert!(Line::from_str("RD ").is_err());
    assert!(Line::from_str("PURPLE").is_err());
}

#[test]
fn station_round_trip() {
    let samples = [
        Station::A01,
        Station::A15,
        Station::B35,
        Station::C12,
        Station::D13,
        Station::E10,
        Station::F11,
        Station::G05,
        Station::J02,
        Station::J03,
        Station::K08,
        Station::N01,
        Station::N06,
    ];
    for station in samples {
        let text = station.to_string();
        assert_eq!(Station::from_str(&text), Ok(station));
    }
}

#[test]
fn station_canonical_forms() {
    assert_eq!(Station::A01.to_string(), "A01");
    assert_eq!(Station::B35.to_string(), "B35");
    assert_eq!(Station::N06.to_string(), "N06");
}

#[test]
fn station_parse_totality() {
    assert!(Station::from_str("").is_err());
    assert!(Station::from_str("a01").is_err());
    assert!(Station::from_str("A00").is_err());
    assert!(Station::from_str("A16").is_err());
    assert!(Station::from_str("Z99").is_err());
    assert!(Station::from_str("A011").is_err());
}

#[test]
fn station_parse_exact() {
    let station: Station = Station::from_str("A01").unwrap();
    assert_eq!(Station::A01, station);
}

fn every_station() -> Vec<Station> {
    vec![
        Station::A01,
        Station::A02,
        Station::A03,
        Station::A04,
        Station::A05,
        Station::A06,
        Station::A07,
        Station::A08,
        Station::A09,
        Station::A10,
        Station::A11,
        Station::A12,
        Station::A13,
        Station::A14,
        Station::A15,
        Station::B01,
        Station::B02,
        Station::B03,
        Station::B04,
        Station::B05,
        Station::B06,
        Station::B07,
        Station::B08,
        Station::B09,
        Station::B10,
        Station::B11,
        Station::B35,
        Station::C01,
        Station::C02,
        Station::C03,
        Station::C04,
        Station::C05,
        Station::C06,
        Station::C07,
        Station::C08,
        Station::C09,
        Station::C10,
        Station::C12,
        Station::C13,
        Station::C14,
        Station::C15,
        Station::D01,
        Station::D02,
        Station::D03,
        Station::D04,
        Station::D05,
        Station::D06,
        Station::D07,
        Station::D08,
        Station::D09,
        Station::D10,
        Station::D11,
        Station::D12,
        Station::D13,
        Station::E01,
        Station::E02,
        Station::E03,
        Station::E04,
        Station::E05,
        Station::E06,
        Station::E07,
        Station::E08,
        Station::E09,
        Station::E10,
        Station::F01,
        Station::F02,
        Station::F03,
        Station::F04,
        Station::F05,
        Station::F06,
        Station::F07,
        Station::F08,
        Station::F09,
        Station::F10,
        Station::F11,
        Station::G01,
        Station::G02,
        Station::G03,
        Station::G04,
        Station::G05,
        Station::J02,
        Station::J03,
        Station::K01,
        Station::K02,
        Station::K03,
        Station::K04,
        Station::K05,
        Station::K06,
        Station::K07,
        Station::K08,
        Station::N01,
        Station::N02,
        Station::N03,
        Station::N04,
        Station::N06,
    ]
}

#[test]
fn station_round_trip_is_exhaustive() {
    let all = every_station();
    assert_eq!(all.len(), 95);
    for station in all {
        let text = station.to_string();
        assert_eq!(Station::from_str(&text), Ok(station));
    }
}

#[test]
fn station_codes_are_unique_and_well_formed() {
    let mut codes: Vec<String> = every_station().iter().map(|s| s.to_string()).collect();
    for code in &codes {
        assert_eq!(code.len(), 3);
    }
    codes.sort();
    let before = codes.len();
    codes.dedup();
    assert_eq!(codes.len(), before);
}

#[test]
fn parse_errors_describe_themselves() {
    assert_eq!(
        Station::from_str("").unwrap_err().message(),
        "Provided string is not a valid station code."
    );
    assert_eq!(
        Line::from_str("XX").unwrap_err().message(),
        "Provided string is not a valid line code."
    );
}
