use ourairports::continent::{continent_cell, Continent};
use ourairports::decimal::Decimal;
use ourairports::error::ErrorKind;
use ourairports::fields::{
    bool_from_str, boolean_cell, decimal_cell, degrees_cell, feet_cell, id_cell, keywords_cell,
    text_cell, vec_string_from_string,
};
use ourairports::integer::{i32_from_str, u64_from_str};
use ourairports::navaids::{power_cell, usage_type_cell, NavaidPower, UsageType};
use ourairports::table::Cell;

#[test]
fn boolean_decoder_accepts_yes_and_one() {
    assert_eq!(bool_from_str("yes").unwrap(), true);
    assert_eq!(bool_from_str("YES").unwrap(), true);
    assert_eq!(bool_from_str("1").unwrap(), true);
    assert_eq!(bool_from_str("yEs").unwrap(), true);
}

#[test]
fn boolean_decoder_accepts_no_and_zero() {
    assert_eq!(bool_from_str("no").unwrap(), false);
    assert_eq!(bool_from_str("No").unwrap(), false);
    assert_eq!(bool_from_str("0").unwrap(), false);
}

#[test]
fn boolean_decoder_rejects_other_values() {
    let e = bool_from_str("maybe").unwrap_err();
    assert_eq!(e.kind, ErrorKind::InvalidBoolean);
    assert_eq!(e.value, "maybe");
    assert!(bool_from_str("").is_err());
    assert!(bool_from_str("true").is_err());
    assert!(bool_from_str(" yes").is_err());
    assert!(bool_from_str("yes ").is_err());
    assert!(bool_from_str("10").is_err());
    assert!(bool_from_str("y").is_err());
}

#[test]
fn boolean_decoder_agrees_with_lower_casing() {
    let cells = [
        "yes", "Yes", "yEs", "YES", "no", "NO", "nO", "1", "0", "", "y", "n", "yes ", " no",
        "true", "false", "ＹＥＳ", "ｙｅｓ", "YEſ", "yeſ", "Nº", "nο", "ΝΟ", "yés", "１", "０", "N\u{307}O",
        "İ", "\u{212a}", "yes\u{0}", "01", "10", "oui", "non",
    ];
    for cell in cells {
        let expected = match cell.to_lowercase().as_str() {
            "yes" | "1" => Some(true),
            "no" | "0" => Some(false),
            _ => None,
        };
        assert_eq!(bool_from_str(cell).ok(), expected, "cell {:?}", cell);
    }
}

#[test]
fn keyword_decoder_gives_nothing_for_the_empty_cell() {
    assert_eq!(vec_string_from_string(""), Vec::<String>::new());
}

#[test]
fn keyword_decoder_splits_and_trims() {
    assert_eq!(vec_string_from_string("a, b,c"), vec!["a", "b", "c"]);
    assert_eq!(vec_string_from_string("  Heathrow ,\tLON\u{a0}"), vec!["Heathrow", "LON"]);
    assert_eq!(vec_string_from_string("one keyword"), vec!["one keyword"]);
}

#[test]
fn keyword_decoder_keeps_empty_and_repeated_items() {
    assert_eq!(vec_string_from_string("a,,b"), vec!["a", "", "b"]);
    assert_eq!(vec_string_from_string("a,a"), vec!["a", "a"]);
    assert_eq!(vec_string_from_string(","), vec!["", ""]);
    assert_eq!(vec_string_from_string(" "), vec![""]);
    assert_eq!(vec_string_from_string("a,"), vec!["a", ""]);
}

#[test]
fn keyword_decoder_agrees_with_split_and_trim() {
    let cells = [
        "",
        "a",
        ",",
        ",,",
        " a , b ",
        "\u{3000}x\u{2003},\u{1680}y",
        "Zürich, 東京 ,Kraków",
        "a\u{200b},b",
        "\u{85}a\u{85}",
        "x,\n y \r\n,z",
    ];
    for cell in cells {
        let expected: Vec<String> = if cell.is_empty() {
            vec![]
        } else {
            cell.split(',').map(|s| s.trim().to_string()).collect()
        };
        assert_eq!(vec_string_from_string(cell), expected, "cell {:?}", cell);
    }
}

#[test]
fn identifier_decoder_reads_decimal_and_hexadecimal() {
    assert_eq!(u64_from_str("2434").unwrap(), 2434);
    assert_eq!(u64_from_str("0").unwrap(), 0);
    assert_eq!(u64_from_str("+7").unwrap(), 7);
    assert_eq!(u64_from_str("007").unwrap(), 7);
    assert_eq!(u64_from_str("0x1F").unwrap(), 31);
    assert_eq!(u64_from_str("0xff").unwrap(), 255);
    assert_eq!(u64_from_str("18446744073709551615").unwrap(), u64::MAX);
    assert_eq!(u64_from_str("0xffffffffffffffff").unwrap(), u64::MAX);
}

#[test]
fn identifier_decoder_rejects_what_is_no_identifier() {
    for cell in ["", "-1", "-0", "+", "1 ", " 1", "1.0", "1e3", "0x", "0X1F", "1_000", "abc",
        "18446744073709551616", "0x10000000000000000", "99999999999999999999999999"]
    {
        let e = u64_from_str(cell).unwrap_err();
        assert_eq!(e.kind, ErrorKind::InvalidInteger, "cell {:?}", cell);
        assert_eq!(e.value, cell);
    }
}

#[test]
fn feet_decoder_reads_signed_numbers() {
    assert_eq!(i32_from_str("83").unwrap(), 83);
    assert_eq!(i32_from_str("-1266").unwrap(), -1266);
    assert_eq!(i32_from_str("+12").unwrap(), 12);
    assert_eq!(i32_from_str("-0").unwrap(), 0);
    assert_eq!(i32_from_str("2147483647").unwrap(), i32::MAX);
    assert_eq!(i32_from_str("-2147483648").unwrap(), i32::MIN);
    assert_eq!(i32_from_str("0x-10").unwrap(), -16);
    assert_eq!(i32_from_str("0x7fffffff").unwrap(), i32::MAX);
}

#[test]
fn feet_decoder_rejects_what_does_not_fit() {
    for cell in ["", "-", "+", "--1", "+-1", "2147483648", "-2147483649", "12.5", "12ft", "0x80000000"] {
        let e = i32_from_str(cell).unwrap_err();
        assert_eq!(e.kind, ErrorKind::InvalidInteger, "cell {:?}", cell);
        assert_eq!(e.value, cell);
    }
}

fn csv_u64(cell: &str) -> Option<u64> {
    let record = csv::StringRecord::from(vec![cell]);
    record.deserialize::<(u64,)>(None).ok().map(|t| t.0)
}

fn csv_i32(cell: &str) -> Option<i32> {
    let record = csv::StringRecord::from(vec![cell]);
    record.deserialize::<(i32,)>(None).ok().map(|t| t.0)
}

fn csv_f64(cell: &str) -> Option<f64> {
    let record = csv::StringRecord::from(vec![cell]);
    record.deserialize::<(f64,)>(None).ok().map(|t| t.0)
}

const NUMBER_CELLS: [&str; 64] = [
    "", "0", "1", "-1", "+1", "-0", "+0", "00", "0001", "-0001", "+", "-", "++1", "--1", "+-1",
    "-+1", "1+", "1-", " 1", "1 ", "1.0", "1.", ".1", ".", "1e3", "1E3", "1e", "1e+", "1e-3",
    "e3", "0x", "0x0", "0x1f", "0x1F", "0X1f", "0x+1f", "0x-1f", "+0x1f", "-0x1f", "0x0x1",
    "0xg", "x1", "1x", "4294967295", "4294967296", "2147483647", "2147483648", "-2147483648",
    "-2147483649", "18446744073709551615", "18446744073709551616", "0xffffffffffffffff",
    "0x10000000000000000", "0x7fffffff", "0x80000000", "0x-80000000", "0x-80000001",
    "١٢٣", "1_0", "1,0", "inf", "nan", "٣", "0b1",
];

#[test]
fn identifier_decoder_agrees_with_the_reader() {
    for cell in NUMBER_CELLS {
        assert_eq!(u64_from_str(cell).ok(), csv_u64(cell), "cell {:?}", cell);
    }
}

#[test]
fn feet_decoder_agrees_with_the_reader() {
    for cell in NUMBER_CELLS {
        assert_eq!(i32_from_str(cell).ok(), csv_i32(cell), "cell {:?}", cell);
    }
}

#[test]
fn decimal_decoder_accepts_numbers() {
    for cell in ["51.4706", "-0.461941", "+12", "0", "1.", ".5", "1e5", "1E5", "1.5e-3", "1e+10",
        "inf", "-inf", "+Infinity", "NaN", "nan", "-NAN", "007", "0.0000000000000000000001",
        "123456789012345678901234567890"]
    {
        let d = Decimal::parse(cell).unwrap();
        assert_eq!(d.as_str(), cell);
    }
}

#[test]
fn decimal_decoder_rejects_what_is_no_number() {
    for cell in ["", "+", "-", ".", "e5", "1e", "1e+", "1e5.0", "1.2.3", "1,5", " 1", "1 ", "--1",
        "0x10", "infinit", "infinityy", "na", "1f", "1_0", "١٢٣", "+-1", "1e--1", ".e1", "-.e1"]
    {
        let e = Decimal::parse(cell).unwrap_err();
        assert_eq!(e.kind, ErrorKind::InvalidDecimal, "cell {:?}", cell);
        assert_eq!(e.value, cell);
    }
}

#[test]
fn decimal_decoder_agrees_with_the_reader() {
    let more = ["1.5", "-1.5", "+.5", "-.5", "5.", "-5.", "1e0", "1E-0", "1.e1", ".1e1", "1e1e1",
        "1.1.1", "Inf", "iNf", "INFINITY", "infinity ", "nan ", "-nan", "+nan", "n", "i", "e",
        "E", "+e", "1ee1", "1e1.", "1.e", "..", "1..", "..1", "+.", "-.", "+.e", "9".repeat(400).as_str()]
        .map(|s| s.to_string());
    for cell in NUMBER_CELLS.iter().map(|s| s.to_string()).chain(more) {
        assert_eq!(
            Decimal::parse(&cell).is_ok(),
            csv_f64(&cell).is_some(),
            "cell {:?}",
            cell
        );
    }
}

#[test]
fn decimal_keeps_the_published_digits() {
    let d = Decimal::parse("51.470600").unwrap();
    assert_eq!(d.as_str(), "51.470600");
    assert_eq!(d.as_str().parse::<f64>().unwrap(), 51.4706);
    assert_eq!(d.clone(), d);
}

#[test]
fn continent_codes_decode() {
    assert_eq!(Continent::from_code("AF").unwrap(), Continent::Africa);
    assert_eq!(Continent::from_code("AN").unwrap(), Continent::Antarctica);
    assert_eq!(Continent::from_code("AS").unwrap(), Continent::Asia);
    assert_eq!(Continent::from_code("EU").unwrap(), Continent::Europe);
    assert_eq!(Continent::from_code("NA").unwrap(), Continent::NorthAmerica);
    assert_eq!(Continent::from_code("OC").unwrap(), Continent::Oceania);
    assert_eq!(Continent::from_code("SA").unwrap(), Continent::SouthAmerica);
}

#[test]
fn continent_codes_are_exact() {
    for code in ["", "af", "Af", "AF ", "EUR", "XX", "A"] {
        let e = Continent::from_code(code).unwrap_err();
        assert_eq!(e.kind, ErrorKind::UnknownCode);
        assert_eq!(e.value, code);
    }
}

#[test]
fn continent_codes_round_trip() {
    for c in [
        Continent::Africa,
        Continent::Antarctica,
        Continent::Asia,
        Continent::Europe,
        Continent::NorthAmerica,
        Continent::Oceania,
        Continent::SouthAmerica,
    ] {
        assert_eq!(Continent::from_code(c.code()).unwrap(), c);
    }
}

#[test]
fn a_cell_that_is_missing_or_ambiguous_is_a_fault_of_the_column() {
    assert_eq!(text_cell(Cell::Missing).unwrap_err().kind, ErrorKind::MissingColumn);
    assert_eq!(text_cell(Cell::Duplicate).unwrap_err().kind, ErrorKind::DuplicateColumn);
    assert_eq!(text_cell(Cell::Text("")).unwrap(), "");
    assert_eq!(text_cell(Cell::Text(" a ")).unwrap(), " a ");
    assert_eq!(id_cell(Cell::Missing).unwrap_err().kind, ErrorKind::MissingColumn);
    assert_eq!(id_cell(Cell::Duplicate).unwrap_err().kind, ErrorKind::DuplicateColumn);
    assert_eq!(id_cell(Cell::Text("")).unwrap_err().kind, ErrorKind::InvalidInteger);
    assert_eq!(id_cell(Cell::Text("12")).unwrap(), 12);
    assert_eq!(decimal_cell(Cell::Missing).unwrap_err().kind, ErrorKind::MissingColumn);
    assert_eq!(decimal_cell(Cell::Text("")).unwrap_err().kind, ErrorKind::InvalidDecimal);
    assert_eq!(decimal_cell(Cell::Text("1.5")).unwrap().as_str(), "1.5");
    assert_eq!(boolean_cell(Cell::Missing).unwrap_err().kind, ErrorKind::MissingColumn);
    assert_eq!(boolean_cell(Cell::Text("")).unwrap_err().kind, ErrorKind::InvalidBoolean);
    assert_eq!(boolean_cell(Cell::Text("Yes")).unwrap(), true);
    assert_eq!(keywords_cell(Cell::Missing).unwrap_err().kind, ErrorKind::MissingColumn);
    assert_eq!(keywords_cell(Cell::Text("")).unwrap(), Vec::<String>::new());
    assert_eq!(continent_cell(Cell::Missing).unwrap_err().kind, ErrorKind::MissingColumn);
    assert_eq!(continent_cell(Cell::Text("")).unwrap_err().kind, ErrorKind::UnknownCode);
    assert_eq!(continent_cell(Cell::Text("OC")).unwrap(), Continent::Oceania);
    assert_eq!(text_cell(Cell::Missing).unwrap_err().value, "");
}

#[test]
fn a_cell_that_may_be_absent_gives_nothing_where_it_is_missing_or_empty() {
    assert_eq!(feet_cell(Cell::Missing).unwrap(), None);
    assert_eq!(feet_cell(Cell::Text("")).unwrap(), None);
    assert_eq!(feet_cell(Cell::Text("-5")).unwrap(), Some(-5));
    assert_eq!(feet_cell(Cell::Duplicate).unwrap_err().kind, ErrorKind::DuplicateColumn);
    assert_eq!(feet_cell(Cell::Text(" ")).unwrap_err().kind, ErrorKind::InvalidInteger);
    assert!(degrees_cell(Cell::Missing).unwrap().is_none());
    assert!(degrees_cell(Cell::Text("")).unwrap().is_none());
    assert_eq!(degrees_cell(Cell::Text("-5.5")).unwrap().unwrap().as_str(), "-5.5");
    assert_eq!(degrees_cell(Cell::Duplicate).unwrap_err().kind, ErrorKind::DuplicateColumn);
    assert_eq!(degrees_cell(Cell::Text("north")).unwrap_err().kind, ErrorKind::InvalidDecimal);
    assert_eq!(usage_type_cell(Cell::Missing).unwrap(), None);
    assert_eq!(usage_type_cell(Cell::Text("")).unwrap(), None);
    assert_eq!(usage_type_cell(Cell::Text("RNAV")).unwrap(), Some(UsageType::Rnav));
    assert_eq!(usage_type_cell(Cell::Text("rnav")).unwrap_err().kind, ErrorKind::UnknownCode);
    assert_eq!(power_cell(Cell::Missing).unwrap(), None);
    assert_eq!(power_cell(Cell::Text("")).unwrap(), None);
    assert_eq!(power_cell(Cell::Text("LOW")).unwrap(), Some(NavaidPower::Low));
    assert_eq!(power_cell(Cell::Duplicate).unwrap_err().kind, ErrorKind::DuplicateColumn);
}
