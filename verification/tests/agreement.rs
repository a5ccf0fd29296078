use ourairports::decimal::Decimal;
use ourairports::fields::{bool_from_str, degrees_cell, feet_cell, vec_string_from_string};
use ourairports::integer::{i32_from_str, u64_from_str};
use ourairports::table::Cell;

/// A small linear congruential generator, so that every run sees the same cells.
struct Cells {
    state: u64,
    alphabet: Vec<char>,
}

impl Cells {
    fn new(seed: u64, alphabet: &str) -> Cells {
        Cells { state: seed, alphabet: alphabet.chars().collect() }
    }

    fn next(&mut self) -> u64 {
        self.state = self.state.wrapping_mul(6364136223846793005).wrapping_add(1442695040888963407);
        self.state >> 33
    }

    fn cell(&mut self, longest: u64) -> String {
        let len = self.next() % (longest + 1);
        let mut s = String::new();
        for _ in 0..len {
            let i = (self.next() % self.alphabet.len() as u64) as usize;
            s.push(self.alphabet[i]);
        }
        s
    }
}

fn csv_u64(cell: &str) -> Option<u64> {
    csv::StringRecord::from(vec![cell]).deserialize::<(u64,)>(None).ok().map(|t| t.0)
}

fn csv_i32(cell: &str) -> Option<i32> {
    csv::StringRecord::from(vec![cell]).deserialize::<(i32,)>(None).ok().map(|t| t.0)
}

fn csv_f64(cell: &str) -> Option<f64> {
    csv::StringRecord::from(vec![cell]).deserialize::<(f64,)>(None).ok().map(|t| t.0)
}

#[test]
fn identifiers_agree_with_the_reader_on_generated_cells() {
    let mut cells = Cells::new(1, "0123456789+-x0123456789abcdefABCDEFX _.");
    for _ in 0..20000 {
        let cell = cells.cell(22);
        assert_eq!(u64_from_str(&cell).ok(), csv_u64(&cell), "cell {:?}", cell);
    }
    let mut digits = Cells::new(2, "0123456789");
    for _ in 0..5000 {
        let cell = digits.cell(21);
        assert_eq!(u64_from_str(&cell).ok(), csv_u64(&cell), "cell {:?}", cell);
        let hex = format!("0x{}", cell);
        assert_eq!(u64_from_str(&hex).ok(), csv_u64(&hex), "cell {:?}", hex);
    }
}

#[test]
fn feet_agree_with_the_reader_on_generated_cells() {
    let mut cells = Cells::new(3, "0123456789+-x0123456789abcdefABCDEFX _.");
    for _ in 0..20000 {
        let cell = cells.cell(12);
        assert_eq!(i32_from_str(&cell).ok(), csv_i32(&cell), "cell {:?}", cell);
    }
    let mut digits = Cells::new(4, "0123456789");
    for _ in 0..5000 {
        let cell = digits.cell(11);
        for sign in ["", "+", "-", "0x", "0x-", "0x+"] {
            let signed = format!("{}{}", sign, cell);
            assert_eq!(i32_from_str(&signed).ok(), csv_i32(&signed), "cell {:?}", signed);
        }
    }
}

#[test]
fn decimals_agree_with_the_reader_on_generated_cells() {
    let mut cells = Cells::new(5, "0123456789+-.eE0123456789infatyINFATY _x");
    for _ in 0..40000 {
        let cell = cells.cell(9);
        assert_eq!(Decimal::parse(&cell).is_ok(), csv_f64(&cell).is_some(), "cell {:?}", cell);
    }
    let mut numbers = Cells::new(6, "0123456789.eE+-");
    for _ in 0..40000 {
        let cell = numbers.cell(8);
        assert_eq!(Decimal::parse(&cell).is_ok(), csv_f64(&cell).is_some(), "cell {:?}", cell);
    }
    let mut words = Cells::new(7, "infatyINFATY+-");
    for _ in 0..40000 {
        let cell = words.cell(9);
        assert_eq!(Decimal::parse(&cell).is_ok(), csv_f64(&cell).is_some(), "cell {:?}", cell);
    }
}

#[test]
fn booleans_agree_with_lower_casing_on_generated_cells() {
    let mut cells = Cells::new(8, "yesnoYESNO10 ſİ\u{212a}");
    for _ in 0..40000 {
        let cell = cells.cell(4);
        let expected = match cell.to_lowercase().as_str() {
            "yes" | "1" => Some(true),
            "no" | "0" => Some(false),
            _ => None,
        };
        assert_eq!(bool_from_str(&cell).ok(), expected, "cell {:?}", cell);
    }
}

#[test]
fn keywords_agree_with_split_and_trim_on_generated_cells() {
    let mut cells = Cells::new(9, "ab, ,\t\u{a0}\u{3000}\u{200b}é,\n");
    for _ in 0..20000 {
        let cell = cells.cell(12);
        let expected: Vec<String> = if cell.is_empty() {
            vec![]
        } else {
            cell.split(',').map(|s| s.trim().to_string()).collect()
        };
        assert_eq!(vec_string_from_string(&cell), expected, "cell {:?}", cell);
    }
}

#[test]
fn white_space_is_what_the_standard_library_says() {
    for code in 0..=0x10ffffu32 {
        if let Some(c) = char::from_u32(code) {
            assert_eq!(ourairports::text::space(c), c.is_whitespace(), "U+{:04X}", code);
            assert_eq!(ourairports::text::to_lower(c), c.to_ascii_lowercase(), "U+{:04X}", code);
        }
    }
}

#[test]
fn cells_that_may_be_empty_agree_with_the_reader() {
    let mut cells = Cells::new(10, "0123456789+-.e x");
    for _ in 0..20000 {
        let cell = cells.cell(4);
        let record = csv::StringRecord::from(vec![cell.as_str()]);
        let feet = record.deserialize::<(Option<i32>,)>(None).ok().map(|t| t.0);
        assert_eq!(feet_cell(Cell::Text(&cell)).ok(), feet, "cell {:?}", cell);
        let degrees = record.deserialize::<(Option<f64>,)>(None).ok().map(|t| t.0.is_some());
        assert_eq!(
            degrees_cell(Cell::Text(&cell)).ok().map(|d| d.is_some()),
            degrees,
            "cell {:?}",
            cell
        );
    }
}
