use ame2020::{AmeError, Iter};
use std::io::Cursor;

/// The documented example data line: neutron count 1, proton count 0,
/// element `n`, mass excess 8071.31806 (0.00044), binding energy 0.0 (0.0),
/// beta decay energy 782.3470 (0.0004), atomic mass 1 008664.91590 micro-u
/// (0.00047).
const BASE: &[u8] = b"0  1    1    0    1  n         8071.31806     0.00044       0.0        0.0     B-    782.3470     0.0004    1 008664.91590     0.00047";

const PAGE_FEED: &[u8] = b"1 page feed";
const HEADER: &[u8] = b"N-Z header line";

fn join(lines: &[&[u8]]) -> Vec<u8> {
    let mut out: Vec<u8> = Vec::new();
    for l in lines {
        out.extend_from_slice(l);
        out.push(b'\n');
    }
    out
}

fn scanner(input: Vec<u8>) -> Iter<Cursor<Vec<u8>>> {
    Iter::new(Cursor::new(input))
}

// if the file is empty, that's not an error, there are just no items
#[test]
fn empty() {
    let mut iter = scanner(Vec::new());
    assert!(iter.next().is_none());
}

#[test]
fn only_preamble() {
    let mut iter = scanner(join(&[PAGE_FEED, b"preamble text", b"more preamble"]));
    assert!(iter.next().is_none());
}

#[test]
fn only_preamble_and_headers() {
    let mut iter = scanner(join(&[PAGE_FEED, b"preamble text", PAGE_FEED, HEADER, HEADER]));
    assert!(iter.next().is_none());
}

// if there's no preamble, the parser doesn't know to read data
#[test]
fn no_preamble() {
    let mut iter = scanner(join(&[BASE]));
    assert!(iter.next().is_none());
}

// stuff before the preamble is ok
#[test]
fn pre_preamble() {
    let mut iter = scanner(join(&[b"junk before", b"more junk", PAGE_FEED, PAGE_FEED, BASE]));
    assert!(iter.next().is_some());
    assert!(iter.next().is_none());
}

// too many page feeds ('1') is fine. there just needs to be at least 2
#[test]
fn too_many_page_feeds() {
    let mut iter = scanner(join(&[PAGE_FEED, PAGE_FEED, PAGE_FEED, PAGE_FEED, BASE]));
    assert!(iter.next().is_some());
    assert!(iter.next().is_none());
}

// the headers can take multiple lines
// the data starts with a line feed ('0')
#[test]
fn extra_headers() {
    let mut iter = scanner(join(&[PAGE_FEED, PAGE_FEED, HEADER, HEADER, HEADER, BASE]));
    assert!(iter.next().is_some());
    assert!(iter.next().is_none());
}

#[test]
fn single() {
    let mut iter = scanner(join(&[PAGE_FEED, PAGE_FEED, BASE]));
    assert!(iter.next().is_some());
    assert!(iter.next().is_none());
}

// make sure you get the right error when the line is too short
#[test]
fn too_short_line() {
    let mut iter = scanner(join(&[PAGE_FEED, PAGE_FEED, b"0  1", b"0  1"]));
    assert_eq!(iter.next().unwrap(), Err(AmeError::TooShortLine));
    assert_eq!(iter.next().unwrap(), Err(AmeError::TooShortLine));
    assert!(iter.next().is_none());
}

// the input for this test has multi-byte chars
#[test]
fn str_index() {
    // the char spans a slice boundary, so we get an indexing error
    let mut straddling: Vec<u8> = b"0       ".to_vec();
    straddling.extend_from_slice(&[0xC3, 0xA9]);
    straddling.extend_from_slice(b"  rest of line");
    let mut iter = scanner(join(&[PAGE_FEED, PAGE_FEED, &straddling]));
    assert_eq!(iter.next().unwrap(), Err(AmeError::StrIndex));
    assert!(iter.next().is_none());

    // the char is within a slice, so we get a parsing error
    let mut inside: Vec<u8> = BASE[..30].to_vec();
    inside.extend_from_slice(&[0xC3, 0xA9]);
    inside.extend_from_slice(&BASE[31..]);
    let mut iter = scanner(join(&[PAGE_FEED, PAGE_FEED, &inside]));
    assert!(matches!(iter.next().unwrap(), Err(AmeError::ParseFloat(_))));
    assert!(iter.next().is_none());
}

// the input for this test has a non-utf8 byte
#[test]
fn non_utf8() {
    let mut iter = scanner(join(&[&[0xFFu8]]));
    assert_eq!(
        iter.next().unwrap(),
        Err(AmeError::Io(std::io::ErrorKind::InvalidData))
    );
}

struct UnreadableSource;

impl std::io::Read for UnreadableSource {
    fn read(&mut self, _buf: &mut [u8]) -> std::io::Result<usize> {
        Err(std::io::Error::new(
            std::io::ErrorKind::PermissionDenied,
            "this source cannot be read",
        ))
    }
}

// reading from a source that cannot be read is an error of a kind other than
// "invalid data"
#[test]
fn io_error() {
    let reader = std::io::BufReader::new(UnreadableSource);
    let mut iter = Iter::new(reader);
    match iter.next().unwrap() {
        Err(AmeError::Io(kind)) => assert_ne!(kind, std::io::ErrorKind::InvalidData),
        other => panic!("expected an Io error, got {:?}", other),
    }
}

fn patched(at: usize, with: &[u8]) -> Vec<u8> {
    let mut line = BASE.to_vec();
    line[at..at + with.len()].copy_from_slice(with);
    line
}

#[test]
fn parse_error() {
    // fails to parse an int in n, carrying the offending column text
    let mut iter = scanner(join(&[PAGE_FEED, PAGE_FEED, &patched(4, b"   a ")]));
    assert_eq!(iter.next().unwrap(), Err(AmeError::ParseInt(b"a".to_vec())));

    // fails to parse an int in z
    let mut iter = scanner(join(&[PAGE_FEED, PAGE_FEED, &patched(9, b"    b")]));
    assert_eq!(iter.next().unwrap(), Err(AmeError::ParseInt(b"b".to_vec())));

    // fails to parse an int in the first part of mass
    let mut iter = scanner(join(&[PAGE_FEED, PAGE_FEED, &patched(106, b"  c")]));
    assert_eq!(iter.next().unwrap(), Err(AmeError::ParseInt(b"c".to_vec())));

    // fails to parse a float in the mass excess mean
    let mut iter = scanner(join(&[PAGE_FEED, PAGE_FEED, &patched(28, b"       x      ")]));
    assert_eq!(iter.next().unwrap(), Err(AmeError::ParseFloat(b"x".to_vec())));

    // fails to parse a float in the mass excess uncertainty
    let mut iter = scanner(join(&[PAGE_FEED, PAGE_FEED, &patched(42, b"      y     ")]));
    assert_eq!(iter.next().unwrap(), Err(AmeError::ParseFloat(b"y".to_vec())));
}

#[test]
fn multi() {
    let second = patched(8, b"2");
    let third = patched(8, b"3");
    let mut iter = scanner(join(&[PAGE_FEED, PAGE_FEED, BASE, &second, &third]));
    let mut ns: Vec<u32> = Vec::new();
    while let Some(item) = iter.next() {
        let nuc = item.expect("every data line of a well-formed file parses");
        ns.push(nuc.n);
    }
    assert_eq!(ns, vec![1, 2, 3]);
}

// the documented example line, field by field
#[test]
fn first_record_values() {
    let mut iter = scanner(join(&[PAGE_FEED, PAGE_FEED, BASE]));
    let nuc = iter.next().unwrap().unwrap();
    assert_eq!(nuc.n, 1);
    assert_eq!(nuc.z, 0);
    assert_eq!(nuc.element, b"n".to_vec());
    assert_eq!(nuc.mass_excess.mean, 8071.31806f64.to_bits());
    assert_eq!(nuc.mass_excess.uncertainty, 0.00044f64.to_bits());
    assert!(!nuc.mass_excess.is_estimated);
    assert_eq!(nuc.binding_energy_per_a.mean, 0.0f64.to_bits());
    let beta = nuc.beta_decay_energy.expect("the flag column is not '*'");
    assert_eq!(beta.mean, 782.3470f64.to_bits());
    assert_eq!(beta.uncertainty, 0.0004f64.to_bits());
    let atomic = f64::from_bits(nuc.atomic_mass.mean);
    assert!((atomic - (1.0 + 8664.91590e-6)).abs() < 1e-12);
    let atomic_unc = f64::from_bits(nuc.atomic_mass.uncertainty);
    assert!((atomic_unc - 0.00047e-6).abs() < 1e-18);
    assert!(!nuc.atomic_mass.is_estimated);
}

// a '#' in the mean column marks the value as estimated and reads as a
// decimal point
#[test]
fn estimated_mean() {
    let line = patched(28, b"    31170#    ");
    let mut iter = scanner(join(&[PAGE_FEED, PAGE_FEED, &line]));
    let nuc = iter.next().unwrap().unwrap();
    assert!(nuc.mass_excess.is_estimated);
    assert_eq!(nuc.mass_excess.mean, 31170.0f64.to_bits());
    assert!(!nuc.binding_energy_per_a.is_estimated);
}

// a '#' in the uncertainty column reads as a decimal point but does not mark
// the value as estimated: only the mean's raw text decides that
#[test]
fn estimated_uncertainty_only() {
    let line = patched(42, b"      196#  ");
    let mut iter = scanner(join(&[PAGE_FEED, PAGE_FEED, &line]));
    let nuc = iter.next().unwrap().unwrap();
    assert!(!nuc.mass_excess.is_estimated);
    assert_eq!(nuc.mass_excess.uncertainty, 196.0f64.to_bits());
}

// a '*' in the applicability flag column means no beta decay energy
#[test]
fn beta_absent() {
    let mut line = BASE[..81].to_vec();
    line.extend_from_slice(b"      *                 ");
    line.extend_from_slice(&BASE[105..]);
    let mut iter = scanner(join(&[PAGE_FEED, PAGE_FEED, &line]));
    let nuc = iter.next().unwrap().unwrap();
    assert!(nuc.beta_decay_energy.is_none());
    assert_eq!(nuc.n, 1);
}

// a line cut off inside the beta uncertainty column is too short
#[test]
fn truncated_line() {
    let mut iter = scanner(join(&[PAGE_FEED, PAGE_FEED, &BASE[..100]]));
    assert_eq!(iter.next().unwrap(), Err(AmeError::TooShortLine));
    assert!(iter.next().is_none());
}

// a line ending right at the fractional mean leaves an empty uncertainty
// column, which is not a float
#[test]
fn empty_trailing_uncertainty() {
    let mut iter = scanner(join(&[PAGE_FEED, PAGE_FEED, &BASE[..123]]));
    assert!(matches!(iter.next().unwrap(), Err(AmeError::ParseFloat(_))));
}

#[test]
fn error_messages() {
    assert_eq!(AmeError::TooShortLine.message(), "line too short");
    assert_eq!(AmeError::StrIndex.message(), "string indexing error");
    assert_eq!(AmeError::ParseInt(Vec::new()).message(), "int parsing error");
    assert_eq!(
        AmeError::ParseFloat(Vec::new()).message(),
        "float parsing error"
    );
    assert_eq!(
        AmeError::Io(std::io::ErrorKind::InvalidData).message(),
        "read error"
    );
}
