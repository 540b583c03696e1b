//! The pre-shared key that gates a private overlay, and the strict text
//! format it is stored in:
//!
//! ```text
//! /key/swarm/psk/1.0.0/
//! /base16/
//! <64 hex characters>
//! ```
//!
//! Everything here works on the bytes of the file; reading the file is the
//! caller's business.

use vstd::prelude::*;
use vstd::slice::slice_subrange;
use vstd::string::*;
use crate::bytes::append_bytes;

verus! {

/// Number of bytes in a pre-shared key.
pub const KEY_LEN: usize = 32;

/// Why a key file was turned down.
#[derive(Debug, Clone, Copy, PartialEq, Eq)]
pub enum LoadError {
    /// There is no file to read.
    MissingFile,
    /// The first line is not the format header.
    InvalidHeader,
    /// The second line does not announce base16.
    UnsupportedEncoding,
    /// There is no third line.
    MissingKeyData,
    /// The third line does not decode to exactly 32 bytes.
    InvalidLength,
}

/// A 32-byte secret shared by every member of a private overlay.
#[derive(Clone, Copy)]
pub struct PreSharedKey {
    pub bytes: [u8; 32],
}

impl View for PreSharedKey {
    type V = Seq<u8>;

    open spec fn view(&self) -> Seq<u8> {
        self.bytes@
    }
}

impl PreSharedKey {
    /// Wraps 32 bytes as a key.
    pub fn new(bytes: [u8; 32]) -> (key: Self)
        ensures
            key.bytes == bytes,
    {
        PreSharedKey { bytes }
    }

    /// The key's bytes.
    pub fn to_bytes(&self) -> (bytes: [u8; 32])
        ensures
            bytes == self.bytes,
    {
        self.bytes
    }
}

/// The bytes of a text made of ASCII characters only.
pub open spec fn ascii_bytes(text: Seq<char>) -> Seq<u8> {
    Seq::new(text.len(), |i: int| text[i] as u8)
}

/// First line of every key file.
pub open spec fn header_line() -> Seq<u8> {
    ascii_bytes("/key/swarm/psk/1.0.0/"@)
}

/// Second line of every key file.
pub open spec fn encoding_line() -> Seq<u8> {
    ascii_bytes("/base16/"@)
}

/// Position of the first line feed at or after `from`, or the length of the
/// text when there is none.
pub open spec fn newline_at(text: Seq<u8>, from: int) -> int
    decreases text.len() - from,
{
    if from < 0 || from >= text.len() {
        text.len() as int
    } else if text[from] == 10 {
        from
    } else {
        newline_at(text, from + 1)
    }
}

/// A line without the carriage return that preceded its line feed.
pub open spec fn strip_cr(line: Seq<u8>) -> Seq<u8> {
    if line.len() > 0 && line.last() == 13 {
        line.drop_last()
    } else {
        line
    }
}

/// The line that starts at `from`, and where the next one starts. A line ends
/// at a line feed, or at a carriage return followed by a line feed; the last
/// line may do without either. There is no line at the end of the text.
pub open spec fn line_from(text: Seq<u8>, from: int) -> Option<(Seq<u8>, int)> {
    if from < 0 || from >= text.len() {
        None
    } else {
        let end = newline_at(text, from);
        let raw = text.subrange(from, end);
        if end < text.len() {
            Some((strip_cr(raw), end + 1))
        } else {
            Some((raw, end))
        }
    }
}

/// Whether a byte is one of the ASCII white-space characters: tab, line feed,
/// vertical tab, form feed, carriage return, space.
pub open spec fn is_space(b: u8) -> bool {
    (9 <= b && b <= 13) || b == 32
}

/// `s` without its leading white space.
pub open spec fn trim_start(s: Seq<u8>) -> Seq<u8>
    decreases s.len(),
{
    if s.len() > 0 && is_space(s[0]) {
        trim_start(s.drop_first())
    } else {
        s
    }
}

/// `s` without its trailing white space.
pub open spec fn trim_end(s: Seq<u8>) -> Seq<u8>
    decreases s.len(),
{
    if s.len() > 0 && is_space(s.last()) {
        trim_end(s.drop_last())
    } else {
        s
    }
}

/// `s` without white space at either end.
pub open spec fn trim(s: Seq<u8>) -> Seq<u8> {
    trim_end(trim_start(s))
}

/// The value of a hex digit, upper or lower case.
pub open spec fn hex_digit(c: u8) -> Option<u8> {
    if 48 <= c && c <= 57 {
        Some((c - 48) as u8)
    } else if 97 <= c && c <= 102 {
        Some((c - 87) as u8)
    } else if 65 <= c && c <= 70 {
        Some((c - 55) as u8)
    } else {
        None
    }
}

/// Whether `s` is an even number of hex digits.
pub open spec fn is_hex(s: Seq<u8>) -> bool {
    s.len() % 2 == 0 && forall|i: int| 0 <= i < s.len() ==> (#[trigger] hex_digit(s[i])).is_some()
}

/// The byte that two hex digits spell, most significant digit first.
pub open spec fn hex_pair(high: u8, low: u8) -> u8 {
    (hex_digit(high).unwrap() * 16 + hex_digit(low).unwrap()) as u8
}

/// The bytes that a base16 text spells, if it is one.
pub open spec fn decode_hex(s: Seq<u8>) -> Option<Seq<u8>> {
    if is_hex(s) {
        Some(Seq::new(s.len() / 2, |i: int| hex_pair(s[2 * i], s[2 * i + 1])))
    } else {
        None
    }
}

/// What a key file holds: the key's 32 bytes, or the reason it is turned
/// down. The first failing line decides the reason.
pub open spec fn parse_key_file(text: Seq<u8>) -> Result<Seq<u8>, LoadError> {
    match line_from(text, 0) {
        None => Err(LoadError::InvalidHeader),
        Some((first, after_first)) => if first != header_line() {
            Err(LoadError::InvalidHeader)
        } else {
            match line_from(text, after_first) {
                None => Err(LoadError::UnsupportedEncoding),
                Some((second, after_second)) => if second != encoding_line() {
                    Err(LoadError::UnsupportedEncoding)
                } else {
                    match line_from(text, after_second) {
                        None => Err(LoadError::MissingKeyData),
                        Some((third, _)) => key_from_payload(third),
                    }
                },
            }
        },
    }
}

/// The key that a payload line spells: white space at its ends is ignored,
/// and what is left must be exactly 64 hex digits.
pub open spec fn key_from_payload(line: Seq<u8>) -> Result<Seq<u8>, LoadError> {
    match decode_hex(trim(line)) {
        Some(bytes) => if bytes.len() == KEY_LEN {
            Ok(bytes)
        } else {
            Err(LoadError::InvalidLength)
        },
        None => Err(LoadError::InvalidLength),
    }
}

/// What loading yields for a file that may be absent.
pub open spec fn load_key_file(file: Option<Seq<u8>>) -> Result<Seq<u8>, LoadError> {
    match file {
        None => Err(LoadError::MissingFile),
        Some(text) => parse_key_file(text),
    }
}

/// Whether an outcome of loading is the one the format prescribes.
pub open spec fn agrees(res: Result<PreSharedKey, LoadError>, expected: Result<Seq<u8>, LoadError>) -> bool {
    match res {
        Ok(key) => expected == Ok::<Seq<u8>, LoadError>(key@),
        Err(e) => expected == Err::<Seq<u8>, LoadError>(e),
    }
}

proof fn lemma_newline_at(text: Seq<u8>, from: int)
    requires
        0 <= from <= text.len(),
    ensures
        from <= newline_at(text, from) <= text.len(),
        newline_at(text, from) < text.len() ==> text[newline_at(text, from)] == 10,
        forall|k: int| from <= k < newline_at(text, from) ==> text[k] != 10,
    decreases text.len() - from,
{
    if from < text.len() && text[from] != 10 {
        lemma_newline_at(text, from + 1);
    }
}

proof fn lemma_newline_skip(text: Seq<u8>, from: int, to: int)
    requires
        0 <= from <= to <= text.len(),
        forall|k: int| from <= k < to ==> text[k] != 10,
    ensures
        newline_at(text, from) == newline_at(text, to),
    decreases to - from,
{
    if from < to {
        lemma_newline_skip(text, from + 1, to);
    }
}

/// Finds the line that starts at `from`: the bounds of its content and the
/// start of the next line.
fn next_line(text: &[u8], from: usize) -> (res: Option<(usize, usize, usize)>)
    requires
        from <= text@.len(),
    ensures
        res.is_none() <==> line_from(text@, from as int).is_none(),
        res matches Some((start, end, next)) ==> {
            &&& start <= end <= next <= text@.len()
            &&& line_from(text@, from as int) == Some((text@.subrange(start as int, end as int), next as int))
        },
{
    let len = text.len();
    if from >= len {
        return None;
    }
    let mut end: usize = from;
    while end < len && text[end] != 10
        invariant
            from <= end <= len,
            len == text@.len(),
            forall|k: int| from <= k < end ==> text@[k] != 10,
        decreases len - end,
    {
        end = end + 1;
    }
    proof {
        lemma_newline_skip(text@, from as int, end as int);
        lemma_newline_at(text@, end as int);
    }
    if end < len {
        let ghost raw = text@.subrange(from as int, end as int);
        if end > from && text[end - 1] == 13 {
            assert(raw.drop_last() == text@.subrange(from as int, end - 1));
            Some((from, end - 1, end + 1))
        } else {
            Some((from, end, end + 1))
        }
    } else {
        Some((from, end, end))
    }
}

fn is_space_byte(b: u8) -> (res: bool)
    ensures
        res == is_space(b),
{
    (9 <= b && b <= 13) || b == 32
}

/// Narrows `[start, end)` to what is left of it once white space at both
/// ends is dropped.
fn trim_bounds(text: &[u8], start: usize, end: usize) -> (res: (usize, usize))
    requires
        start <= end <= text@.len(),
    ensures
        start <= res.0 <= res.1 <= end,
        text@.subrange(res.0 as int, res.1 as int) == trim(text@.subrange(start as int, end as int)),
{
    let mut lo: usize = start;
    while lo < end && is_space_byte(text[lo])
        invariant
            start <= lo <= end <= text@.len(),
            trim_start(text@.subrange(start as int, end as int)) == trim_start(
                text@.subrange(lo as int, end as int),
            ),
        decreases end - lo,
    {
        assert(text@.subrange(lo as int, end as int).drop_first() == text@.subrange(
            lo + 1,
            end as int,
        ));
        lo = lo + 1;
    }
    let mut hi: usize = end;
    while hi > lo && is_space_byte(text[hi - 1])
        invariant
            lo <= hi <= end <= text@.len(),
            trim_end(text@.subrange(lo as int, end as int)) == trim_end(
                text@.subrange(lo as int, hi as int),
            ),
        decreases hi - lo,
    {
        assert(text@.subrange(lo as int, hi as int).drop_last() == text@.subrange(
            lo as int,
            hi - 1,
        ));
        hi = hi - 1;
    }
    (lo, hi)
}

/// The value of one hex digit, upper or lower case.
pub fn hex_value(c: u8) -> (res: Option<u8>)
    ensures
        res == hex_digit(c),
        res matches Some(v) ==> v < 16,
{
    if 48 <= c && c <= 57 {
        Some(c - 48)
    } else if 97 <= c && c <= 102 {
        Some(c - 87)
    } else if 65 <= c && c <= 70 {
        Some(c - 55)
    } else {
        None
    }
}

/// Decodes a payload of exactly 64 hex digits.
fn decode_key(hex: &[u8]) -> (res: Option<[u8; 32]>)
    ensures
        res matches Some(bytes) ==> decode_hex(hex@) == Some(bytes@),
        res.is_none() ==> !(decode_hex(hex@) matches Some(bytes) && bytes.len() == KEY_LEN),
{
    if hex.len() != 64 {
        return None;
    }
    let mut bytes: [u8; 32] = [0u8; 32];
    let mut i: usize = 0;
    while i < 32
        invariant
            i <= 32,
            hex@.len() == 64,
            forall|k: int| 0 <= k < 2 * i ==> (#[trigger] hex_digit(hex@[k])).is_some(),
            forall|k: int| 0 <= k < i ==> #[trigger] bytes@[k] == hex_pair(hex@[2 * k], hex@[2 * k + 1]),
        decreases 32 - i,
    {
        let high = hex_value(hex[2 * i]);
        let low = hex_value(hex[2 * i + 1]);
        match (high, low) {
            (Some(h), Some(l)) => {
                bytes[i] = h * 16 + l;
            },
            _ => {
                assert(!is_hex(hex@));
                return None;
            },
        }
        i = i + 1;
    }
    assert(is_hex(hex@));
    assert(bytes@ =~= decode_hex(hex@).unwrap());
    Some(bytes)
}

/// Whether `line` is the given ASCII text.
fn line_is(text: &[u8], start: usize, end: usize, expected: &str) -> (res: bool)
    requires
        start <= end <= text@.len(),
        is_ascii(expected),
    ensures
        res == (text@.subrange(start as int, end as int) == ascii_bytes(expected@)),
{
    let want = expected.as_bytes();
    let ghost line = text@.subrange(start as int, end as int);
    assert(want@ == ascii_bytes(expected@)) by {
        is_ascii_spec_bytes(expected);
    }
    if end - start != want.len() {
        return false;
    }
    let mut i: usize = 0;
    while i < want.len()
        invariant
            start <= end <= text@.len(),
            i <= want@.len(),
            want@.len() == end - start,
            want@ == ascii_bytes(expected@),
            line == text@.subrange(start as int, end as int),
            forall|k: int| 0 <= k < i ==> line[k] == want@[k],
        decreases want@.len() - i,
    {
        if text[start + i] != want[i] {
            assert(line[i as int] != want@[i as int]);
            return false;
        }
        i = i + 1;
    }
    assert(line =~= want@);
    true
}

/// Reads a key from the text of a key file.
///
/// Succeeds exactly on a text whose first line is the header, whose second
/// line is the encoding marker and whose third line holds 64 hex digits, with
/// white space allowed around them. Otherwise the error names the first line
/// that is wrong.
pub fn parse_preshared_key(text: &[u8]) -> (res: Result<PreSharedKey, LoadError>)
    ensures
        agrees(res, parse_key_file(text@)),
{
    proof {
        reveal_strlit("/key/swarm/psk/1.0.0/");
        reveal_strlit("/base16/");
    }
    let first = next_line(text, 0);
    let after_first = match first {
        None => {
            return Err(LoadError::InvalidHeader);
        },
        Some((start, end, next)) => {
            if !line_is(text, start, end, "/key/swarm/psk/1.0.0/") {
                return Err(LoadError::InvalidHeader);
            }
            next
        },
    };
    let second = next_line(text, after_first);
    let after_second = match second {
        None => {
            return Err(LoadError::UnsupportedEncoding);
        },
        Some((start, end, next)) => {
            if !line_is(text, start, end, "/base16/") {
                return Err(LoadError::UnsupportedEncoding);
            }
            next
        },
    };
    match next_line(text, after_second) {
        None => Err(LoadError::MissingKeyData),
        Some((start, end, _)) => {
            let (lo, hi) = trim_bounds(text, start, end);
            match decode_key(slice_subrange(text, lo, hi)) {
                Some(bytes) => Ok(PreSharedKey { bytes }),
                None => Err(LoadError::InvalidLength),
            }
        },
    }
}

/// Loads a key from a key file that may be absent: `None` stands for a file
/// that could not be read.
pub fn load_preshared_key(file: Option<&[u8]>) -> (res: Result<PreSharedKey, LoadError>)
    ensures
        agrees(
            res,
            load_key_file(
                match file {
                    Some(text) => Some(text@),
                    None => None,
                },
            ),
        ),
{
    match file {
        None => Err(LoadError::MissingFile),
        Some(text) => parse_preshared_key(text),
    }
}

/// The text of the key file that a development node starts from when it has
/// none: the all-zero key.
pub open spec fn dev_key_text() -> Seq<u8> {
    header_line() + seq![10u8] + encoding_line() + seq![10u8] + Seq::new(64, |i: int| 48u8)
}

proof fn lemma_line_ends(text: Seq<u8>, from: int, end: int)
    requires
        0 <= from <= end <= text.len(),
        forall|k: int| from <= k < end ==> text[k] != 10,
        end < text.len() ==> text[end] == 10,
    ensures
        newline_at(text, from) == end,
{
    lemma_newline_skip(text, from, end);
}

proof fn lemma_no_space_trim(s: Seq<u8>)
    requires
        s.len() > 0,
        !is_space(s[0]),
        !is_space(s.last()),
    ensures
        trim(s) == s,
{
}

/// Writes the key file of a development node: header, encoding marker and
/// the all-zero key. Reading it back yields 32 zero bytes.
pub fn dev_key_file() -> (text: Vec<u8>)
    ensures
        text@ == dev_key_text(),
        parse_key_file(text@) == Ok::<Seq<u8>, LoadError>(Seq::new(32, |i: int| 0u8)),
{
    proof {
        reveal_strlit("/key/swarm/psk/1.0.0/");
        reveal_strlit("/base16/");
    }
    let header = "/key/swarm/psk/1.0.0/";
    let encoding = "/base16/";
    let mut text: Vec<u8> = Vec::new();
    proof {
        is_ascii_spec_bytes(header);
        is_ascii_spec_bytes(encoding);
    }
    append_bytes(&mut text, header.as_bytes());
    text.push(10);
    append_bytes(&mut text, encoding.as_bytes());
    text.push(10);
    let ghost prefix = text@;
    let mut i: usize = 0;
    while i < 64
        invariant
            i <= 64,
            text@ == prefix + Seq::new(i as nat, |k: int| 48u8),
        decreases 64 - i,
    {
        text.push(48);
        i = i + 1;
    }
    proof {
        let t = text@;
        assert(t == dev_key_text());
        assert(header_line().len() == 21);
        assert(encoding_line().len() == 8);
        assert(t.len() == 95);
        assert(forall|k: int| 0 <= k < 21 ==> t[k] == header_line()[k]);
        assert(forall|k: int| 22 <= k < 30 ==> t[k] == encoding_line()[k - 22]);
        assert(forall|k: int| 0 <= k < 21 ==> header_line()[k] != 10 && header_line()[k] != 13);
        assert(forall|k: int| 0 <= k < 8 ==> encoding_line()[k] != 10 && encoding_line()[k] != 13);
        assert(forall|k: int| 31 <= k < 95 ==> t[k] == 48);
        lemma_line_ends(t, 0, 21);
        assert(t.subrange(0, 21) == header_line());
        lemma_line_ends(t, 22, 30);
        assert(t.subrange(22, 30) == encoding_line());
        lemma_line_ends(t, 31, 95);
        let payload = t.subrange(31, 95);
        lemma_no_space_trim(payload);
        assert(is_hex(payload)) by {
            assert forall|k: int| 0 <= k < payload.len() implies (#[trigger] hex_digit(
                payload[k],
            )).is_some() by {
                assert(payload[k] == 48);
            }
        }
        assert(decode_hex(payload).unwrap() =~= Seq::new(32, |k: int| 0u8));
    }
    text
}

/// A payload line yields a key exactly when, white space at its ends aside,
/// it is 64 hex digits; every other payload is turned down for its length,
/// an odd number of digits included. The key then holds the 32 bytes that
/// the digits spell.
pub proof fn law_payload_accepts_64_hex_digits(line: Seq<u8>)
    ensures
        key_from_payload(line).is_ok() <==> (trim(line).len() == 64 && is_hex(trim(line))),
        !key_from_payload(line).is_ok() ==> key_from_payload(line) == Err::<Seq<u8>, LoadError>(
            LoadError::InvalidLength,
        ),
        trim(line).len() % 2 == 1 ==> key_from_payload(line) == Err::<Seq<u8>, LoadError>(
            LoadError::InvalidLength,
        ),
        key_from_payload(line) matches Ok(bytes) ==> bytes.len() == KEY_LEN,
{
}

/// The reason a file is turned down tells its first fault: a missing file,
/// a wrong header and a bad payload each have an error of their own, and a
/// bad payload is reported only for a file whose first two lines are right.
pub proof fn law_load_errors_tell_faults_apart(file: Option<Seq<u8>>)
    ensures
        file.is_none() <==> load_key_file(file) == Err::<Seq<u8>, LoadError>(
            LoadError::MissingFile,
        ),
        load_key_file(file) == Err::<Seq<u8>, LoadError>(LoadError::InvalidLength) ==> {
            &&& file matches Some(text)
            &&& line_from(text, 0) matches Some((first, second_start))
            &&& first == header_line()
            &&& line_from(text, second_start) matches Some((second, third_start))
            &&& second == encoding_line()
            &&& line_from(text, third_start) matches Some((third, _))
            &&& key_from_payload(third).is_err()
        },
        load_key_file(file) matches Ok(bytes) ==> bytes.len() == KEY_LEN,
{
}

} // verus!
