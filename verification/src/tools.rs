use std::time::{Duration, SystemTime, SystemTimeError, UNIX_EPOCH};
use uuid::Uuid;
use vstd::prelude::*;

verus! {

/// A point in time as read from the system clock.
#[verifier::external_type_specification]
#[verifier::external_body]
pub struct ExSystemTime(SystemTime);

/// The error returned when a time lies before the reference point.
#[verifier::external_type_specification]
#[verifier::external_body]
pub struct ExSystemTimeError(SystemTimeError);

/// Milliseconds in a span of `secs` whole seconds plus `subsec_nanos` nanoseconds,
/// counting only whole milliseconds.
pub open spec fn millis_of(secs: int, subsec_nanos: int) -> int {
    secs * 1000 + subsec_nanos / 1_000_000
}

/// Calls `SystemTime::now`. The result depends on the system clock, so
/// nothing is stated about it.
#[verifier::external_body]
fn system_time_now() -> (now: SystemTime) {
    SystemTime::now()
}

/// Calls `SystemTime::duration_since(UNIX_EPOCH)`. The result depends on the
/// (opaque) time value, so nothing is stated about it.
#[verifier::external_body]
fn duration_since_unix_epoch(t: &SystemTime) -> (r: Result<Duration, SystemTimeError>) {
    t.duration_since(UNIX_EPOCH)
}

/// Calls `Duration::as_secs`: the whole seconds of the span. Nothing is stated,
/// since a `Duration` is opaque here.
#[verifier::external_body]
fn duration_secs(d: &Duration) -> (secs: u64) {
    d.as_secs()
}

/// Calls `Duration::subsec_nanos`, which the documentation describes as the
/// fractional part of the span in nanoseconds, always less than one billion.
#[verifier::external_body]
fn duration_subsec_nanos(d: &Duration) -> (nanos: u32)
    ensures
        nanos < 1_000_000_000,
{
    d.subsec_nanos()
}

/// Whole milliseconds in a span of `secs` seconds and `subsec_nanos`
/// nanoseconds (what `Duration::as_millis` reports for such a span).
pub fn millis_from_parts(secs: u64, subsec_nanos: u32) -> (millis: u128)
    ensures
        millis == millis_of(secs as int, subsec_nanos as int),
{
    (secs as u128) * 1000 + ((subsec_nanos / 1_000_000) as u128)
}

/// Whether `reading` can be a reading of the clock against the Unix epoch:
/// `None` for a time before the epoch, else the whole seconds since it and
/// the nanoseconds of the fraction, below one billion.
pub open spec fn is_clock_reading(reading: Option<(u64, u32)>) -> bool {
    reading matches Some((_, nanos)) ==> nanos < 1_000_000_000
}

/// The whole seconds of a clock reading.
pub open spec fn seconds_of(reading: Option<(u64, u32)>) -> Option<u64> {
    match reading {
        Some((secs, _)) => Some(secs),
        None => None,
    }
}

/// The whole milliseconds of a clock reading.
pub open spec fn millis_of_reading(reading: Option<(u64, u32)>) -> Option<u128> {
    match reading {
        Some((secs, nanos)) => Some(millis_of(secs as int, nanos as int) as u128),
        None => None,
    }
}

/// Reads the system clock against the Unix epoch: the whole seconds and the
/// nanoseconds of the fraction, or `None` when the clock reads a time before
/// the epoch.
fn read_clock() -> (reading: Option<(u64, u32)>)
    ensures
        is_clock_reading(reading),
{
    let now = system_time_now();
    match duration_since_unix_epoch(&now) {
        Ok(d) => Some((duration_secs(&d), duration_subsec_nanos(&d))),
        Err(_) => None,
    }
}

/// The whole seconds of a clock reading, `None` for a time before the epoch.
pub fn seconds_from_reading(reading: Option<(u64, u32)>) -> (secs: Option<u64>)
    ensures
        secs == seconds_of(reading),
{
    match reading {
        Some((s, _)) => Some(s),
        None => None,
    }
}

/// The whole milliseconds of a clock reading, `None` for a time before the epoch.
pub fn millis_from_reading(reading: Option<(u64, u32)>) -> (millis: Option<u128>)
    ensures
        millis == millis_of_reading(reading),
{
    match reading {
        Some((s, n)) => Some(millis_from_parts(s, n)),
        None => None,
    }
}

/// The current time in milliseconds since the Unix epoch (1970-01-01 00:00:00 UTC).
///
/// Returns `None` when the system clock reads a time before the epoch.
pub fn now_mills() -> (millis: Option<u128>)
    ensures
        exists|reading: Option<(u64, u32)>|
            is_clock_reading(reading) && millis == millis_of_reading(reading),
{
    let reading = read_clock();
    millis_from_reading(reading)
}

/// The current time in whole seconds since the Unix epoch.
///
/// Returns `None` when the system clock reads a time before the epoch.
pub fn now_second() -> (secs: Option<u64>)
    ensures
        exists|reading: Option<(u64, u32)>|
            is_clock_reading(reading) && secs == seconds_of(reading),
{
    let reading = read_clock();
    seconds_from_reading(reading)
}

/// For any clock reading, the milliseconds divided by 1000 are the seconds.
pub proof fn lemma_reading_millis_agree_with_seconds(reading: Option<(u64, u32)>)
    requires
        is_clock_reading(reading),
    ensures
        match (millis_of_reading(reading), seconds_of(reading)) {
            (Some(m), Some(s)) => m / 1000 == s,
            (None, None) => true,
            _ => false,
        },
{
    if let Some((s, n)) = reading {
        lemma_millis_agree_with_seconds(s as nat, n as nat);
    }
}

/// The millisecond count of a span, divided by 1000, is its count of whole
/// seconds; the remainder is the count of whole milliseconds in its
/// fractional part.
pub proof fn lemma_millis_agree_with_seconds(secs: nat, subsec_nanos: nat)
    requires
        subsec_nanos < 1_000_000_000,
    ensures
        millis_of(secs as int, subsec_nanos as int) / 1000 == secs,
        millis_of(secs as int, subsec_nanos as int) % 1000 == subsec_nanos / 1_000_000,
{
    let r = subsec_nanos as int / 1_000_000;
    assert(0 <= r < 1000);
    assert((secs * 1000 + r) / 1000 == secs && (secs * 1000 + r) % 1000 == r) by (nonlinear_arith)
        requires 0 <= r < 1000, secs >= 0;
}


/// The lowercase hexadecimal digits, indexed by their value.
pub open spec fn hex_digits() -> Seq<char> {
    seq!['0', '1', '2', '3', '4', '5', '6', '7', '8', '9', 'a', 'b', 'c', 'd', 'e', 'f']
}

/// The 32 lowercase hexadecimal digits of 16 bytes, high nibble first.
pub open spec fn simple_text(bytes: Seq<u8>) -> Seq<char> {
    Seq::new(
        32,
        |i: int|
            if i % 2 == 0 {
                hex_digits()[(bytes[i / 2] / 16) as int]
            } else {
                hex_digits()[(bytes[i / 2] % 16) as int]
            },
    )
}

/// The hyphenated form of a UUID: its simple text cut into groups of
/// 8, 4, 4, 4 and 12 digits joined by `-`.
pub open spec fn hyphenated_text(bytes: Seq<u8>) -> Seq<char> {
    let s = simple_text(bytes);
    s.subrange(0, 8) + seq!['-'] + s.subrange(8, 12) + seq!['-'] + s.subrange(12, 16) + seq!['-']
        + s.subrange(16, 20) + seq!['-'] + s.subrange(20, 32)
}

/// Whether 16 bytes carry the version and variant bits of a random (version 4) UUID.
pub open spec fn is_v4_bytes(bytes: Seq<u8>) -> bool {
    &&& bytes.len() == 16
    &&& bytes[6] / 16 == 4
    &&& bytes[8] / 64 == 2
}

/// The characters of `s` other than `-`, in order.
pub open spec fn without_hyphens(s: Seq<char>) -> Seq<char> {
    s.filter(|c: char| c != '-')
}

/// Calls `Uuid::new_v4` and takes its bytes. The bytes are random; the crate
/// sets the version nibble to 4 and the variant bits to `10`, which is what
/// the contract states.
#[verifier::external_body]
fn uuid_new_v4_bytes() -> (bytes: [u8; 16])
    ensures
        is_v4_bytes(bytes@),
{
    Uuid::new_v4().into_bytes()
}

/// Calls `Uuid::to_string` (its `Display`) on the UUID made of `bytes`, which
/// writes the lowercase hyphenated form.
#[verifier::external_body]
fn uuid_hyphenated(bytes: [u8; 16]) -> (text: String)
    ensures
        text@ == hyphenated_text(bytes@),
{
    Uuid::from_bytes(bytes).to_string()
}

/// Calls `String::push`.
#[verifier::external_body]
fn push_char(s: &mut String, c: char)
    ensures
        final(s)@ == old(s)@.push(c),
{
    s.push(c)
}

/// `s` with every `-` removed.
pub fn remove_hyphens(s: &str) -> (out: String)
    ensures
        out@ == without_hyphens(s@),
{
    let n = s.unicode_len();
    let mut out = String::new();
    let mut i: usize = 0;
    while i < n
        invariant
            n == s@.len(),
            i <= n,
            out@ == without_hyphens(s@.take(i as int)),
        decreases n - i,
    {
        let c = s.get_char(i);
        proof {
            assert(s@.take(i + 1) == s@.take(i as int).push(c));
            s@.take(i as int).lemma_filter_push(c, |c: char| c != '-');
        }
        if c != '-' {
            push_char(&mut out, c);
        }
        i = i + 1;
    }
    assert(s@.take(n as int) == s@);
    out
}

/// A fresh random (version 4) UUID written as 32 lowercase hexadecimal
/// digits, without the `-` separators.
pub fn unique_id() -> (id: String)
    ensures
        exists|bytes: Seq<u8>| is_v4_bytes(bytes) && id@ == simple_text(bytes),
{
    let bytes = uuid_new_v4_bytes();
    id_from_uuid_bytes(bytes)
}

/// The identifier for the UUID made of `bytes`: its 32 lowercase
/// hexadecimal digits, without the `-` separators.
pub fn id_from_uuid_bytes(bytes: [u8; 16]) -> (id: String)
    ensures
        id@ == simple_text(bytes@),
{
    let text = uuid_hyphenated(bytes);
    let id = remove_hyphens(text.as_str());
    proof {
        lemma_hyphenated_without_hyphens(bytes@);
    }
    id
}

/// Distinct hexadecimal digit values have distinct digits.
proof fn lemma_hex_digit_injective(d1: int, d2: int)
    requires
        0 <= d1 < 16,
        0 <= d2 < 16,
        hex_digits()[d1] == hex_digits()[d2],
    ensures
        d1 == d2,
{
    let h = hex_digits();
    assert(h[0] == '0' && h[1] == '1' && h[2] == '2' && h[3] == '3' && h[4] == '4' && h[5] == '5'
        && h[6] == '6' && h[7] == '7' && h[8] == '8' && h[9] == '9' && h[10] == 'a' && h[11] == 'b'
        && h[12] == 'c' && h[13] == 'd' && h[14] == 'e' && h[15] == 'f');
}

/// Different 16-byte values give different identifiers: the 32-digit form
/// of a UUID determines its bytes.
pub proof fn lemma_distinct_bytes_distinct_ids(a: Seq<u8>, b: Seq<u8>)
    requires
        a.len() == 16,
        b.len() == 16,
        a != b,
    ensures
        simple_text(a) != simple_text(b),
{
    if simple_text(a) == simple_text(b) {
        assert forall|i: int| 0 <= i < 16 implies a[i] == b[i] by {
            assert(simple_text(a)[2 * i] == simple_text(b)[2 * i]);
            assert(simple_text(a)[2 * i + 1] == simple_text(b)[2 * i + 1]);
            assert((2 * i) % 2 == 0 && (2 * i) / 2 == i);
            assert((2 * i + 1) % 2 == 1 && (2 * i + 1) / 2 == i);
            lemma_hex_digit_injective((a[i] / 16) as int, (b[i] / 16) as int);
            lemma_hex_digit_injective((a[i] % 16) as int, (b[i] % 16) as int);
            assert(a[i] == (a[i] / 16) * 16 + a[i] % 16);
            assert(b[i] == (b[i] / 16) * 16 + b[i] % 16);
        }
        assert(a =~= b);
    }
}

/// A sequence free of `-` is unchanged by removing hyphens.
proof fn lemma_no_hyphen_unchanged(s: Seq<char>)
    requires
        forall|i: int| 0 <= i < s.len() ==> s[i] != '-',
    ensures
        without_hyphens(s) == s,
    decreases s.len(),
{
    if s.len() > 0 {
        let prefix = s.drop_last();
        lemma_no_hyphen_unchanged(prefix);
        prefix.lemma_filter_push(s.last(), |c: char| c != '-');
        assert(prefix.push(s.last()) == s);
    } else {
        assert(s.filter(|c: char| c != '-') == s);
    }
}

/// Removing the hyphens from the hyphenated form of a UUID gives its simple
/// 32-digit form.
pub proof fn lemma_hyphenated_without_hyphens(bytes: Seq<u8>)
    requires
        bytes.len() == 16,
    ensures
        without_hyphens(hyphenated_text(bytes)) == simple_text(bytes),
{
    let s = simple_text(bytes);
    let pred = |c: char| c != '-';
    assert forall|i: int| 0 <= i < s.len() implies s[i] != '-' by {
        let d = if i % 2 == 0 { bytes[i / 2] / 16 } else { bytes[i / 2] % 16 };
        assert(0 <= d < 16);
        assert(hex_digits()[d as int] != '-');
    }
    let dash: Seq<char> = seq!['-'];
    assert(dash.filter(pred) == Seq::<char>::empty()) by {
        Seq::<char>::empty().lemma_filter_push('-', pred);
        assert(Seq::<char>::empty().push('-') == dash);
        assert(Seq::<char>::empty().filter(pred) == Seq::<char>::empty());
    }
    let a = s.subrange(0, 8);
    let b = s.subrange(8, 12);
    let c = s.subrange(12, 16);
    let d = s.subrange(16, 20);
    let e = s.subrange(20, 32);
    lemma_no_hyphen_unchanged(a);
    lemma_no_hyphen_unchanged(b);
    lemma_no_hyphen_unchanged(c);
    lemma_no_hyphen_unchanged(d);
    lemma_no_hyphen_unchanged(e);
    broadcast use Seq::filter_distributes_over_add;
    assert(hyphenated_text(bytes) == a + dash + b + dash + c + dash + d + dash + e);
    assert(without_hyphens(hyphenated_text(bytes)) == a + b + c + d + e);
    assert(a + b + c + d + e == s);
}


/// Errors of the file helpers.
#[derive(Debug)]
pub enum CommonError {
    /// An error described by a message.
    CommmonError(String),
    /// An error reported by the operating system, with its text.
    IoError(String),
}

/// The text of the error for reading a file that does not exist.
pub open spec fn missing_file_text(path: Seq<char>) -> Seq<char> {
    "File "@ + path + " does not exist"@
}

/// The error `read_file` returns when `path` does not exist:
/// `File <path> does not exist`.
pub fn missing_file_error(path: &str) -> (e: CommonError)
    ensures
        e matches CommonError::CommmonError(msg) && msg@ == missing_file_text(path@),
{
    let mut msg = String::from_str("File ");
    msg.append(path);
    msg.append(" does not exist");
    CommonError::CommmonError(msg)
}

/// The address text reported for this host: the local address found, or
/// the loopback address `127.0.0.1` when none could be found.
pub fn local_ip_or_loopback(found: Option<String>) -> (ip: String)
    ensures
        match found {
            Some(addr) => ip@ == addr@,
            None => ip@ == "127.0.0.1"@,
        },
{
    match found {
        Some(addr) => addr,
        None => String::from_str("127.0.0.1"),
    }
}

} // verus!
