use vstd::prelude::*;

verus! {

/// ASCII carriage return, the terminator of every command.
pub const CR: u8 = 13;
/// ASCII `+`, the positive direction marker.
pub const PLUS: u8 = 43;
/// ASCII `-`, the negative direction marker.
pub const MINUS: u8 = 45;

/// `pat` occurs as a contiguous run somewhere in `hay`.
pub open spec fn contains(hay: Seq<u8>, pat: Seq<u8>) -> bool {
    exists|i: int| 0 <= i && i + pat.len() <= hay.len() && #[trigger] hay.subrange(i, i + pat.len()) == pat
}

/// Whether `pat` starts at index `at` of `hay`.
fn matches_at(hay: &[u8], pat: &[u8], at: usize) -> (r: bool)
    requires
        at + pat@.len() <= hay@.len(),
    ensures
        r == (hay@.subrange(at as int, at + pat@.len()) == pat@),
{
    let n: usize = hay.len();
    let mut j: usize = 0;
    while j < pat.len()
        invariant
            j <= pat@.len(),
            at + pat@.len() <= hay@.len(),
            n == hay@.len(),
            forall|k: int| 0 <= k < j ==> hay@[at + k] == pat@[k],
        decreases pat@.len() - j,
    {
        if hay[at + j] != pat[j] {
            assert(hay@.subrange(at as int, at + pat@.len())[j as int] != pat@[j as int]);
            return false;
        }
        j = j + 1;
    }
    assert(hay@.subrange(at as int, at + pat@.len()) =~= pat@);
    true
}

/// Byte-subsequence search: whether `pat` occurs contiguously in `hay`.
pub fn find_pattern(hay: &[u8], pat: &[u8]) -> (r: bool)
    ensures
        r == contains(hay@, pat@),
{
    if pat.len() > hay.len() {
        return false;
    }
    let last: usize = hay.len() - pat.len();
    let mut i: usize = 0;
    while i <= last
        invariant
            last + pat@.len() == hay@.len(),
            forall|k: int| 0 <= k < i ==> #[trigger] hay@.subrange(k, k + pat@.len()) != pat@,
        decreases last + 1 - i,
    {
        if matches_at(hay, pat, i) {
            return true;
        }
        if i == last {
            return false;
        }
        i = i + 1;
    }
    false
}

/// An ASCII decimal digit.
pub open spec fn is_digit(c: u8) -> bool {
    48 <= c <= 57
}

/// The number `code` stands whole at index `i` of `hay`: its digits are
/// there and no digit touches them on either side.
pub open spec fn code_at(hay: Seq<u8>, code: Seq<u8>, i: int) -> bool {
    &&& 0 <= i
    &&& i + code.len() <= hay.len()
    &&& hay.subrange(i, i + code.len()) == code
    &&& (i == 0 || !is_digit(hay[i - 1]))
    &&& (i + code.len() == hay.len() || !is_digit(hay[i + code.len()]))
}

/// The number `code` stands whole somewhere in `hay`; `2` does not stand
/// whole in `32` or in `128`.
pub open spec fn has_code(hay: Seq<u8>, code: Seq<u8>) -> bool {
    exists|i: int| #[trigger] code_at(hay, code, i)
}

/// Whether the number `code` stands whole in `hay`.
pub fn find_code(hay: &[u8], code: &[u8]) -> (r: bool)
    ensures
        r == has_code(hay@, code@),
{
    if code.len() > hay.len() {
        return false;
    }
    let last: usize = hay.len() - code.len();
    let mut i: usize = 0;
    while i <= last
        invariant
            last + code@.len() == hay@.len(),
            forall|k: int| 0 <= k < i ==> !#[trigger] code_at(hay@, code@, k),
        decreases last + 1 - i,
    {
        if matches_at(hay, code, i) && (i == 0 || !(48 <= hay[i - 1] && hay[i - 1] <= 57)) && (i
            == last || !(48 <= hay[i + code.len()] && hay[i + code.len()] <= 57)) {
            assert(code_at(hay@, code@, i as int));
            return true;
        }
        if i == last {
            return false;
        }
        i = i + 1;
    }
    false
}

/// ASCII decimal digits of `n`, most significant first, without leading zeros.
pub open spec fn decimal(n: nat) -> Seq<u8>
    decreases n,
{
    if n < 10 {
        seq![(48 + n) as u8]
    } else {
        decimal(n / 10).push((48 + n % 10) as u8)
    }
}

/// Magnitude of a step count.
pub open spec fn magnitude(steps: int) -> nat {
    if steps < 0 {
        (-steps) as nat
    } else {
        steps as nat
    }
}

/// A relative move of `steps`: sign, decimal magnitude, carriage return.
pub open spec fn relative_bytes(steps: int) -> Seq<u8> {
    seq![if steps < 0 { MINUS } else { PLUS }] + decimal(magnitude(steps)) + seq![CR]
}

/// ASCII decimal digits of `n`.
pub fn decimal_digits(n: u64) -> (r: Vec<u8>)
    ensures
        r@ == decimal(n as nat),
{
    let mut m: u64 = n;
    let mut digits: Vec<u8> = Vec::new();
    while m >= 10
        invariant
            decimal(n as nat) == decimal(m as nat) + digits@,
        decreases m,
    {
        let d: u8 = (m % 10) as u8;
        assert(decimal(m as nat) == decimal((m / 10) as nat).push((48 + m % 10) as u8));
        assert(decimal(m as nat) + digits@ =~= decimal((m / 10) as nat) + digits@.insert(0, (48 + d) as u8));
        digits.insert(0, 48 + d);
        m = m / 10;
    }
    let d: u8 = m as u8;
    digits.insert(0, 48 + d);
    assert(decimal(n as nat) =~= digits@);
    digits
}

/// The relative-move command for `steps`: `+N\r` or `-N\r`.
pub fn relative_command(steps: i64) -> (r: Vec<u8>)
    ensures
        r@ == relative_bytes(steps as int),
{
    let mut r: Vec<u8> = Vec::new();
    if steps < 0 {
        r.push(MINUS);
    } else {
        r.push(PLUS);
    }
    let size: u64 = if steps < 0 {
        (-(steps as i128)) as u64
    } else {
        steps as u64
    };
    let mut digits: Vec<u8> = decimal_digits(size);
    r.append(&mut digits);
    r.push(CR);
    assert(r@ =~= relative_bytes(steps as int));
    r
}

// The command set. Each spec function gives the exact bytes; the executable
// function of the same stem builds them.

/// Identification probe ` \r`.
pub open spec fn probe_bytes() -> Seq<u8> {
    seq![32, CR]
}

/// Identification reply of firmware that has not been initialised: ` v2.55\r\n#\r\n`.
pub open spec fn uninitialized_reply_bytes() -> Seq<u8> {
    seq![32, 118, 50, 46, 53, 53, CR, 10, 35, CR, 10]
}

/// Identification reply of firmware that is already initialised: ` #\r\n`.
pub open spec fn initialized_reply_bytes() -> Seq<u8> {
    seq![32, 35, CR, 10]
}

/// Limit-switch status query `]\r`.
pub open spec fn limit_status_bytes() -> Seq<u8> {
    seq![93, CR]
}

/// Motion status query `^\r`.
pub open spec fn motion_status_bytes() -> Seq<u8> {
    seq![94, CR]
}

/// Enable the homing circuit: `A1\r`.
pub open spec fn homing_on_bytes() -> Seq<u8> {
    seq![65, 49, CR]
}

/// Disable the homing circuit: `A0\r`.
pub open spec fn homing_off_bytes() -> Seq<u8> {
    seq![65, 48, CR]
}

/// Enable the high-accuracy circuit: `A24\r`.
pub open spec fn high_accuracy_bytes() -> Seq<u8> {
    seq![65, 50, 52, CR]
}

/// Constant-velocity motion at 23 kHz: `M+23000\r` upwards, `M-23000\r` downwards.
pub open spec fn scan_bytes(upward: bool) -> Seq<u8> {
    seq![77, if upward { PLUS } else { MINUS }, 50, 51, 48, 48, 48, CR]
}

/// Soft stop `@\r`.
pub open spec fn soft_stop_bytes() -> Seq<u8> {
    seq![64, CR]
}

/// Slow edge-find at 1000 steps per second: `F1000,0\r`.
pub open spec fn edge_find_bytes() -> Seq<u8> {
    seq![70, 49, 48, 48, 48, 44, 48, CR]
}

/// Steps in three motor revolutions, backed off after the home flag is found.
pub const BACK_OFF_STEPS: i64 = -108000;
/// Steps in two motor revolutions, advanced after backing off.
pub const ADVANCE_STEPS: i64 = 72000;

pub fn probe() -> (r: Vec<u8>)
    ensures
        r@ == probe_bytes(),
{
    let r: Vec<u8> = vec![32, CR];
    assert(r@ =~= probe_bytes());
    r
}

pub fn uninitialized_reply() -> (r: Vec<u8>)
    ensures
        r@ == uninitialized_reply_bytes(),
{
    let r: Vec<u8> = vec![32, 118, 50, 46, 53, 53, CR, 10, 35, CR, 10];
    assert(r@ =~= uninitialized_reply_bytes());
    r
}

pub fn initialized_reply() -> (r: Vec<u8>)
    ensures
        r@ == initialized_reply_bytes(),
{
    let r: Vec<u8> = vec![32, 35, CR, 10];
    assert(r@ =~= initialized_reply_bytes());
    r
}

pub fn limit_status() -> (r: Vec<u8>)
    ensures
        r@ == limit_status_bytes(),
{
    let r: Vec<u8> = vec![93, CR];
    assert(r@ =~= limit_status_bytes());
    r
}

pub fn motion_status() -> (r: Vec<u8>)
    ensures
        r@ == motion_status_bytes(),
{
    let r: Vec<u8> = vec![94, CR];
    assert(r@ =~= motion_status_bytes());
    r
}

pub fn homing_on() -> (r: Vec<u8>)
    ensures
        r@ == homing_on_bytes(),
{
    let r: Vec<u8> = vec![65, 49, CR];
    assert(r@ =~= homing_on_bytes());
    r
}

pub fn homing_off() -> (r: Vec<u8>)
    ensures
        r@ == homing_off_bytes(),
{
    let r: Vec<u8> = vec![65, 48, CR];
    assert(r@ =~= homing_off_bytes());
    r
}

pub fn high_accuracy() -> (r: Vec<u8>)
    ensures
        r@ == high_accuracy_bytes(),
{
    let r: Vec<u8> = vec![65, 50, 52, CR];
    assert(r@ =~= high_accuracy_bytes());
    r
}

pub fn scan(upward: bool) -> (r: Vec<u8>)
    ensures
        r@ == scan_bytes(upward),
{
    let sign: u8 = if upward { PLUS } else { MINUS };
    let r: Vec<u8> = vec![77, sign, 50, 51, 48, 48, 48, CR];
    assert(r@ =~= scan_bytes(upward));
    r
}

pub fn soft_stop() -> (r: Vec<u8>)
    ensures
        r@ == soft_stop_bytes(),
{
    let r: Vec<u8> = vec![64, CR];
    assert(r@ =~= soft_stop_bytes());
    r
}

pub fn edge_find() -> (r: Vec<u8>)
    ensures
        r@ == edge_find_bytes(),
{
    let r: Vec<u8> = vec![70, 49, 48, 48, 48, 44, 48, CR];
    assert(r@ =~= edge_find_bytes());
    r
}

// Status replies. A reply is read as a set of whole numeric codes: the codes
// `0` and `2` (off any limit, stationary or moving), `32` and `34` (home flag
// blocked, stationary or moving), `64` and `128` (extreme negative or positive
// limit). A `+` or `-` anywhere in the reply makes every code in it void.

/// The reply holds a `+` or a `-`.
pub open spec fn has_direction_marker(b: Seq<u8>) -> bool {
    contains(b, seq![PLUS]) || contains(b, seq![MINUS])
}

/// Off any limit switch (code 0 or 2).
pub open spec fn off_limit(b: Seq<u8>) -> bool {
    !has_direction_marker(b) && (has_code(b, seq![48u8]) || has_code(b, seq![50u8]))
}

/// At the home flag (code 32 or 34).
pub open spec fn home_flag_reached(b: Seq<u8>) -> bool {
    !has_direction_marker(b) && (has_code(b, seq![51u8, 50u8]) || has_code(b, seq![51u8, 52u8]))
}

/// At an extreme travel limit (code 64 or 128).
pub open spec fn extreme_limit(b: Seq<u8>) -> bool {
    !has_direction_marker(b) && (has_code(b, seq![54u8, 52u8]) || has_code(
        b,
        seq![49u8, 50u8, 56u8],
    ))
}

/// Stationary and off any limit (code 0). Anything else counts as motion.
pub open spec fn stationary(b: Seq<u8>) -> bool {
    !has_direction_marker(b) && has_code(b, seq![48u8])
}

/// Where the stage stands before homing, read from a limit-status reply.
#[derive(Clone, Copy, Debug, PartialEq, Eq, Structural)]
pub enum StatusCode {
    /// Code 0: off any limit, home flag clear.
    OffLimit,
    /// Code 32: the home flag is blocked.
    HomeFlagBlocked,
    /// No code, another code, or a code voided by a direction marker.
    Unknown,
}

pub open spec fn status_of(b: Seq<u8>) -> StatusCode {
    if has_direction_marker(b) {
        StatusCode::Unknown
    } else if has_code(b, seq![51u8, 50u8]) {
        StatusCode::HomeFlagBlocked
    } else if has_code(b, seq![48u8]) {
        StatusCode::OffLimit
    } else {
        StatusCode::Unknown
    }
}

fn has1(reply: &[u8], a: u8) -> (r: bool)
    ensures
        r == contains(reply@, seq![a]),
{
    let pat: Vec<u8> = vec![a];
    assert(pat@ =~= seq![a]);
    find_pattern(reply, pat.as_slice())
}

fn code1(reply: &[u8], a: u8) -> (r: bool)
    ensures
        r == has_code(reply@, seq![a]),
{
    let pat: Vec<u8> = vec![a];
    assert(pat@ =~= seq![a]);
    find_code(reply, pat.as_slice())
}

fn code2(reply: &[u8], a: u8, b: u8) -> (r: bool)
    ensures
        r == has_code(reply@, seq![a, b]),
{
    let pat: Vec<u8> = vec![a, b];
    assert(pat@ =~= seq![a, b]);
    find_code(reply, pat.as_slice())
}

fn code3(reply: &[u8], a: u8, b: u8, c: u8) -> (r: bool)
    ensures
        r == has_code(reply@, seq![a, b, c]),
{
    let pat: Vec<u8> = vec![a, b, c];
    assert(pat@ =~= seq![a, b, c]);
    find_code(reply, pat.as_slice())
}

pub fn has_marker(reply: &[u8]) -> (r: bool)
    ensures
        r == has_direction_marker(reply@),
{
    let plus: bool = has1(reply, PLUS);
    let minus: bool = has1(reply, MINUS);
    plus || minus
}

pub fn is_off_limit(reply: &[u8]) -> (r: bool)
    ensures
        r == off_limit(reply@),
{
    !has_marker(reply) && (code1(reply, 48) || code1(reply, 50))
}

pub fn is_home_flag_reached(reply: &[u8]) -> (r: bool)
    ensures
        r == home_flag_reached(reply@),
{
    !has_marker(reply) && (code2(reply, 51, 50) || code2(reply, 51, 52))
}

pub fn is_extreme_limit(reply: &[u8]) -> (r: bool)
    ensures
        r == extreme_limit(reply@),
{
    !has_marker(reply) && (code2(reply, 54, 52) || code3(reply, 49, 50, 56))
}

pub fn is_stationary(reply: &[u8]) -> (r: bool)
    ensures
        r == stationary(reply@),
{
    !has_marker(reply) && code1(reply, 48)
}

impl StatusCode {
    /// Classifies a limit-status reply for the choice of homing direction.
    pub fn classify(reply: &[u8]) -> (r: StatusCode)
        ensures
            r == status_of(reply@),
            has_direction_marker(reply@) ==> r == StatusCode::Unknown,
    {
        if has_marker(reply) {
            StatusCode::Unknown
        } else if code2(reply, 51, 50) {
            StatusCode::HomeFlagBlocked
        } else if code1(reply, 48) {
            StatusCode::OffLimit
        } else {
            StatusCode::Unknown
        }
    }
}

} // verus!
