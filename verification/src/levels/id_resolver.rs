use vstd::prelude::*;
use vstd::string::*;

verus! {

/// Why a decimal integer could not be read; the same four outcomes as the
/// standard library's integer parser.
#[derive(Debug, Clone, Copy, PartialEq, Eq, Structural)]
pub enum IntErrorKind {
    Empty,
    InvalidDigit,
    PosOverflow,
    NegOverflow,
}

/// The text the standard library prints for a failed integer parse.
pub open spec fn int_error_text(kind: IntErrorKind) -> Seq<char> {
    match kind {
        IntErrorKind::Empty => "cannot parse integer from empty string"@,
        IntErrorKind::InvalidDigit => "invalid digit found in string"@,
        IntErrorKind::PosOverflow => "number too large to fit in target type"@,
        IntErrorKind::NegOverflow => "number too small to fit in target type"@,
    }
}

impl IntErrorKind {
    /// The text the standard library prints for this error.
    pub fn description(&self) -> (r: &'static str)
        ensures
            r@ == int_error_text(*self),
    {
        match self {
            IntErrorKind::Empty => "cannot parse integer from empty string",
            IntErrorKind::InvalidDigit => "invalid digit found in string",
            IntErrorKind::PosOverflow => "number too large to fit in target type",
            IntErrorKind::NegOverflow => "number too small to fit in target type",
        }
    }
}

pub open spec fn is_digit_byte(b: u8) -> bool {
    48 <= b && b <= 57
}

/// Value of a sequence of decimal digit bytes, most significant first.
pub open spec fn decimal_value(s: Seq<u8>) -> int
    decreases s.len(),
{
    if s.len() == 0 {
        0
    } else {
        decimal_value(s.drop_last()) * 10 + (s.last() - 48)
    }
}

/// `k` is the length of the run of digits that `d` starts with.
pub open spec fn is_digit_run(d: Seq<u8>, k: int) -> bool {
    &&& 0 <= k <= d.len()
    &&& forall|j: int| 0 <= j < k ==> is_digit_byte(#[trigger] d[j])
    &&& (k == d.len() || !is_digit_byte(d[k]))
}

/// Largest magnitude an `i32` can hold with the given sign.
pub open spec fn i32_magnitude_bound(negative: bool) -> int {
    if negative {
        2147483648
    } else {
        2147483647
    }
}

/// Reading the digits that follow the sign: the value of the leading run of
/// digits decides overflow; otherwise any byte after that run is an invalid digit.
pub open spec fn spec_parse_magnitude(d: Seq<u8>, negative: bool) -> Result<i32, IntErrorKind> {
    let k = choose|k: int| is_digit_run(d, k);
    let v = decimal_value(d.take(k));
    if v > i32_magnitude_bound(negative) {
        Err(if negative { IntErrorKind::NegOverflow } else { IntErrorKind::PosOverflow })
    } else if k < d.len() {
        Err(IntErrorKind::InvalidDigit)
    } else {
        Ok((if negative { -v } else { v }) as i32)
    }
}

/// A decimal `i32`: an optional `+` or `-` followed by digits only.
pub open spec fn spec_parse_i32(b: Seq<u8>) -> Result<i32, IntErrorKind> {
    if b.len() == 0 {
        Err(IntErrorKind::Empty)
    } else if b.len() == 1 && (b[0] == 43u8 || b[0] == 45u8) {
        Err(IntErrorKind::InvalidDigit)
    } else if b[0] == 43u8 {
        spec_parse_magnitude(b.drop_first(), false)
    } else if b[0] == 45u8 {
        spec_parse_magnitude(b.drop_first(), true)
    } else {
        spec_parse_magnitude(b, false)
    }
}

/// The bytes end with `_2p`, the marker of a two-player level.
pub open spec fn has_two_player_suffix(b: Seq<u8>) -> bool {
    b.len() >= 3 && b[b.len() - 3] == 95u8 && b[b.len() - 2] == 50u8 && b[b.len() - 1] == 112u8
}

/// A Geometry Dash level id, optionally followed by `_2p`.
pub open spec fn spec_parse_gd_id(b: Seq<u8>) -> Result<(i32, bool), IntErrorKind> {
    if has_two_player_suffix(b) {
        match spec_parse_i32(b.subrange(0, b.len() - 3)) {
            Ok(id) => Ok((id, true)),
            Err(e) => Err(e),
        }
    } else {
        match spec_parse_i32(b) {
            Ok(id) => Ok((id, false)),
            Err(e) => Err(e),
        }
    }
}

proof fn lemma_value_nonneg(s: Seq<u8>)
    requires
        forall|j: int| 0 <= j < s.len() ==> is_digit_byte(#[trigger] s[j]),
    ensures
        decimal_value(s) >= 0,
    decreases s.len(),
{
    if s.len() > 0 {
        lemma_value_nonneg(s.drop_last());
    }
}

/// Longer runs of digits never have a smaller value.
proof fn lemma_value_monotone(d: Seq<u8>, j: int, k: int)
    requires
        0 <= j <= k <= d.len(),
        forall|i: int| 0 <= i < k ==> is_digit_byte(#[trigger] d[i]),
    ensures
        decimal_value(d.take(j)) <= decimal_value(d.take(k)),
    decreases k - j,
{
    if j < k {
        lemma_value_monotone(d, j, k - 1);
        assert(d.take(k).drop_last() =~= d.take(k - 1));
        lemma_value_nonneg(d.take(k - 1));
    }
}

proof fn lemma_digit_run_exists(d: Seq<u8>, i: int) -> (k: int)
    requires
        0 <= i <= d.len(),
        forall|j: int| 0 <= j < i ==> is_digit_byte(#[trigger] d[j]),
    ensures
        is_digit_run(d, k),
        i <= k,
    decreases d.len() - i,
{
    if i == d.len() || !is_digit_byte(d[i]) {
        i
    } else {
        lemma_digit_run_exists(d, i + 1)
    }
}

proof fn lemma_digit_run_unique(d: Seq<u8>, k1: int, k2: int)
    requires
        is_digit_run(d, k1),
        is_digit_run(d, k2),
    ensures
        k1 == k2,
{
    if k1 < k2 {
        assert(is_digit_byte(d[k1]));
    }
    if k2 < k1 {
        assert(is_digit_byte(d[k2]));
    }
}

/// Only digits are read as a magnitude.
proof fn lemma_magnitude_ok_all_digits(d: Seq<u8>, negative: bool)
    ensures
        spec_parse_magnitude(d, negative) is Ok ==> forall|j: int| 0 <= j < d.len() ==> is_digit_byte(#[trigger] d[j]),
{
    let k0 = lemma_digit_run_exists(d, 0);
    let k = choose|k: int| is_digit_run(d, k);
    lemma_digit_run_unique(d, k, k0);
}

/// An accepted level id is an optional sign followed by at least one digit and
/// nothing else, before the optional `_2p` marker.
pub proof fn lemma_accepted_id_is_decimal(b: Seq<u8>)
    ensures
        spec_parse_i32(b) is Ok ==> {
            let start: int = if b[0] == 43u8 || b[0] == 45u8 { 1 } else { 0 };
            &&& start < b.len()
            &&& forall|j: int| start <= j < b.len() ==> is_digit_byte(#[trigger] b[j])
        },
{
    if b.len() > 0 {
        if b[0] == 43u8 || b[0] == 45u8 {
            lemma_magnitude_ok_all_digits(b.drop_first(), b[0] == 45u8);
            if spec_parse_i32(b) is Ok {
                assert forall|j: int| 1 <= j < b.len() implies is_digit_byte(#[trigger] b[j]) by {
                    assert(b.drop_first()[j - 1] == b[j]);
                }
            }
        } else {
            lemma_magnitude_ok_all_digits(b, false);
        }
    }
}

/// An accepted number is the value of its digits, negated after a `-`: the
/// digits after an optional sign, read in decimal, give exactly the number.
pub proof fn lemma_accepted_id_value(b: Seq<u8>)
    ensures
        spec_parse_i32(b) matches Ok(v) ==> {
            let negative = b[0] == 45u8;
            let digits = if b[0] == 43u8 || b[0] == 45u8 { b.drop_first() } else { b };
            v == (if negative { -decimal_value(digits) } else { decimal_value(digits) })
        },
{
    if b.len() > 0 {
        let negative = b[0] == 45u8;
        let digits = if b[0] == 43u8 || b[0] == 45u8 { b.drop_first() } else { b };
        if spec_parse_i32(b) is Ok && !(b.len() == 1 && (b[0] == 43u8 || b[0] == 45u8)) {
            lemma_magnitude_ok_all_digits(digits, negative);
            assert(is_digit_run(digits, digits.len() as int));
            lemma_digit_run_unique(digits, digits.len() as int, choose|k: int| is_digit_run(digits, k));
            assert(digits.take(digits.len() as int) =~= digits);
            lemma_value_nonneg(digits);
        }
    }
}

/// `d` is a non-empty run of decimal digits.
pub open spec fn all_digits(d: Seq<u8>) -> bool {
    d.len() >= 1 && forall|j: int| 0 <= j < d.len() ==> is_digit_byte(#[trigger] d[j])
}

/// The digits an id gives after its optional sign.
pub open spec fn unsigned_part(b: Seq<u8>) -> Seq<u8> {
    if b.len() > 0 && (b[0] == 43u8 || b[0] == 45u8) { b.drop_first() } else { b }
}

/// Digits alone (after an optional sign) are accepted exactly when their value
/// fits: up to 2147483647, or 2147483648 after a `-`; beyond that the error is an
/// overflow in the direction of the sign. An empty input is the empty error.
pub proof fn lemma_digits_fit_or_overflow(b: Seq<u8>)
    ensures
        b.len() == 0 ==> spec_parse_i32(b) == Err::<i32, IntErrorKind>(IntErrorKind::Empty),
        all_digits(unsigned_part(b)) && decimal_value(unsigned_part(b)) <= (if b[0] == 45u8 { 2147483648int } else { 2147483647int })
            ==> spec_parse_i32(b) is Ok,
        all_digits(unsigned_part(b)) && decimal_value(unsigned_part(b)) > (if b[0] == 45u8 { 2147483648int } else { 2147483647int })
            ==> spec_parse_i32(b) == Err::<i32, IntErrorKind>(if b[0] == 45u8 { IntErrorKind::NegOverflow } else { IntErrorKind::PosOverflow }),
{
    if b.len() > 0 {
        let signed = b[0] == 43u8 || b[0] == 45u8;
        let negative = b[0] == 45u8;
        let digits = unsigned_part(b);
        if all_digits(digits) {
            assert(is_digit_run(digits, digits.len() as int));
            lemma_digit_run_unique(digits, digits.len() as int, choose|k: int| is_digit_run(digits, k));
            assert(digits.take(digits.len() as int) =~= digits);
            if !signed {
                assert(is_digit_byte(digits[0]));
            } else {
                assert(b.len() >= 2);
            }
            assert(spec_parse_i32(b) == spec_parse_magnitude(digits, negative));
        }
    }
}

/// Appending `_2p` to an id names the two-player version of the same level: the
/// id reads as it did alone, marked two-player, and fails as it did alone.
pub proof fn lemma_two_player_suffix(b: Seq<u8>)
    ensures
        spec_parse_gd_id(b + seq![95u8, 50u8, 112u8]) == match spec_parse_i32(b) {
            Ok(id) => Ok((id, true)),
            Err(e) => Err::<(i32, bool), IntErrorKind>(e),
        },
{
    let t = b + seq![95u8, 50u8, 112u8];
    assert(t.subrange(0, t.len() - 3) =~= b);
    assert(has_two_player_suffix(t));
}

/// The decimal digits of `m`, most significant first, without leading zeros.
pub open spec fn decimal_digits(m: nat) -> Seq<u8>
    decreases m,
{
    if m < 10 {
        seq![(48 + m) as u8]
    } else {
        decimal_digits(m / 10).push((48 + m % 10) as u8)
    }
}

/// An `i32` written in decimal: a `-` for negative values, then the digits of
/// its magnitude.
pub open spec fn i32_decimal(n: i32) -> Seq<u8> {
    if n < 0 {
        seq![45u8] + decimal_digits((-n) as nat)
    } else {
        decimal_digits(n as nat)
    }
}

proof fn lemma_decimal_digits(m: nat)
    ensures
        decimal_digits(m).len() >= 1,
        forall|j: int| 0 <= j < decimal_digits(m).len() ==> is_digit_byte(#[trigger] decimal_digits(m)[j]),
        decimal_value(decimal_digits(m)) == m,
    decreases m,
{
    let d = decimal_digits(m);
    if m < 10 {
        assert(d.drop_last() =~= Seq::<u8>::empty());
        assert(decimal_value(d.drop_last()) == 0);
        assert(d.last() as int == 48 + m);
    } else {
        lemma_decimal_digits(m / 10);
        let p = decimal_digits(m / 10);
        assert(d == p.push((48 + m % 10) as u8));
        assert(d.drop_last() =~= p);
        assert forall|j: int| 0 <= j < d.len() implies is_digit_byte(#[trigger] d[j]) by {
            if j < p.len() {
                assert(d[j] == p[j]);
            }
        }
        assert((m / 10) * 10 + m % 10 == m) by (nonlinear_arith);
        assert(d.last() as int == 48 + m % 10);
        assert(decimal_value(d) == decimal_value(p) * 10 + (d.last() - 48));
    }
}

/// Digits only, of a value within the bound, read as that value.
proof fn lemma_magnitude_of_digits(d: Seq<u8>, negative: bool)
    requires
        d.len() >= 1,
        forall|j: int| 0 <= j < d.len() ==> is_digit_byte(#[trigger] d[j]),
        decimal_value(d) <= i32_magnitude_bound(negative),
    ensures
        spec_parse_magnitude(d, negative) == Ok::<i32, IntErrorKind>((if negative { -decimal_value(d) } else { decimal_value(d) }) as i32),
{
    assert(is_digit_run(d, d.len() as int));
    lemma_digit_run_unique(d, d.len() as int, choose|k: int| is_digit_run(d, k));
    assert(d.take(d.len() as int) =~= d);
}

/// Every `i32` written in decimal reads back as itself, as a one-player id, and
/// with `_2p` appended as the two-player id of the same number.
pub proof fn lemma_decimal_reads_back(n: i32)
    ensures
        spec_parse_i32(i32_decimal(n)) == Ok::<i32, IntErrorKind>(n),
        spec_parse_gd_id(i32_decimal(n)) == Ok::<(i32, bool), IntErrorKind>((n, false)),
        spec_parse_gd_id(i32_decimal(n) + seq![95u8, 50u8, 112u8]) == Ok::<(i32, bool), IntErrorKind>((n, true)),
{
    let b = i32_decimal(n);
    if n < 0 {
        let m = (-n) as nat;
        let d = decimal_digits(m);
        lemma_decimal_digits(m);
        assert(b.drop_first() =~= d);
        assert(b[0] == 45u8);
        assert(b.len() >= 2);
        lemma_magnitude_of_digits(d, true);
    } else {
        let d = decimal_digits(n as nat);
        lemma_decimal_digits(n as nat);
        assert(is_digit_byte(b[0]));
        lemma_magnitude_of_digits(d, false);
    }
    assert(is_digit_byte(b[b.len() - 1]));
    assert(!has_two_player_suffix(b));
    lemma_two_player_suffix(b);
}

/// Reads `b[lo..hi]` as the digits of a number with the given sign.
fn parse_magnitude(b: &[u8], lo: usize, hi: usize, negative: bool) -> (r: Result<i32, IntErrorKind>)
    requires
        lo <= hi <= b@.len(),
    ensures
        r == spec_parse_magnitude(b@.subrange(lo as int, hi as int), negative),
{
    let ghost d = b@.subrange(lo as int, hi as int);
    let bound: i64 = if negative { 2147483648 } else { 2147483647 };
    let mut acc: i64 = 0;
    let mut i: usize = lo;
    while i < hi
        invariant
            lo <= i <= hi <= b@.len(),
            d == b@.subrange(lo as int, hi as int),
            bound == i32_magnitude_bound(negative),
            forall|j: int| 0 <= j < i - lo ==> is_digit_byte(#[trigger] d[j]),
            acc == decimal_value(d.take(i - lo)),
            0 <= acc <= bound,
        decreases hi - i,
    {
        let c = b[i];
        if c < 48 || c > 57 {
            proof {
                assert(is_digit_run(d, i - lo));
                let k = choose|k: int| is_digit_run(d, k);
                lemma_digit_run_unique(d, k, i - lo);
            }
            return Err(IntErrorKind::InvalidDigit);
        }
        let next = acc * 10 + (c - 48) as i64;
        proof {
            assert(d.take(i + 1 - lo).drop_last() =~= d.take(i - lo));
            assert(d[i - lo] == c);
        }
        if next > bound {
            proof {
                let k = lemma_digit_run_exists(d, i + 1 - lo);
                lemma_digit_run_unique(d, k, choose|k: int| is_digit_run(d, k));
                lemma_value_monotone(d, i + 1 - lo, k);
            }
            return Err(if negative { IntErrorKind::NegOverflow } else { IntErrorKind::PosOverflow });
        }
        acc = next;
        i = i + 1;
    }
    proof {
        assert(is_digit_run(d, d.len() as int));
        lemma_digit_run_unique(d, d.len() as int, choose|k: int| is_digit_run(d, k));
        assert(d.take(d.len() as int) =~= d);
    }
    let v: i32 = if negative { (0 - acc) as i32 } else { acc as i32 };
    Ok(v)
}

/// Reads `b[0..end]` as a decimal `i32`.
fn parse_i32_prefix(b: &[u8], end: usize) -> (r: Result<i32, IntErrorKind>)
    requires
        end <= b@.len(),
    ensures
        r == spec_parse_i32(b@.subrange(0, end as int)),
{
    let ghost s = b@.subrange(0, end as int);
    if end == 0 {
        return Err(IntErrorKind::Empty);
    }
    let first = b[0];
    if end == 1 && (first == 43u8 || first == 45u8) {
        return Err(IntErrorKind::InvalidDigit);
    }
    proof {
        assert(s[0] == first);
        assert(s.drop_first() =~= b@.subrange(1, end as int));
    }
    if first == 43u8 {
        parse_magnitude(b, 1, end, false)
    } else if first == 45u8 {
        parse_magnitude(b, 1, end, true)
    } else {
        parse_magnitude(b, 0, end, false)
    }
}

/// Reads a Geometry Dash level id: a decimal `i32`, with a `_2p` suffix for the
/// two-player version of the level. Returns the id and whether it is two-player.
pub fn parse_gd_id(string: &str) -> (r: Result<(i32, bool), IntErrorKind>)
    ensures
        r == spec_parse_gd_id(string.spec_bytes()),
{
    let b = string.as_bytes();
    let n = b.len();
    if n >= 3 && b[n - 3] == 95u8 && b[n - 2] == 50u8 && b[n - 1] == 112u8 {
        match parse_i32_prefix(b, n - 3) {
            Ok(id) => Ok((id, true)),
            Err(e) => Err(e),
        }
    } else {
        proof {
            assert(b@.subrange(0, n as int) =~= b@);
        }
        match parse_i32_prefix(b, n) {
            Ok(id) => Ok((id, false)),
            Err(e) => Err(e),
        }
    }
}

} // verus!

verus! {

/// How a level is named in a request: by its internal UUID, or by its in-game id.
#[derive(Debug, Clone, Copy, PartialEq, Eq, Structural)]
pub enum LevelRef {
    Internal(u128),
    Game { level_id: i32, two_player: bool },
}

pub open spec fn spec_level_reference(
    parsed: Option<u128>,
    bytes: Seq<u8>,
) -> Result<LevelRef, IntErrorKind> {
    match parsed {
        Some(id) => Ok(LevelRef::Internal(id)),
        None => match spec_parse_gd_id(bytes) {
            Ok((level_id, two_player)) => Ok(LevelRef::Game { level_id, two_player }),
            Err(e) => Err(e),
        },
    }
}

/// Decides how `input` names a level, given what UUID parsing made of it:
/// a UUID names the level directly, anything else must be an in-game id.
pub fn level_reference_from(parsed: Option<u128>, input: &str) -> (r: Result<LevelRef, IntErrorKind>)
    ensures
        r == spec_level_reference(parsed, input.spec_bytes()),
{
    match parsed {
        Some(id) => Ok(LevelRef::Internal(id)),
        None => match parse_gd_id(input) {
            Ok((level_id, two_player)) => Ok(LevelRef::Game { level_id, two_player }),
            Err(e) => Err(e),
        },
    }
}

/// The message of a refused level id: the input and why it is no number.
pub fn parse_failure_message(input: &str, kind: IntErrorKind) -> (r: String)
    ensures
        r@ == "Failed to parse "@ + input@ + ": "@ + int_error_text(kind),
{
    let mut s = "Failed to parse ".to_owned();
    s.append(input);
    s.append(": ");
    s.append(kind.description());
    s
}

/// Decides how `input` names a level: tries it as a UUID first, then as an in-game id.
pub fn level_reference(input: &str) -> (r: Result<LevelRef, IntErrorKind>)
    ensures
        r == spec_level_reference(crate::ids::parsed_uuid(input@), input.spec_bytes()),
        input.spec_bytes().len() < 32 ==> r == spec_level_reference(None, input.spec_bytes()),
{
    let parsed = crate::ids::parse_uuid(input);
    level_reference_from(parsed, input)
}

/// A string that is a UUID names the level with that id; any other names the
/// level by its in-game id and two-player marker, or is refused with the reason
/// the id did not read.
pub proof fn lemma_level_reference(parsed: Option<u128>, bytes: Seq<u8>)
    ensures
        parsed matches Some(id) ==> spec_level_reference(parsed, bytes) == Ok::<LevelRef, IntErrorKind>(LevelRef::Internal(id)),
        parsed is None ==> match spec_parse_gd_id(bytes) {
            Ok((level_id, two_player)) => spec_level_reference(parsed, bytes) == Ok::<LevelRef, IntErrorKind>(LevelRef::Game { level_id, two_player }),
            Err(e) => spec_level_reference(parsed, bytes) == Err::<LevelRef, IntErrorKind>(e),
        },
{
}

/// A lone sign is an invalid digit; a byte that is no digit after the sign is an
/// invalid digit too, unless the digits before it already overflow.
pub proof fn lemma_invalid_digits(b: Seq<u8>, k: int)
    ensures
        (b.len() == 1 && (b[0] == 43u8 || b[0] == 45u8)) ==> spec_parse_i32(b) == Err::<i32, IntErrorKind>(IntErrorKind::InvalidDigit),
        ({
            let d = unsigned_part(b);
            (b.len() >= 2 || (b.len() == 1 && b[0] != 43u8 && b[0] != 45u8))
                && 0 <= k < d.len() && !is_digit_byte(d[k])
                && (forall|j: int| 0 <= j < k ==> is_digit_byte(#[trigger] d[j]))
                && decimal_value(d.take(k)) <= (if b[0] == 45u8 { 2147483648int } else { 2147483647int })
                ==> spec_parse_i32(b) == Err::<i32, IntErrorKind>(IntErrorKind::InvalidDigit)
        }),
{
    let d = unsigned_part(b);
    if (b.len() >= 2 || (b.len() == 1 && b[0] != 43u8 && b[0] != 45u8))
        && 0 <= k < d.len() && !is_digit_byte(d[k])
        && (forall|j: int| 0 <= j < k ==> is_digit_byte(#[trigger] d[j])) {
        assert(is_digit_run(d, k));
        lemma_digit_run_unique(d, k, choose|m: int| is_digit_run(d, m));
        assert(spec_parse_i32(b) == spec_parse_magnitude(d, b[0] == 45u8));
    }
}

} // verus!
