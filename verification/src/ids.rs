use vstd::prelude::*;
use vstd::string::*;
use vstd::arithmetic::power::pow;

verus! {

/// Name for what `uuid::Uuid::parse_str` makes of a string: the parsed UUID's
/// 128-bit value, or `None` when the string is not a UUID.
pub uninterp spec fn parsed_uuid(s: Seq<char>) -> Option<u128>;

/// The lowercase hexadecimal digit for `n`, from 0 to 15.
pub open spec fn hex_digit(n: int) -> char {
    if n < 10 {
        (48 + n) as char
    } else {
        (87 + n) as char
    }
}

/// The `k`-th of the 32 hexadecimal digits of `id`, most significant first.
pub open spec fn hex_digit_of(id: u128, k: int) -> char {
    hex_digit((id as int / pow(16, (31 - k) as nat)) % 16)
}

/// Which of the 32 digits the hyphenated text shows at its position `i`.
pub open spec fn digit_at(i: int) -> int {
    if i < 8 {
        i
    } else if i < 13 {
        i - 1
    } else if i < 18 {
        i - 2
    } else if i < 23 {
        i - 3
    } else {
        i - 4
    }
}

/// The hyphenated lowercase text of a UUID with this 128-bit value: its 32
/// hexadecimal digits, most significant first, in groups of 8, 4, 4, 4 and 12
/// separated by hyphens.
pub open spec fn uuid_text(id: u128) -> Seq<char> {
    Seq::new(36, |i: int| if i == 8 || i == 13 || i == 18 || i == 23 { '-' } else { hex_digit_of(id, digit_at(i)) })
}

/// Calls `uuid::Uuid::parse_str`. Claimed: the result is `parsed_uuid` of the
/// input, and (as `try_parse` in uuid's parser shows) input whose UTF-8
/// length is not 32, 36, 38 or 45 bytes is never a UUID. Which strings of
/// those lengths parse is not stated.
#[verifier::external_body]
pub(crate) fn parse_uuid(s: &str) -> (r: Option<u128>)
    ensures
        r == parsed_uuid(s@),
        !(s.spec_bytes().len() == 32 || s.spec_bytes().len() == 36 || s.spec_bytes().len() == 38
            || s.spec_bytes().len() == 45) ==> r is None,
{
    match uuid::Uuid::parse_str(s) {
        Ok(u) => Some(u.as_u128()),
        Err(_) => None,
    }
}

/// Calls `to_string` on the `uuid::Uuid` made by `Uuid::from_u128(id)`. Claimed:
/// the result is `uuid_text(id)`. In uuid's source, `from_u128` takes the value's
/// big-endian bytes and `Display` writes the hyphenated lowercase form
/// (`format_hyphenated`).
#[verifier::external_body]
pub(crate) fn uuid_to_string(id: u128) -> (r: String)
    ensures
        r@ == uuid_text(id),
{
    uuid::Uuid::from_u128(id).to_string()
}

/// Where the `k`-th of the 32 digits stands in the hyphenated text: one place
/// further for each group of digits before it.
pub open spec fn text_position(k: int) -> int {
    k + (if k >= 8 { 1int } else { 0int }) + (if k >= 12 { 1int } else { 0int })
        + (if k >= 16 { 1int } else { 0int }) + (if k >= 20 { 1int } else { 0int })
}

/// The hyphenated text of a UUID has 36 characters: hyphens at positions 8, 13,
/// 18 and 23, and at the others its 32 hexadecimal digits in lowercase, most
/// significant first: the digit at the `k`-th of those positions has the value of
/// the `k`-th digit of the id.
pub proof fn lemma_uuid_text(id: u128)
    ensures
        uuid_text(id).len() == 36,
        uuid_text(id)[8] == '-' && uuid_text(id)[13] == '-' && uuid_text(id)[18] == '-' && uuid_text(id)[23] == '-',
        forall|k: int| 0 <= k < 32 ==> {
            let c = #[trigger] uuid_text(id)[text_position(k)];
            let v = (id as int / pow(16, (31 - k) as nat)) % 16;
            &&& (v < 10 ==> c == ((48 + v) as char))
            &&& (v >= 10 ==> c == ((97 + (v - 10)) as char))
        },
{
    assert forall|k: int| 0 <= k < 32 implies {
        let c = #[trigger] uuid_text(id)[text_position(k)];
        let v = (id as int / pow(16, (31 - k) as nat)) % 16;
        &&& (v < 10 ==> c == ((48 + v) as char))
        &&& (v >= 10 ==> c == ((97 + (v - 10)) as char))
    } by {
        let i = text_position(k);
        assert(0 <= i < 36);
        assert(i != 8 && i != 13 && i != 18 && i != 23);
        assert(digit_at(i) == k);
    }
}

} // verus!
