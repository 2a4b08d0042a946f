use vstd::prelude::*;

verus! {

/// Errors reported by cartridge parsing, mapper construction and snapshot
/// restoration.
#[derive(Debug, Clone, PartialEq, Eq)]
pub enum NesleError {
    InvalidRom(String),
    UnsupportedMapper(u16),
    InvalidState(String),
}

pub type Result<T> = core::result::Result<T, NesleError>;

/// `r` is an invalid-ROM error whose detail is exactly `msg`.
pub open spec fn is_rom_error<T>(r: Result<T>, msg: Seq<char>) -> bool {
    match r {
        Err(NesleError::InvalidRom(m)) => m@ == msg,
        _ => false,
    }
}

/// Append one character with std's `String::push`. Trusted: the string's
/// characters are claimed to gain `c` at the end, as std documents.
#[verifier::external_body]
pub(crate) fn push_char(s: &mut String, c: char)
    ensures
        final(s)@ == old(s)@.push(c),
{
    s.push(c)
}

/// The ASCII digit for `d` in 0..9.
pub open spec fn digit_char(d: nat) -> char {
    ((48 + d) as u8) as char
}

/// Decimal text of `n`: its digits, most significant first, with no
/// leading zeros ("0" for zero).
pub open spec fn decimal_digits(n: nat) -> Seq<char>
    decreases n,
{
    if n < 10 {
        seq![digit_char(n)]
    } else {
        decimal_digits(n / 10).push(digit_char(n % 10))
    }
}

/// Append the decimal text of `v` to `s`.
fn push_decimal(s: &mut String, v: u64)
    ensures
        final(s)@ == old(s)@ + decimal_digits(v as nat),
    decreases v,
{
    if v >= 10 {
        push_decimal(s, v / 10);
    }
    let d = (v % 10) as u8;
    push_char(s, (48u8 + d) as char);
    proof {
        if v >= 10 {
            assert(final(s)@ =~= old(s)@ + decimal_digits(v as nat));
        } else {
            assert(final(s)@ =~= old(s)@ + decimal_digits(v as nat));
        }
    }
}

/// Decimal text of `v`.
pub fn decimal_text(v: u64) -> (r: String)
    ensures
        r@ == decimal_digits(v as nat),
{
    let mut s = String::new();
    push_decimal(&mut s, v);
    assert(s@ =~= decimal_digits(v as nat));
    s
}

/// Decimal text of a mapper id.
fn u16_to_decimal(v: u16) -> (r: String)
    ensures
        r@ == decimal_digits(v as nat),
{
    decimal_text(v as u64)
}

/// Decimal text of an unsigned size.
pub(crate) fn usize_to_decimal(v: usize) -> (r: String)
    ensures
        r@ == decimal_digits(v as nat),
{
    decimal_text(v as u64)
}

/// `prefix` followed by `suffix`, as an invalid-state error.
pub fn state_error_with(prefix: &str, suffix: &str) -> (r: NesleError)
    ensures
        r matches NesleError::InvalidState(m) && m@ == prefix@ + suffix@,
{
    let s = String::from_str(prefix);
    NesleError::InvalidState(s.concat(suffix))
}

impl NesleError {
    /// Error for malformed ROM data, carrying the given explanation.
    pub fn invalid_rom(msg: &str) -> (r: Self)
        ensures
            r matches NesleError::InvalidRom(m) && m@ == msg@,
    {
        NesleError::InvalidRom(String::from_str(msg))
    }

    /// Error for a malformed snapshot, carrying the given explanation.
    pub fn invalid_state(msg: &str) -> (r: Self)
        ensures
            r matches NesleError::InvalidState(m) && m@ == msg@,
    {
        NesleError::InvalidState(String::from_str(msg))
    }

    /// Human-readable message: a category prefix followed by the detail.
    pub fn message(&self) -> (r: String)
        ensures
            self matches NesleError::InvalidRom(m) ==> r@ == "invalid ROM: "@ + m@,
            self matches NesleError::InvalidState(m) ==> r@ == "invalid state: "@ + m@,
            self matches NesleError::UnsupportedMapper(id) ==> r@ == "unsupported mapper: "@ + decimal_digits(id as nat),
    {
        match self {
            NesleError::InvalidRom(m) => {
                let s = String::from_str("invalid ROM: ");
                s.concat(m.as_str())
            },
            NesleError::UnsupportedMapper(id) => {
                let s = String::from_str("unsupported mapper: ");
                let d = u16_to_decimal(*id);
                s.concat(d.as_str())
            },
            NesleError::InvalidState(m) => {
                let s = String::from_str("invalid state: ");
                s.concat(m.as_str())
            },
        }
    }
}

} // verus!
