use vstd::prelude::*;
use vstd::string::StringExecFns;

verus! {

/// An identity as the host hands it over: most object kinds give text, a few give
/// a whole number.
#[derive(Clone, Debug, PartialEq, Eq)]
pub enum RawIdentity {
    Text(String),
    Number(u64),
    /// Neither text nor a number: the host broke its own contract.
    Other,
}

/// Why a raw identity has no canonical form.
#[derive(Clone, Copy, Debug, PartialEq, Eq, Structural)]
pub enum IdentityError {
    NotTextOrNumber,
}

/// The character of a decimal digit.
pub open spec fn digit_char(d: nat) -> char {
    if d == 0 {
        '0'
    } else if d == 1 {
        '1'
    } else if d == 2 {
        '2'
    } else if d == 3 {
        '3'
    } else if d == 4 {
        '4'
    } else if d == 5 {
        '5'
    } else if d == 6 {
        '6'
    } else if d == 7 {
        '7'
    } else if d == 8 {
        '8'
    } else {
        '9'
    }
}

/// Decimal notation of `n`: no sign, no leading zeros, `"0"` for zero.
pub open spec fn decimal(n: nat) -> Seq<char>
    decreases n,
{
    if n < 10 {
        seq![digit_char(n)]
    } else {
        decimal(n / 10).push(digit_char(n % 10))
    }
}

/// The canonical text of a raw identity, or `None` where it has none.
pub open spec fn canonical_identity(raw: RawIdentity) -> Option<Seq<char>> {
    match raw {
        RawIdentity::Text(s) => Some(s@),
        RawIdentity::Number(n) => Some(decimal(n as nat)),
        RawIdentity::Other => None,
    }
}

fn digit_text(d: u64) -> (r: &'static str)
    requires
        d < 10,
    ensures
        r@ == seq![digit_char(d as nat)],
{
    proof {
        reveal_strlit("0");
        reveal_strlit("1");
        reveal_strlit("2");
        reveal_strlit("3");
        reveal_strlit("4");
        reveal_strlit("5");
        reveal_strlit("6");
        reveal_strlit("7");
        reveal_strlit("8");
        reveal_strlit("9");
    }
    if d == 0 {
        "0"
    } else if d == 1 {
        "1"
    } else if d == 2 {
        "2"
    } else if d == 3 {
        "3"
    } else if d == 4 {
        "4"
    } else if d == 5 {
        "5"
    } else if d == 6 {
        "6"
    } else if d == 7 {
        "7"
    } else if d == 8 {
        "8"
    } else {
        "9"
    }
}

/// Writes `n` in decimal.
pub fn decimal_text(n: u64) -> (r: String)
    ensures
        r@ == decimal(n as nat),
    decreases n,
{
    if n < 10 {
        String::from_str(digit_text(n))
    } else {
        let mut s = decimal_text(n / 10);
        s.append(digit_text(n % 10));
        s
    }
}

/// The canonical text of a raw identity: text is kept as it is, a number is
/// written in decimal, anything else is an error.
pub fn normalize_identity(raw: &RawIdentity) -> (r: Result<String, IdentityError>)
    ensures
        match canonical_identity(*raw) {
            Some(c) => r is Ok && r->Ok_0@ == c,
            None => r == Err::<String, IdentityError>(IdentityError::NotTextOrNumber),
        },
{
    match raw {
        RawIdentity::Text(s) => Ok(s.clone()),
        RawIdentity::Number(n) => Ok(decimal_text(*n)),
        RawIdentity::Other => Err(IdentityError::NotTextOrNumber),
    }
}

/// Normalizing is idempotent: the canonical text of an identity, handed back as
/// raw text, is its own canonical text.
pub proof fn lemma_normalize_idempotent(raw: RawIdentity, text: String)
    requires
        canonical_identity(raw) == Some(text@),
    ensures
        canonical_identity(RawIdentity::Text(text)) == canonical_identity(raw),
{
}

} // verus!
