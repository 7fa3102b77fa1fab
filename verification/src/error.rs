//! Error types for this crate.

use vstd::prelude::*;
use vstd::string::StringExecFns;

verus! {

/// The error type returned by functions in this crate which might fail.
#[derive(Debug)]
pub enum UIError {
    /// Signifies that the underlying library was unable to properly hook into
    /// the platform's GUI APIs.
    FailedInitError { error: String },
    /// Signifies that an attempt was made to initialize a new instance of the
    /// underlying library while one already existed.
    MultipleInitError(),
    /// Signifies that an attempt was made to remove a tab (index) from a tab
    /// group that was out of bounds (n).
    TabGroupIndexOutOfBounds { index: i32, n: i32 },
}

/// The character for the decimal digit `d`.
pub open spec fn digit_char(d: int) -> char {
    if d == 0 {
        '0'
    } else if d == 1 {
        '1'
    } else if d == 2 {
        '2'
    } else if d == 3 {
        '3'
    } else if d == 4 {
        '4'
    } else if d == 5 {
        '5'
    } else if d == 6 {
        '6'
    } else if d == 7 {
        '7'
    } else if d == 8 {
        '8'
    } else {
        '9'
    }
}

/// The decimal rendering of `n`, most significant digit first, without
/// leading zeros (a single `0` for zero).
pub open spec fn decimal_of_nat(n: nat) -> Seq<char>
    decreases n,
{
    if n < 10 {
        seq![digit_char(n as int)]
    } else {
        decimal_of_nat(n / 10).push(digit_char((n % 10) as int))
    }
}

/// The decimal rendering of `v`: a leading minus sign for a negative value,
/// then the digits of its magnitude.
pub open spec fn decimal_of(v: int) -> Seq<char> {
    if v < 0 {
        seq!['-'] + decimal_of_nat((-v) as nat)
    } else {
        decimal_of_nat(v as nat)
    }
}

fn digit_char_exec(d: u64) -> (c: char)
    requires
        d < 10,
    ensures
        c == digit_char(d as int),
{
    if d == 0 {
        '0'
    } else if d == 1 {
        '1'
    } else if d == 2 {
        '2'
    } else if d == 3 {
        '3'
    } else if d == 4 {
        '4'
    } else if d == 5 {
        '5'
    } else if d == 6 {
        '6'
    } else if d == 7 {
        '7'
    } else if d == 8 {
        '8'
    } else {
        '9'
    }
}

fn push_decimal_u64(s: &mut String, n: u64)
    ensures
        final(s)@ == old(s)@ + decimal_of_nat(n as nat),
    decreases n,
{
    if n >= 10 {
        proof {
            assert(n / 10 < n) by (nonlinear_arith)
                requires
                    n >= 10,
            ;
        }
        push_decimal_u64(s, n / 10);
        let c = digit_char_exec(n % 10);
        s.push(c);
        proof {
            assert(s@ =~= old(s)@ + decimal_of_nat(n as nat));
        }
    } else {
        let c = digit_char_exec(n);
        s.push(c);
        proof {
            assert(s@ =~= old(s)@ + decimal_of_nat(n as nat));
        }
    }
}

fn push_decimal_i32(s: &mut String, v: i32)
    ensures
        final(s)@ == old(s)@ + decimal_of(v as int),
{
    if v < 0 {
        s.push('-');
        let mag: u64 = (-(v as i64)) as u64;
        push_decimal_u64(s, mag);
        proof {
            assert(s@ =~= old(s)@ + decimal_of(v as int));
        }
    } else {
        push_decimal_u64(s, v as u64);
    }
}

impl UIError {
    /// What `message` returns, per variant.
    pub open spec fn message_spec(&self) -> Seq<char> {
        match self {
            UIError::FailedInitError { error } => {
                "unable to initialize the underlying UI framework: "@ + error@
            },
            UIError::MultipleInitError() => "cannot initialize multiple instances of libui"@,
            UIError::TabGroupIndexOutOfBounds { index, n } => {
                "tab with index "@ + decimal_of(*index as int) + " is not in tab group of size "@
                    + decimal_of(*n as int)
            },
        }
    }

    /// A human-readable description of the error; the out-of-bounds text
    /// renders both the offending index and the group's size.
    pub fn message(&self) -> (r: String)
        ensures
            r@ == self.message_spec(),
    {
        match self {
            UIError::FailedInitError { error } => {
                let prefix = String::from_str("unable to initialize the underlying UI framework: ");
                prefix.concat(error.as_str())
            },
            UIError::MultipleInitError() => {
                String::from_str("cannot initialize multiple instances of libui")
            },
            UIError::TabGroupIndexOutOfBounds { index, n } => {
                let mut out = String::from_str("tab with index ");
                push_decimal_i32(&mut out, *index);
                out.append(" is not in tab group of size ");
                push_decimal_i32(&mut out, *n);
                proof {
                    assert(out@ =~= self.message_spec());
                }
                out
            },
        }
    }
}

impl PartialEq for UIError {
    fn eq(&self, other: &UIError) -> (r: bool) {
        match (self, other) {
            (UIError::FailedInitError { error: a }, UIError::FailedInitError { error: b }) => {
                *a == *b
            },
            (UIError::MultipleInitError(), UIError::MultipleInitError()) => true,
            (
                UIError::TabGroupIndexOutOfBounds { index: i1, n: n1 },
                UIError::TabGroupIndexOutOfBounds { index: i2, n: n2 },
            ) => *i1 == *i2 && *n1 == *n2,
            _ => false,
        }
    }
}

impl vstd::std_specs::cmp::PartialEqSpecImpl for UIError {
    open spec fn obeys_eq_spec() -> bool {
        true
    }

    open spec fn eq_spec(&self, other: &UIError) -> bool {
        match (self, other) {
            (UIError::FailedInitError { error: a }, UIError::FailedInitError { error: b }) => {
                a@ == b@
            },
            (UIError::MultipleInitError(), UIError::MultipleInitError()) => true,
            (
                UIError::TabGroupIndexOutOfBounds { index: i1, n: n1 },
                UIError::TabGroupIndexOutOfBounds { index: i2, n: n2 },
            ) => i1 == i2 && n1 == n2,
            _ => false,
        }
    }
}

} // verus!
