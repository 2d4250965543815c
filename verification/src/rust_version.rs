//! The version of the toolchain that a package supports.

use crate::text::string_of;
use vstd::prelude::*;

verus! {

/// A toolchain version: a major number, and a minor and a patch number where
/// they are given.
#[derive(Clone, Copy, Debug, PartialEq, Eq, Hash)]
pub struct RustVersion {
    pub major: u64,
    pub minor: Option<u64>,
    pub patch: Option<u64>,
}

/// Whether `a` comes before `b`, where a number that is not given comes
/// before every number.
pub open spec fn part_precedes(a: Option<u64>, b: Option<u64>) -> bool {
    match (a, b) {
        (None, Some(_)) => true,
        (Some(x), Some(y)) => x < y,
        _ => false,
    }
}

/// The character for the digit `d`.
pub open spec fn digit(d: nat) -> char {
    if d == 0 {
        '0'
    } else if d == 1 {
        '1'
    } else if d == 2 {
        '2'
    } else if d == 3 {
        '3'
    } else if d == 4 {
        '4'
    } else if d == 5 {
        '5'
    } else if d == 6 {
        '6'
    } else if d == 7 {
        '7'
    } else if d == 8 {
        '8'
    } else {
        '9'
    }
}

/// `n` in decimal digits, without leading zeros.
pub open spec fn decimal(n: nat) -> Seq<char>
    decreases n,
{
    if n < 10 {
        seq![digit(n)]
    } else {
        decimal(n / 10).push(digit(n % 10))
    }
}

/// The character for the digit `d`.
fn digit_char(d: u64) -> (c: char)
    requires
        d < 10,
    ensures
        c == digit(d as nat),
{
    if d == 0 {
        '0'
    } else if d == 1 {
        '1'
    } else if d == 2 {
        '2'
    } else if d == 3 {
        '3'
    } else if d == 4 {
        '4'
    } else if d == 5 {
        '5'
    } else if d == 6 {
        '6'
    } else if d == 7 {
        '7'
    } else if d == 8 {
        '8'
    } else {
        '9'
    }
}

/// Appends `n` in decimal digits to `out`.
pub fn push_decimal(out: &mut Vec<char>, n: u64)
    ensures
        final(out)@ == old(out)@ + decimal(n as nat),
    decreases n,
{
    if n < 10 {
        out.push(digit_char(n));
        assert(out@ == old(out)@ + seq![digit(n as nat)]);
    } else {
        push_decimal(out, n / 10);
        out.push(digit_char(n % 10));
        assert(out@ == old(out)@ + decimal((n / 10) as nat).push(digit((n % 10) as nat)));
    }
}

impl RustVersion {
    /// The version `major.minor.patch`.
    pub fn new(major: u64, minor: u64, patch: u64) -> (v: RustVersion)
        ensures
            v == (RustVersion { major, minor: Some(minor), patch: Some(patch) }),
    {
        RustVersion { major, minor: Some(minor), patch: Some(patch) }
    }

    /// Whether `self` comes before `other`: by the major number, then by the
    /// minor number, then by the patch number.
    pub open spec fn precedes(self, other: RustVersion) -> bool {
        self.major < other.major || (self.major == other.major && (part_precedes(
            self.minor,
            other.minor,
        ) || (self.minor == other.minor && part_precedes(self.patch, other.patch))))
    }

    /// The version as text: the numbers that are given, with dots between
    /// them.
    pub open spec fn text(self) -> Seq<char> {
        let minor = match self.minor {
            Some(n) => seq!['.'] + decimal(n as nat),
            None => Seq::<char>::empty(),
        };
        let patch = match self.patch {
            Some(n) => seq!['.'] + decimal(n as nat),
            None => Seq::<char>::empty(),
        };
        decimal(self.major as nat) + minor + patch
    }

    /// Whether `self` comes before `other`.
    pub fn is_before(&self, other: &RustVersion) -> (b: bool)
        ensures
            b == self.precedes(*other),
    {
        if self.major != other.major {
            return self.major < other.major;
        }
        match (self.minor, other.minor) {
            (None, Some(_)) => true,
            (Some(_), None) => false,
            (Some(x), Some(y)) => if x != y {
                x < y
            } else {
                match (self.patch, other.patch) {
                    (None, Some(_)) => true,
                    (Some(a), Some(b)) => a < b,
                    _ => false,
                }
            },
            (None, None) => match (self.patch, other.patch) {
                (None, Some(_)) => true,
                (Some(a), Some(b)) => a < b,
                _ => false,
            },
        }
    }

    /// The version as text.
    pub fn to_string(&self) -> (s: String)
        ensures
            s@ == self.text(),
    {
        let mut out: Vec<char> = Vec::new();
        push_decimal(&mut out, self.major);
        assert(out@ == decimal(self.major as nat));
        match self.minor {
            Some(n) => {
                out.push('.');
                push_decimal(&mut out, n);
                assert(out@ == decimal(self.major as nat) + (seq!['.'] + decimal(n as nat)));
            },
            None => {
                assert(out@ == decimal(self.major as nat) + Seq::<char>::empty());
            },
        }
        let ghost mid = out@;
        match self.patch {
            Some(n) => {
                out.push('.');
                push_decimal(&mut out, n);
                assert(out@ == mid + (seq!['.'] + decimal(n as nat)));
            },
            None => {
                assert(out@ == mid + Seq::<char>::empty());
            },
        }
        string_of(&out)
    }
}

} // verus!
