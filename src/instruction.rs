//! The closed set of instruction codes and the task text each one selects.

use vstd::prelude::*;
use vstd::string::StringExecFns;

verus! {

/// The failure of resolving an instruction code.
#[derive(Debug, Clone, Copy, PartialEq, Eq, Structural)]
pub enum InstructionError {
    /// The code is not one of the recognised task selectors; it carries the code.
    InvalidInstruction(u8),
}

/// The task text selected by an instruction code, or `None` for an unknown code.
pub open spec fn instruction_text(number: u8) -> Option<Seq<char>> {
    if number == 1 {
        Some("Please refactor the following rust code."@)
    } else if number == 2 {
        Some("Please add appropriate tests to the following rust code."@)
    } else if number == 3 {
        Some("Please add or update rustdoc comments for the following rust code."@)
    } else {
        None
    }
}

/// Resolves an instruction code into the text of the task it selects.
pub fn instruction(number: u8) -> (r: Result<String, InstructionError>)
    ensures
        match instruction_text(number) {
            Some(t) => r is Ok && r->Ok_0@ == t,
            None => r == Err::<String, InstructionError>(InstructionError::InvalidInstruction(number)),
        },
{
    match number {
        1 => Ok(String::from_str("Please refactor the following rust code.")),
        2 => Ok(String::from_str("Please add appropriate tests to the following rust code.")),
        3 => Ok(String::from_str("Please add or update rustdoc comments for the following rust code.")),
        n => Err(InstructionError::InvalidInstruction(n)),
    }
}

/// The decimal digit character for `d`, which is below ten.
pub open spec fn digit_char(d: nat) -> char {
    "0123456789"@[d as int]
}

/// The decimal numeral of `n`, without leading zeros.
pub open spec fn decimal(n: nat) -> Seq<char>
    decreases n,
{
    if n < 10 {
        seq![digit_char(n)]
    } else {
        decimal(n / 10) + seq![digit_char(n % 10)]
    }
}

/// The decimal numeral of a byte.
fn decimal_string(n: u8) -> (r: String)
    ensures
        r@ == decimal(n as nat),
{
    let digits = "0123456789";
    proof {
        reveal_strlit("0123456789");
    }
    let mut r = String::from_str("");
    if n >= 100 {
        r.append(digits.substring_char((n / 100) as usize, (n / 100 + 1) as usize));
    }
    if n >= 10 {
        r.append(digits.substring_char((n / 10 % 10) as usize, (n / 10 % 10 + 1) as usize));
    }
    r.append(digits.substring_char((n % 10) as usize, (n % 10 + 1) as usize));
    proof {
        reveal_strlit("");
        let m = n as nat;
        if m >= 100 {
            assert(decimal(m / 100) == seq![digit_char(m / 100)]);
            assert(decimal(m / 10) == decimal(m / 100) + seq![digit_char(m / 10 % 10)]);
        } else if m >= 10 {
            assert(decimal(m / 10) == seq![digit_char(m / 10)]);
        }
        assert(r@ =~= decimal(m));
    }
    r
}

impl InstructionError {
    /// The description shown to the user.
    pub fn message(&self) -> (r: String)
        ensures
            match *self {
                InstructionError::InvalidInstruction(n) => r@ == "invalid instruction number: "@
                    + decimal(n as nat),
            },
    {
        match self {
            InstructionError::InvalidInstruction(n) => {
                let mut r = String::from_str("invalid instruction number: ");
                let d = decimal_string(*n);
                r.append(d.as_str());
                r
            },
        }
    }
}

} // verus!
