//! What a run tells its user: the reason of each failure and the closing
//! line with the counts.

use crate::pipeline::PerFileError;
use crate::pipeline::Summary;
use crate::setup::FatalSetupError;
use vstd::prelude::*;
use vstd::string::*;

verus! {

/// The character of the decimal digit `d`.
pub open spec fn digit(d: nat) -> char
    recommends
        d < 10,
{
    if d == 0 {
        '0'
    } else if d == 1 {
        '1'
    } else if d == 2 {
        '2'
    } else if d == 3 {
        '3'
    } else if d == 4 {
        '4'
    } else if d == 5 {
        '5'
    } else if d == 6 {
        '6'
    } else if d == 7 {
        '7'
    } else if d == 8 {
        '8'
    } else {
        '9'
    }
}

/// The decimal numeral of `n`, without leading zeros.
pub open spec fn decimal(n: nat) -> Seq<char>
    decreases n,
{
    if n < 10 {
        seq![digit(n)]
    } else {
        decimal(n / 10).push(digit(n % 10))
    }
}

fn digit_text(d: usize) -> (text: &'static str)
    requires
        d < 10,
    ensures
        text@ == seq![digit(d as nat)],
{
    proof {
        reveal_strlit("0");
        reveal_strlit("1");
        reveal_strlit("2");
        reveal_strlit("3");
        reveal_strlit("4");
        reveal_strlit("5");
        reveal_strlit("6");
        reveal_strlit("7");
        reveal_strlit("8");
        reveal_strlit("9");
    }
    let text = if d == 0 {
        "0"
    } else if d == 1 {
        "1"
    } else if d == 2 {
        "2"
    } else if d == 3 {
        "3"
    } else if d == 4 {
        "4"
    } else if d == 5 {
        "5"
    } else if d == 6 {
        "6"
    } else if d == 7 {
        "7"
    } else if d == 8 {
        "8"
    } else {
        "9"
    };
    assert(text@ =~= seq![digit(d as nat)]);
    text
}

/// Writes `n` as a decimal numeral.
pub fn decimal_text(n: usize) -> (text: String)
    ensures
        text@ == decimal(n as nat),
{
    let mut text = String::from_str(digit_text(n % 10));
    let mut rest: usize = n / 10;
    while rest > 0
        invariant
            decimal(n as nat) == (if rest > 0 {
                decimal(rest as nat)
            } else {
                Seq::<char>::empty()
            }) + text@,
        decreases rest,
    {
        let ghost low = text@;
        text = String::from_str(digit_text(rest % 10)).concat(text.as_str());
        proof {
            let head = if rest >= 10 {
                decimal((rest / 10) as nat)
            } else {
                Seq::<char>::empty()
            };
            assert(decimal(rest as nat) =~= head + seq![digit((rest % 10) as nat)]);
            assert(decimal(rest as nat) + low =~= head + text@);
        }
        rest = rest / 10;
    }
    assert(Seq::<char>::empty() + text@ =~= text@);
    text
}

/// The closing line of a run with the counts of `summary`.
pub open spec fn report_text(summary: Summary) -> Seq<char> {
    "Finished ("@ + decimal(summary.succeeded as nat) + "/"@ + decimal(summary.total as nat)
        + ")."@
}

impl Summary {
    /// The closing line of a run: the restored containers over the found
    /// ones.
    pub fn report(&self) -> (line: String)
        ensures
            line@ == report_text(*self),
    {
        let succeeded = decimal_text(self.succeeded);
        let total = decimal_text(self.total);
        String::from_str("Finished (").concat(succeeded.as_str()).concat("/").concat(
            total.as_str(),
        ).concat(").")
    }
}

impl FatalSetupError {
    /// The message of the error.
    pub open spec fn message_text(self) -> Seq<char> {
        match self {
            FatalSetupError::InvalidSourceDirectory => "Invalid Source Directory"@,
            FatalSetupError::InvalidTargetDirectory => "Invalid Target Directory"@,
        }
    }

    /// The message of the error.
    pub fn message(self) -> (text: &'static str)
        ensures
            text@ == self.message_text(),
    {
        match self {
            FatalSetupError::InvalidSourceDirectory => "Invalid Source Directory",
            FatalSetupError::InvalidTargetDirectory => "Invalid Target Directory",
        }
    }
}

impl PerFileError {
    /// The reason that is shown beside the path of the container.
    pub open spec fn reason_text(self) -> Seq<char> {
        match self {
            PerFileError::IoError => "I/O Error"@,
            PerFileError::MalformedContainer => "Malformed Container"@,
            PerFileError::UnsupportedFormat => "Filetype Not Implementation"@,
            PerFileError::PathMappingError => "prefix not found"@,
        }
    }

    /// The reason that is shown beside the path of the container.
    pub fn reason(self) -> (text: &'static str)
        ensures
            text@ == self.reason_text(),
    {
        match self {
            PerFileError::IoError => "I/O Error",
            PerFileError::MalformedContainer => "Malformed Container",
            PerFileError::UnsupportedFormat => "Filetype Not Implementation",
            PerFileError::PathMappingError => "prefix not found",
        }
    }
}

} // verus!
