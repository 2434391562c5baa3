//! Status events: the three kinds a wait emits, their wire value, and how a
//! line for each is presented (its icon and which standard stream takes it).

use vstd::prelude::*;

verus! {

/// The kind of a status event: a wait starting, succeeding, or failing.
#[derive(Copy, Clone, Debug, PartialEq, Eq, Structural)]
pub enum SubLevel {
    Starting,
    Succeeded,
    Failed,
}

/// The value a status kind travels as; anything unknown reads back as `Failed`.
pub open spec fn spec_sublevel_of_value(value: u64) -> SubLevel {
    if value == 0 {
        SubLevel::Starting
    } else if value == 1 {
        SubLevel::Succeeded
    } else {
        SubLevel::Failed
    }
}

/// The value a status kind is carried as.
pub open spec fn spec_sublevel_value(level: SubLevel) -> u64 {
    match level {
        SubLevel::Starting => 0,
        SubLevel::Succeeded => 1,
        SubLevel::Failed => 2,
    }
}

impl From<u64> for SubLevel {
    /// Reads a status kind back from its carried value.
    fn from(value: u64) -> (level: Self)
        ensures
            level == spec_sublevel_of_value(value),
    {
        match value {
            0 => SubLevel::Starting,
            1 => SubLevel::Succeeded,
            _ => SubLevel::Failed,
        }
    }
}

impl vstd::std_specs::convert::FromSpecImpl<u64> for SubLevel {
    open spec fn obeys_from_spec() -> bool {
        true
    }

    open spec fn from_spec(value: u64) -> Self {
        spec_sublevel_of_value(value)
    }
}

impl SubLevel {
    /// The value this status kind is carried as.
    pub fn to_value(&self) -> (value: u64)
        ensures
            value == spec_sublevel_value(*self),
    {
        match self {
            SubLevel::Starting => 0,
            SubLevel::Succeeded => 1,
            SubLevel::Failed => 2,
        }
    }

    /// The icon that marks a status line of this kind: `[*]` for starting,
    /// `[+]` for succeeded, `[-]` for failed.
    pub fn icon(&self) -> (icon: char)
        ensures
            icon == spec_sublevel_icon(*self),
    {
        match self {
            SubLevel::Starting => '*',
            SubLevel::Succeeded => '+',
            SubLevel::Failed => '-',
        }
    }

    /// Whether a status line of this kind goes to the standard error stream;
    /// starting and succeeded lines go to standard output, failed ones to
    /// standard error.
    pub fn goes_to_stderr(&self) -> (to_stderr: bool)
        ensures
            to_stderr == (*self is Failed),
    {
        match self {
            SubLevel::Failed => true,
            _ => false,
        }
    }
}

/// The icon that marks a status line.
pub open spec fn spec_sublevel_icon(level: SubLevel) -> char {
    match level {
        SubLevel::Starting => '*',
        SubLevel::Succeeded => '+',
        SubLevel::Failed => '-',
    }
}

/// Reading a carried value back always yields the kind it was written from:
/// the three kinds travel without loss.
pub proof fn lemma_sublevel_value_round_trip(level: SubLevel)
    ensures
        spec_sublevel_of_value(spec_sublevel_value(level)) == level,
{
}

/// The frame around a status message: the kind's icon between brackets and a
/// space.
pub open spec fn spec_status_prefix(level: SubLevel) -> Seq<char> {
    match level {
        SubLevel::Starting => "[*] "@,
        SubLevel::Succeeded => "[+] "@,
        SubLevel::Failed => "[-] "@,
    }
}

/// The line a status sink writes for a message of the given kind.
pub open spec fn spec_status_line(level: SubLevel, message: Seq<char>) -> Seq<char> {
    spec_status_prefix(level) + message
}

/// Frames a status message as the line a sink writes: the kind's icon between
/// brackets, a space, and the message.
pub fn status_line(level: SubLevel, message: &str) -> (line: String)
    ensures
        line@ == spec_status_line(level, message@),
{
    let mut line = match level {
        SubLevel::Starting => String::from_str("[*] "),
        SubLevel::Succeeded => String::from_str("[+] "),
        SubLevel::Failed => String::from_str("[-] "),
    };
    line.append(message);
    line
}

/// The character a decimal digit is written as.
pub open spec fn spec_digit_char(digit: int) -> char {
    if digit == 0 {
        '0'
    } else if digit == 1 {
        '1'
    } else if digit == 2 {
        '2'
    } else if digit == 3 {
        '3'
    } else if digit == 4 {
        '4'
    } else if digit == 5 {
        '5'
    } else if digit == 6 {
        '6'
    } else if digit == 7 {
        '7'
    } else if digit == 8 {
        '8'
    } else {
        '9'
    }
}

/// The decimal notation of a number: its digits, most significant first, with
/// no leading zero except for the number zero itself.
pub open spec fn spec_decimal(n: int) -> Seq<char>
    decreases n,
{
    if n < 10 {
        seq![spec_digit_char(n)]
    } else {
        spec_decimal(n / 10) + seq![spec_digit_char(n % 10)]
    }
}

/// One decimal digit, written out.
fn digit_str(digit: u128) -> (written: &'static str)
    requires
        digit < 10,
    ensures
        written@ == seq![spec_digit_char(digit as int)],
{
    match digit {
        0 => {
            proof {
                reveal_strlit("0");
                assert("0"@ =~= seq!['0']);
            }
            "0"
        },
        1 => {
            proof {
                reveal_strlit("1");
                assert("1"@ =~= seq!['1']);
            }
            "1"
        },
        2 => {
            proof {
                reveal_strlit("2");
                assert("2"@ =~= seq!['2']);
            }
            "2"
        },
        3 => {
            proof {
                reveal_strlit("3");
                assert("3"@ =~= seq!['3']);
            }
            "3"
        },
        4 => {
            proof {
                reveal_strlit("4");
                assert("4"@ =~= seq!['4']);
            }
            "4"
        },
        5 => {
            proof {
                reveal_strlit("5");
                assert("5"@ =~= seq!['5']);
            }
            "5"
        },
        6 => {
            proof {
                reveal_strlit("6");
                assert("6"@ =~= seq!['6']);
            }
            "6"
        },
        7 => {
            proof {
                reveal_strlit("7");
                assert("7"@ =~= seq!['7']);
            }
            "7"
        },
        8 => {
            proof {
                reveal_strlit("8");
                assert("8"@ =~= seq!['8']);
            }
            "8"
        },
        _ => {
            proof {
                reveal_strlit("9");
                assert("9"@ =~= seq!['9']);
            }
            "9"
        },
    }
}

/// Writes a number in decimal notation.
pub fn decimal(n: u128) -> (written: String)
    ensures
        written@ == spec_decimal(n as int),
    decreases n,
{
    if n < 10 {
        String::from_str(digit_str(n))
    } else {
        let mut written = decimal(n / 10);
        written.append(digit_str(n % 10));
        written
    }
}

} // verus!
