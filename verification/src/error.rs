use vstd::prelude::*;

verus! {

/// Why a run failed. Every category aborts the whole run: there is no
/// partial output and no retry. A wrong argument count is not an error
/// (see `cli::Invocation`) and so has no variant here.
#[derive(Debug, PartialEq, Eq)]
pub enum RunError {
    /// A required environment variable is absent; holds the variable's name.
    Configuration(String),
    /// The course list could not be read; holds the reason the reader gave.
    File(String),
    /// A copy request failed in transport; holds the reason the sender gave.
    Request(String),
    /// A response body did not hold the expected `{"result":{"id":...}}`
    /// shape; holds the position of the offending request in the batch.
    Decode(usize),
}

/// The decimal digit `d` as a character, for `0 <= d < 10`.
pub open spec fn digit_char(d: int) -> char {
    if d == 0 {
        '0'
    } else if d == 1 {
        '1'
    } else if d == 2 {
        '2'
    } else if d == 3 {
        '3'
    } else if d == 4 {
        '4'
    } else if d == 5 {
        '5'
    } else if d == 6 {
        '6'
    } else if d == 7 {
        '7'
    } else if d == 8 {
        '8'
    } else {
        '9'
    }
}

/// The usual decimal notation of `n`: most significant digit first,
/// no leading zero except for `n == 0` itself.
pub open spec fn decimal_digits(n: nat) -> Seq<char>
    decreases n,
{
    if n < 10 {
        seq![digit_char(n as int)]
    } else {
        decimal_digits((n / 10) as nat) + seq![digit_char((n % 10) as int)]
    }
}

fn digit_str(d: usize) -> (s: &'static str)
    requires
        d < 10,
    ensures
        s@ == seq![digit_char(d as int)],
{
    proof {
        reveal_strlit("0");
        reveal_strlit("1");
        reveal_strlit("2");
        reveal_strlit("3");
        reveal_strlit("4");
        reveal_strlit("5");
        reveal_strlit("6");
        reveal_strlit("7");
        reveal_strlit("8");
        reveal_strlit("9");
    }
    let s: &'static str = if d == 0 {
        "0"
    } else if d == 1 {
        "1"
    } else if d == 2 {
        "2"
    } else if d == 3 {
        "3"
    } else if d == 4 {
        "4"
    } else if d == 5 {
        "5"
    } else if d == 6 {
        "6"
    } else if d == 7 {
        "7"
    } else {
        "8"
    };
    let s: &'static str = if d == 9 { "9" } else { s };
    proof {
        assert(s@ =~= seq![digit_char(d as int)]);
    }
    s
}

/// `n` written in decimal.
pub fn decimal_string(n: usize) -> (s: String)
    ensures
        s@ == decimal_digits(n as nat),
    decreases n,
{
    if n < 10 {
        digit_str(n).to_owned()
    } else {
        let mut s = decimal_string(n / 10);
        s.append(digit_str(n % 10));
        s
    }
}

/// The description of `e`, one line naming the failed step and its detail.
pub open spec fn describe_spec(e: RunError) -> Seq<char> {
    match e {
        RunError::Configuration(name) => "configuration error: missing environment variable "@
            + name@,
        RunError::File(reason) => "file error: "@ + reason@,
        RunError::Request(reason) => "request error: "@ + reason@,
        RunError::Decode(position) => "decode error: malformed response for request "@
            + decimal_digits(position as nat),
    }
}

impl RunError {
    /// One line of error output, naming the category and the detail.
    pub fn describe(&self) -> (msg: String)
        ensures
            msg@ == describe_spec(*self),
    {
        match self {
            RunError::Configuration(name) => {
                let mut msg = "configuration error: missing environment variable ".to_owned();
                msg.append(name.as_str());
                msg
            },
            RunError::File(reason) => {
                let mut msg = "file error: ".to_owned();
                msg.append(reason.as_str());
                msg
            },
            RunError::Request(reason) => {
                let mut msg = "request error: ".to_owned();
                msg.append(reason.as_str());
                msg
            },
            RunError::Decode(position) => {
                let mut msg = "decode error: malformed response for request ".to_owned();
                let digits = decimal_string(*position);
                msg.append(digits.as_str());
                msg
            },
        }
    }
}

} // verus!
