use vstd::prelude::*;
use vstd::string::StringExecFns;

verus! {

/// A typed failure of one simulated fetch: either a network-level failure
/// carrying a free-text diagnostic, or a simulated remote failure carrying
/// a numeric status code. Immutable once constructed.
#[derive(Debug)]
pub enum FetchError {
    NetworkError(String),
    ServerError(u16),
}

/// The character for a single decimal digit.
pub open spec fn digit_char(d: nat) -> char {
    if d == 0 {
        '0'
    } else if d == 1 {
        '1'
    } else if d == 2 {
        '2'
    } else if d == 3 {
        '3'
    } else if d == 4 {
        '4'
    } else if d == 5 {
        '5'
    } else if d == 6 {
        '6'
    } else if d == 7 {
        '7'
    } else if d == 8 {
        '8'
    } else {
        '9'
    }
}

/// The decimal rendering of a natural number, most significant digit first,
/// with no leading zeros (zero itself renders as "0").
pub open spec fn dec_str(n: nat) -> Seq<char>
    decreases n,
{
    if n < 10 {
        seq![digit_char(n)]
    } else {
        dec_str(n / 10).push(digit_char(n % 10))
    }
}

fn digit_string(d: u16) -> (r: String)
    requires
        d < 10,
    ensures
        r@ == seq![digit_char(d as nat)],
{
    proof {
        reveal_strlit("0");
        reveal_strlit("1");
        reveal_strlit("2");
        reveal_strlit("3");
        reveal_strlit("4");
        reveal_strlit("5");
        reveal_strlit("6");
        reveal_strlit("7");
        reveal_strlit("8");
        reveal_strlit("9");
    }
    let s: &str = if d == 0 {
        "0"
    } else if d == 1 {
        "1"
    } else if d == 2 {
        "2"
    } else if d == 3 {
        "3"
    } else if d == 4 {
        "4"
    } else if d == 5 {
        "5"
    } else if d == 6 {
        "6"
    } else if d == 7 {
        "7"
    } else if d == 8 {
        "8"
    } else {
        "9"
    };
    proof {
        assert(s@ =~= seq![digit_char(d as nat)]);
    }
    String::from_str(s)
}

/// Renders a status code in decimal.
fn dec_string(n: u16) -> (r: String)
    ensures
        r@ == dec_str(n as nat),
    decreases n,
{
    if n < 10 {
        digit_string(n)
    } else {
        let prefix = dec_string(n / 10);
        let last = digit_string(n % 10);
        let r = prefix.concat(last.as_str());
        proof {
            assert(r@ =~= dec_str((n / 10) as nat).push(digit_char((n % 10) as nat)));
        }
        r
    }
}

impl FetchError {
    /// The human-readable diagnostic line for this error.
    pub open spec fn message_spec(&self) -> Seq<char> {
        match self {
            FetchError::NetworkError(msg) => "Network Error: "@ + msg@,
            FetchError::ServerError(code) => "Server Error: Status Code "@ + dec_str(*code as nat),
        }
    }

    /// Renders the error for display, exactly as `message_spec` describes.
    pub fn message(&self) -> (r: String)
        ensures
            r@ == self.message_spec(),
    {
        match self {
            FetchError::NetworkError(msg) => String::from_str("Network Error: ").concat(
                msg.as_str(),
            ),
            FetchError::ServerError(code) => String::from_str("Server Error: Status Code ").concat(
                dec_string(*code).as_str(),
            ),
        }
    }
}

} // verus!
