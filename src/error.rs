use vstd::prelude::*;

verus! {

/// The envelope that the server sends with a non-2xx status.
#[derive(Debug)]
pub struct ErrorResponse {
    pub name: String,
    pub message: String,
    pub status_code: Option<u16>,
}

/// Every way a call can fail.
#[derive(Debug)]
pub enum SendKitError {
    /// The server answered with a non-2xx status.
    Api(ErrorResponse),
    /// The HTTP exchange could not be completed, or a success body did not decode.
    Http(reqwest::Error),
    /// Neither an explicit key nor the environment supplied an API key.
    MissingApiKey,
}

/// The character of a decimal digit.
pub open spec fn digit_char(d: nat) -> char {
    if d == 0 { '0' }
    else if d == 1 { '1' }
    else if d == 2 { '2' }
    else if d == 3 { '3' }
    else if d == 4 { '4' }
    else if d == 5 { '5' }
    else if d == 6 { '6' }
    else if d == 7 { '7' }
    else if d == 8 { '8' }
    else { '9' }
}

/// The decimal notation of `n`, without leading zeros.
pub open spec fn decimal(n: nat) -> Seq<char>
    decreases n,
{
    if n < 10 {
        seq![digit_char(n)]
    } else {
        decimal(n / 10).push(digit_char(n % 10))
    }
}

/// `name (code): message`, with 0 standing for an absent status code.
pub open spec fn envelope_text(e: ErrorResponse) -> Seq<char> {
    let code: nat = match e.status_code {
        Some(c) => c as nat,
        None => 0,
    };
    e.name@ + " ("@ + decimal(code) + "): "@ + e.message@
}

/// The text of a missing-key error.
pub open spec fn missing_key_text() -> Seq<char> {
    "sendkit: missing API key"@
}

fn digit_str(d: u16) -> (r: &'static str)
    requires
        d < 10,
    ensures
        r@ == seq![digit_char(d as nat)],
{
    proof {
        reveal_strlit("0");
        reveal_strlit("1");
        reveal_strlit("2");
        reveal_strlit("3");
        reveal_strlit("4");
        reveal_strlit("5");
        reveal_strlit("6");
        reveal_strlit("7");
        reveal_strlit("8");
        reveal_strlit("9");
    }
    match d {
        0 => "0",
        1 => "1",
        2 => "2",
        3 => "3",
        4 => "4",
        5 => "5",
        6 => "6",
        7 => "7",
        8 => "8",
        _ => "9",
    }
}

/// Writes `n` in decimal.
pub fn decimal_string(n: u16) -> (r: String)
    ensures
        r@ == decimal(n as nat),
    decreases n,
{
    if n < 10 {
        String::from_str(digit_str(n))
    } else {
        let head = decimal_string(n / 10);
        let r = head.concat(digit_str(n % 10));
        assert(r@ =~= decimal(n as nat));
        r
    }
}

impl ErrorResponse {
    /// The envelope used when a failed reply's body is not a readable envelope.
    pub fn fallback() -> (r: ErrorResponse)
        ensures
            r.name@ == "application_error"@,
            r.message@ == "Unknown error"@,
            r.status_code is None,
    {
        ErrorResponse {
            name: String::from_str("application_error"),
            message: String::from_str("Unknown error"),
            status_code: None,
        }
    }

    /// Human-readable form: `name (code): message`, with 0 for an absent code.
    pub fn to_text(&self) -> (r: String)
        ensures
            r@ == envelope_text(*self),
    {
        let code: u16 = match self.status_code {
            Some(c) => c,
            None => 0,
        };
        let r = self.name.clone().concat(" (").concat(decimal_string(code).as_str()).concat(
            "): ",
        ).concat(self.message.as_str());
        r
    }
}

/// Relies on reqwest::Error's `Display`: a description of the transport failure.
#[verifier::external_body]
fn transport_text(e: &reqwest::Error) -> (r: String) {
    e.to_string()
}

impl SendKitError {
    /// Human-readable form of the error, prefixed with `sendkit: `.
    pub fn to_text(&self) -> (r: String)
        ensures
            "sendkit: "@.is_prefix_of(r@),
            *self matches SendKitError::Api(e) ==> r@ == "sendkit: "@ + envelope_text(e),
            *self is MissingApiKey ==> r@ == missing_key_text(),
    {
        proof {
            reveal_strlit("sendkit: ");
            reveal_strlit("sendkit: missing API key");
        }
        match self {
            SendKitError::Api(e) => String::from_str("sendkit: ").concat(e.to_text().as_str()),
            SendKitError::Http(e) => String::from_str("sendkit: ").concat(transport_text(e).as_str()),
            SendKitError::MissingApiKey => String::from_str("sendkit: missing API key"),
        }
    }
}

} // verus!
