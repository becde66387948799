use vstd::prelude::*;

verus! {

/// The host the backend listens on: the loopback address.
pub open spec fn loopback_host() -> Seq<char> {
    seq!['1', '2', '7', '.', '0', '.', '0', '.', '1']
}

/// The character of a decimal digit.
pub open spec fn digit_char(d: nat) -> char {
    if d == 0 { '0' }
    else if d == 1 { '1' }
    else if d == 2 { '2' }
    else if d == 3 { '3' }
    else if d == 4 { '4' }
    else if d == 5 { '5' }
    else if d == 6 { '6' }
    else if d == 7 { '7' }
    else if d == 8 { '8' }
    else { '9' }
}

/// `n` written in decimal, without leading zeros.
pub open spec fn decimal(n: nat) -> Seq<char>
    decreases n,
{
    if n < 10 {
        seq![digit_char(n)]
    } else {
        decimal(n / 10).push(digit_char(n % 10))
    }
}

/// The address handed to the user interface: `http://127.0.0.1:<port>`.
pub open spec fn origin_text(port: nat) -> Seq<char> {
    seq!['h', 't', 't', 'p', ':', '/', '/'] + loopback_host() + seq![':'] + decimal(port)
}

fn digit_str(d: u16) -> (r: &'static str)
    requires
        d < 10,
    ensures
        r@ == seq![digit_char(d as nat)],
{
    proof {
        reveal_strlit("0");
        reveal_strlit("1");
        reveal_strlit("2");
        reveal_strlit("3");
        reveal_strlit("4");
        reveal_strlit("5");
        reveal_strlit("6");
        reveal_strlit("7");
        reveal_strlit("8");
        reveal_strlit("9");
    }
    if d == 0 { "0" }
    else if d == 1 { "1" }
    else if d == 2 { "2" }
    else if d == 3 { "3" }
    else if d == 4 { "4" }
    else if d == 5 { "5" }
    else if d == 6 { "6" }
    else if d == 7 { "7" }
    else if d == 8 { "8" }
    else { "9" }
}

/// `n` written in decimal.
pub fn decimal_text(n: u16) -> (r: String)
    ensures
        r@ == decimal(n as nat),
    decreases n,
{
    if n < 10 {
        String::from_str(digit_str(n))
    } else {
        let mut s = decimal_text(n / 10);
        s.append(digit_str(n % 10));
        s
    }
}

/// A loopback endpoint: the backend listens on 127.0.0.1 at `port`.
#[derive(PartialEq, Eq, Structural, Clone, Copy, Debug)]
pub struct Endpoint {
    pub port: u16,
}

impl Endpoint {
    /// The host of every endpoint, `127.0.0.1`.
    pub fn host() -> (r: String)
        ensures
            r@ == loopback_host(),
    {
        proof {
            reveal_strlit("127.0.0.1");
        }
        let r = String::from_str("127.0.0.1");
        assert(r@ =~= loopback_host());
        r
    }

    /// The port as the backend's command line carries it.
    pub fn port_text(&self) -> (r: String)
        ensures
            r@ == decimal(self.port as nat),
    {
        decimal_text(self.port)
    }

    /// The address the user interface uses to reach the backend.
    pub fn origin(&self) -> (r: String)
        ensures
            r@ == origin_text(self.port as nat),
    {
        proof {
            reveal_strlit("http://");
            reveal_strlit(":");
        }
        let mut r = String::from_str("http://");
        let host = Endpoint::host();
        r.append(host.as_str());
        r.append(":");
        let digits = decimal_text(self.port);
        r.append(digits.as_str());
        assert(r@ =~= origin_text(self.port as nat));
        r
    }
}

} // verus!
