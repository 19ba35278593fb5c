//! The local inference server: where it listens, and how its answer to a
//! probe is read.
use vstd::prelude::*;

verus! {

/// The characters of the decimal digits, by value.
pub open spec fn digit_chars() -> Seq<char> {
    seq!['0', '1', '2', '3', '4', '5', '6', '7', '8', '9']
}

/// The decimal writing of `n`, with no leading zero.
pub open spec fn decimal(n: nat) -> Seq<char>
    decreases n,
{
    if n < 10 {
        seq![digit_chars()[n as int]]
    } else {
        decimal(n / 10).push(digit_chars()[(n % 10) as int])
    }
}

/// Whether `c` is one of the characters '0' to '9'.
pub open spec fn is_digit(c: char) -> bool {
    '0' as int <= c as int <= '9' as int
}

/// The value of the decimal digit `c`.
pub open spec fn digit_value(c: char) -> int {
    c as int - '0' as int
}

/// The number the decimal digits `s` write, the last one in the units.
pub open spec fn decimal_value(s: Seq<char>) -> int
    decreases s.len(),
{
    if s.len() == 0 {
        0
    } else {
        decimal_value(s.drop_last()) * 10 + digit_value(s.last())
    }
}

/// The digit characters are '0' to '9', in order of their values.
pub proof fn lemma_digit_chars(d: int)
    requires
        0 <= d < 10,
    ensures
        is_digit(digit_chars()[d]),
        digit_value(digit_chars()[d]) == d,
{
    assert('0' as int == 48);
    assert(digit_chars()[0] as int == 48);
    assert(digit_chars()[1] as int == 49);
    assert(digit_chars()[2] as int == 50);
    assert(digit_chars()[3] as int == 51);
    assert(digit_chars()[4] as int == 52);
    assert(digit_chars()[5] as int == 53);
    assert(digit_chars()[6] as int == 54);
    assert(digit_chars()[7] as int == 55);
    assert(digit_chars()[8] as int == 56);
    assert(digit_chars()[9] as int == 57);
}

/// The decimal writing of a number reads back as that number: it is made of
/// digits only, it is not empty, it does not start with '0' unless it is "0",
/// and its digits times powers of ten add up to the number.
pub proof fn lemma_decimal_reads_back(n: nat)
    ensures
        decimal(n).len() > 0,
        forall|k: int| 0 <= k < decimal(n).len() ==> is_digit(#[trigger] decimal(n)[k]),
        n >= 10 ==> digit_value(decimal(n)[0]) != 0,
        decimal_value(decimal(n)) == n,
    decreases n,
{
    if n < 10 {
        lemma_digit_chars(n as int);
        let s = decimal(n);
        assert(s.drop_last() =~= Seq::<char>::empty());
        assert(decimal_value(s.drop_last()) == 0);
    } else {
        let q = (n / 10) as nat;
        let r = n % 10;
        lemma_decimal_reads_back(q);
        lemma_digit_chars(r as int);
        let s = decimal(n);
        assert(s == decimal(q).push(digit_chars()[r as int]));
        assert(s.drop_last() =~= decimal(q));
        assert forall|k: int| 0 <= k < s.len() implies is_digit(#[trigger] s[k]) by {
            if k < decimal(q).len() {
                assert(s[k] == decimal(q)[k]);
            }
        }
        assert(s[0] == decimal(q)[0]);
        if q < 10 {
            lemma_digit_chars(q as int);
            assert(decimal(q)[0] == digit_chars()[q as int]);
        }
        assert(n == q * 10 + r);
    }
}

/// The address of the server listening on `port` of this machine.
pub open spec fn local_url(port: u16) -> Seq<char> {
    "http://localhost:"@ + decimal(port as nat)
}

fn digit_str(d: u16) -> (s: &'static str)
    requires
        d < 10,
    ensures
        s@ == seq![digit_chars()[d as int]],
        s@.len() == 1,
        is_digit(s@[0]),
        digit_value(s@[0]) == d,
{
    proof {
        lemma_digit_chars(d as int);
    }
    proof {
        reveal_strlit("0");
        reveal_strlit("1");
        reveal_strlit("2");
        reveal_strlit("3");
        reveal_strlit("4");
        reveal_strlit("5");
        reveal_strlit("6");
        reveal_strlit("7");
        reveal_strlit("8");
        reveal_strlit("9");
    }
    let s = match d {
        0 => "0",
        1 => "1",
        2 => "2",
        3 => "3",
        4 => "4",
        5 => "5",
        6 => "6",
        7 => "7",
        8 => "8",
        _ => "9",
    };
    assert(s@ =~= seq![digit_chars()[d as int]]);
    s
}

fn append_decimal(s: &mut String, n: u16)
    ensures
        final(s)@ == old(s)@ + decimal(n as nat),
    decreases n,
{
    if n >= 10 {
        append_decimal(s, n / 10);
    }
    s.append(digit_str(n % 10));
    assert(old(s)@ + decimal(n as nat) =~= if n >= 10 {
        old(s)@ + decimal((n / 10) as nat) + seq![digit_chars()[(n % 10) as int]]
    } else {
        old(s)@ + seq![digit_chars()[(n % 10) as int]]
    });
}

/// The address a probe is sent to names the server's port: after
/// "http://localhost:" come decimal digits only, and they read back as the
/// port.
pub proof fn lemma_url_names_port(port: u16)
    ensures
        local_url(port).subrange(0, "http://localhost:"@.len() as int) == "http://localhost:"@,
        forall|k: int|
            "http://localhost:"@.len() <= k < local_url(port).len() ==> is_digit(
                #[trigger] local_url(port)[k],
            ),
        decimal_value(
            local_url(port).subrange("http://localhost:"@.len() as int, local_url(port).len() as int),
        ) == port,
{
    let p = "http://localhost:"@;
    let u = local_url(port);
    lemma_decimal_reads_back(port as nat);
    assert(u.subrange(0, p.len() as int) =~= p);
    assert(u.subrange(p.len() as int, u.len() as int) =~= decimal(port as nat));
    assert forall|k: int| p.len() <= k < u.len() implies is_digit(#[trigger] u[k]) by {
        assert(u[k] == decimal(port as nat)[k - p.len()]);
    }
}

/// The model server that runs on this machine.
#[derive(Debug, Clone, Copy, PartialEq, Eq)]
pub struct InferenceServer {
    port: u16,
}

impl InferenceServer {
    /// A server that listens on `port`.
    pub fn new(port: u16) -> (server: Self)
        ensures
            server.port_spec() == port,
    {
        InferenceServer { port }
    }

    /// The port the server listens on.
    pub closed spec fn port_spec(&self) -> u16 {
        self.port
    }

    /// The port the server listens on.
    pub fn port(&self) -> (port: u16)
        ensures
            port == self.port_spec(),
    {
        self.port
    }

    /// The address a probe of the server is sent to.
    pub fn url(&self) -> (url: String)
        ensures
            url@ == local_url(self.port_spec()),
    {
        let mut url = String::from_str("http://localhost:");
        append_decimal(&mut url, self.port);
        url
    }

    /// Whether the status the server answered a probe with says it is up.
    pub fn is_up_status(status: u16) -> (up: bool)
        ensures
            up == (status == 200),
    {
        status == 200
    }
}

} // verus!
