//! Decimal text of numbers and the `host:port` form of socket addresses.
use vstd::prelude::*;
use vstd::string::*;

verus! {

/// The character of decimal digit `d`.
pub open spec fn digit_char(d: nat) -> char
    recommends
        d < 10,
{
    (48 + d) as char
}

/// The decimal text of `n`, most significant digit first, without leading zeros.
pub open spec fn decimal(n: nat) -> Seq<char>
    decreases n,
{
    if n < 10 {
        seq![digit_char(n)]
    } else {
        decimal(n / 10).push(digit_char(n % 10))
    }
}

/// The number that a text of decimal digits stands for.
pub open spec fn decimal_value(s: Seq<char>) -> nat
    decreases s.len(),
{
    if s.len() == 0 {
        0
    } else {
        decimal_value(s.drop_last()) * 10 + ((s.last() as nat) - 48) as nat
    }
}

/// The decimal text of `n` is made of digits, is not empty, and reads back as `n`.
pub proof fn lemma_decimal_reads_back(n: nat)
    ensures
        decimal(n).len() >= 1,
        forall|i: int| 0 <= i < decimal(n).len() ==> '0' <= #[trigger] decimal(n)[i] <= '9',
        decimal_value(decimal(n)) == n,
    decreases n,
{
    if n >= 10 {
        lemma_decimal_reads_back(n / 10);
        let d = decimal(n);
        assert(d.drop_last() =~= decimal(n / 10));
        assert(d.last() == ((48 + n % 10) as char));
        assert(((48 + n % 10) as char) as nat == 48 + n % 10);
        assert((n / 10) * 10 + n % 10 == n);
        assert(decimal_value(d) == decimal_value(decimal(n / 10)) * 10 + n % 10);
    } else {
        let d = decimal(n);
        assert(d.drop_last() =~= Seq::<char>::empty());
        assert(((48 + n) as char) as nat == 48 + n);
        assert(decimal_value(d.drop_last()) == 0);
        assert(decimal_value(d) == n);
    }
}

/// A socket address is the host text, unchanged, then one colon, then the port in
/// decimal, which reads back as the port.
pub proof fn lemma_socket_address_parts(host: Seq<char>, port: u16)
    ensures
        socket_address_text(host, port).subrange(0, host.len() as int) == host,
        socket_address_text(host, port)[host.len() as int] == ':',
        decimal_value(
            socket_address_text(host, port).subrange(
                host.len() as int + 1,
                socket_address_text(host, port).len() as int,
            ),
        ) == port,
{
    let a = socket_address_text(host, port);
    assert(a.subrange(0, host.len() as int) =~= host);
    assert(a.subrange(host.len() as int + 1, a.len() as int) =~= decimal(port as nat));
    lemma_decimal_reads_back(port as nat);
}

/// The text of digit `d`.
pub fn digit_str(d: u64) -> (s: &'static str)
    requires
        d < 10,
    ensures
        s@ == seq![digit_char(d as nat)],
{
    let digits = "0123456789";
    proof {
        reveal_strlit("0123456789");
    }
    let i = d as usize;
    digits.substring_char(i, i + 1)
}

/// Appends the decimal text of `n` to `s`.
pub fn push_decimal(s: &mut String, n: u64)
    ensures
        final(s)@ == old(s)@ + decimal(n as nat),
    decreases n,
{
    if n >= 10 {
        push_decimal(s, n / 10);
    }
    s.append(digit_str(n % 10));
    assert(s@ =~= old(s)@ + decimal(n as nat));
}

/// The text of a socket address: `host`, a colon, then the decimal port.
pub open spec fn socket_address_text(host: Seq<char>, port: u16) -> Seq<char> {
    host.push(':') + decimal(port as nat)
}

/// `host:port`, the form in which the bridge names the address to listen on or to
/// connect to.
pub fn socket_address(host: &str, port: u16) -> (addr: String)
    ensures
        addr@ == socket_address_text(host@, port),
        addr@ == host@ + seq![':'] + decimal(port as nat),
{
    let mut addr = String::from_str(host);
    let colon = ":";
    proof {
        reveal_strlit(":");
    }
    addr.append(colon);
    push_decimal(&mut addr, port as u64);
    assert(addr@ =~= socket_address_text(host@, port));
    addr
}

} // verus!
