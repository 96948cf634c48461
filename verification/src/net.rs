//! Choice of the address that the host listens on.
use vstd::prelude::*;

verus! {

/// One address of a network interface, as far as the choice of a listening address
/// reads it.
#[derive(Debug, Clone)]
pub struct InterfaceAddress {
    /// Whether the address belongs to the IPv4 family.
    pub is_ipv4: bool,
    /// The IP of the address in text form, where the interface reports one.
    pub ip: Option<String>,
}

/// An address that the host can listen on: an IPv4 address that has an IP.
pub open spec fn is_listenable(a: InterfaceAddress) -> bool {
    a.is_ipv4 && a.ip is Some
}

/// Every IPv4 address that has an IP can be listened on, and no other address can.
pub proof fn lemma_listenable_is_ipv4_with_ip(a: InterfaceAddress)
    ensures
        is_listenable(a) <==> (a.is_ipv4 && a.ip is Some),
{
}

/// The first listenable address of `s`, if any.
pub open spec fn first_listenable(s: Seq<InterfaceAddress>) -> Option<InterfaceAddress>
    decreases s.len(),
{
    if s.len() == 0 {
        None
    } else if is_listenable(s[0]) {
        Some(s[0])
    } else {
        first_listenable(s.drop_first())
    }
}

/// The address chosen is the first IPv4 address that has an IP.
pub proof fn lemma_first_listenable_at(s: Seq<InterfaceAddress>, i: int)
    requires
        0 <= i < s.len(),
        s[i].is_ipv4 && s[i].ip is Some,
        forall|j: int| 0 <= j < i ==> !((#[trigger] s[j]).is_ipv4 && s[j].ip is Some),
    ensures
        first_listenable(s) == Some(s[i]),
    decreases i,
{
    if i > 0 {
        assert(!(s[0].is_ipv4 && s[0].ip is Some));
        let rest = s.drop_first();
        assert forall|j: int| 0 <= j < i - 1 implies !((#[trigger] rest[j]).is_ipv4 && rest[j].ip is Some) by {
            assert(rest[j] == s[j + 1]);
        }
        lemma_first_listenable_at(rest, i - 1);
    }
}

/// Where no address is an IPv4 address with an IP, none is chosen.
pub proof fn lemma_first_listenable_none(s: Seq<InterfaceAddress>)
    requires
        forall|j: int| 0 <= j < s.len() ==> !((#[trigger] s[j]).is_ipv4 && s[j].ip is Some),
    ensures
        first_listenable(s) is None,
    decreases s.len(),
{
    if s.len() > 0 {
        let rest = s.drop_first();
        assert forall|j: int| 0 <= j < rest.len() implies !((#[trigger] rest[j]).is_ipv4 && rest[j].ip is Some) by {
            assert(rest[j] == s[j + 1]);
        }
        lemma_first_listenable_none(rest);
    }
}

/// An address that cannot be listened on, inserted anywhere among the interface's
/// addresses, does not change the choice.
pub proof fn lemma_insert_unlistenable(s: Seq<InterfaceAddress>, k: int, a: InterfaceAddress)
    requires
        0 <= k <= s.len(),
        !is_listenable(a),
    ensures
        first_listenable(s.insert(k, a)) == first_listenable(s),
    decreases k,
{
    let t = s.insert(k, a);
    if k == 0 {
        assert(t.drop_first() =~= s);
    } else {
        assert(t[0] == s[0]);
        if !is_listenable(s[0]) {
            assert(t.drop_first() =~= s.drop_first().insert(k - 1, a));
            lemma_insert_unlistenable(s.drop_first(), k - 1, a);
        }
    }
}

/// An address that cannot be listened on, removed from anywhere among the interface's
/// addresses, does not change the choice.
pub proof fn lemma_remove_unlistenable(s: Seq<InterfaceAddress>, k: int)
    requires
        0 <= k < s.len(),
        !is_listenable(s[k]),
    ensures
        first_listenable(s.remove(k)) == first_listenable(s),
{
    assert(s.remove(k).insert(k, s[k]) =~= s);
    lemma_insert_unlistenable(s.remove(k), k, s[k]);
}

/// Addresses appended after a listenable one do not change the choice.
pub proof fn lemma_append_after_listenable(s: Seq<InterfaceAddress>, t: Seq<InterfaceAddress>)
    requires
        first_listenable(s) is Some,
    ensures
        first_listenable(s + t) == first_listenable(s),
    decreases s.len(),
{
    let u = s + t;
    assert(u[0] == s[0]);
    if !is_listenable(s[0]) {
        assert(u.drop_first() =~= s.drop_first() + t);
        lemma_append_after_listenable(s.drop_first(), t);
    }
}

/// The IP of the first listenable address of `addresses`, if any.
pub fn get_address(addresses: &Vec<InterfaceAddress>) -> (r: Option<String>)
    ensures
        r is Some <==> exists|i: int|
            0 <= i < addresses@.len() && #[trigger] is_listenable(addresses@[i]),
        r matches Some(ip) ==> exists|i: int|
            0 <= i < addresses@.len() && #[trigger] is_listenable(addresses@[i])
                && ip@ == addresses@[i].ip->0@ && forall|j: int|
                0 <= j < i ==> !is_listenable(#[trigger] addresses@[j]),
        r is None <==> first_listenable(addresses@) is None,
        r matches Some(ip) ==> (first_listenable(addresses@) matches Some(a) && ip@ == a.ip->0@),
        (exists|i: int|
            0 <= i < addresses@.len() && (#[trigger] addresses@[i]).is_ipv4 && addresses@[i].ip is Some)
            ==> r is Some,
        r matches Some(ip) ==> exists|i: int|
            {
                &&& 0 <= i < addresses@.len()
                &&& (#[trigger] addresses@[i]).is_ipv4
                &&& addresses@[i].ip matches Some(a) && a@ == ip@
                &&& forall|j: int|
                    0 <= j < i ==> !((#[trigger] addresses@[j]).is_ipv4 && addresses@[j].ip is Some)
            },
{
    let mut i: usize = 0;
    while i < addresses.len()
        invariant
            i <= addresses@.len(),
            forall|j: int| 0 <= j < i ==> !is_listenable(#[trigger] addresses@[j]),
        decreases addresses@.len() - i,
    {
        let a = &addresses[i];
        if a.is_ipv4 {
            match &a.ip {
                Some(ip) => {
                    assert(is_listenable(addresses@[i as int]));
                    proof {
                        lemma_first_listenable_at(addresses@, i as int);
                    }
                    return Some(ip.clone());
                },
                None => {},
            }
        }
        i = i + 1;
    }
    proof {
        lemma_first_listenable_none(addresses@);
    }
    None
}

} // verus!
