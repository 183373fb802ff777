//! Reading a peer identifier out of a multiaddress in text form.
//!
//! A full peer address ends in a `/p2p/` segment carrying the peer's
//! identifier. Seeding the routing table needs that identifier; an address
//! without one is skipped.

use vstd::prelude::*;
use vstd::string::StrSliceExecFns;

verus! {

/// The index of the last `/` at or before position `i`, or -1 if none.
pub open spec fn last_slash(s: Seq<char>, i: int) -> int
    decreases i + 1,
{
    if i < 0 || i >= s.len() {
        -1
    } else if s[i] == '/' {
        i
    } else {
        last_slash(s, i - 1)
    }
}

/// The peer identifier carried by the address, if its final segment is a
/// `/p2p/` segment with a non-empty identifier.
pub open spec fn peer_id_in_address(s: Seq<char>) -> Option<Seq<char>> {
    let j = last_slash(s, s.len() - 1);
    if j >= 4 && j + 1 < s.len() && s.subrange(j - 4, j + 1) == "/p2p/"@ {
        Some(s.subrange(j + 1, s.len() as int))
    } else {
        None
    }
}

/// Extract the peer identifier from a full address, if the address ends in
/// a `/p2p/<identifier>` segment.
pub fn peer_id_of_address(address: &String) -> (r: Option<String>)
    ensures
        r is Some <==> peer_id_in_address(address@) is Some,
        r matches Some(id) ==> peer_id_in_address(address@) == Some(id@),
{
    let text = address.as_str();
    let n = text.unicode_len();
    if n == 0 {
        return None;
    }
    let mut i: usize = n;
    while i > 0 && text.get_char(i - 1) != '/'
        invariant
            text@ == address@,
            n == address@.len(),
            i <= n,
            last_slash(address@, n - 1) == last_slash(address@, i - 1),
        decreases i,
    {
        proof {
            assert(last_slash(address@, i - 1) == last_slash(address@, i - 2));
        }
        i = i - 1;
    }
    if i == 0 {
        assert(last_slash(address@, n - 1) == -1);
        return None;
    }
    let j = i - 1;
    assert(last_slash(address@, n - 1) == j as int);
    if j < 4 || j + 1 >= n {
        return None;
    }
    if text.get_char(j - 4) == '/' && text.get_char(j - 3) == 'p' && text.get_char(j - 2) == '2'
        && text.get_char(j - 1) == 'p' {
        proof {
            reveal_strlit("/p2p/");
            assert(address@.subrange(j - 4, j + 1) =~= "/p2p/"@);
        }
        Some(text.substring_char(j + 1, n).to_owned())
    } else {
        proof {
            reveal_strlit("/p2p/");
            assert(address@.subrange(j - 4, j + 1) != "/p2p/"@) by {
                let sub = address@.subrange(j - 4, j + 1);
                if address@[j - 4] != '/' {
                    assert(sub[0] != "/p2p/"@[0]);
                } else if address@[j - 3] != 'p' {
                    assert(sub[1] != "/p2p/"@[1]);
                } else if address@[j - 2] != '2' {
                    assert(sub[2] != "/p2p/"@[2]);
                } else {
                    assert(sub[3] != "/p2p/"@[3]);
                }
            }
        }
        None
    }
}

} // verus!
