//! The fixed set of known-malicious content digests.
use vstd::prelude::*;
use vstd::string::StringExecFns;

verus! {

/// Whether a digest is one of the known-malicious signatures.
pub open spec fn is_signature(d: Seq<char>) -> bool {
    ||| d == "179b5da318604f97616b5108f305e2a8e4609484"@
    ||| d == "1a1c4dcae846866c58cc1abf71fb7f7aa4e7352a"@
    ||| d == "e4d55310039b965fce6756da5286b481cfb09946"@
    ||| d == "2f47e57a6bedc729359ffaf6f0149876008b5cc3"@
}

/// The known-malicious digests, as listed (one is listed twice; membership is unaffected).
pub fn infected_hashes() -> (r: Vec<String>)
    ensures
        forall|d: Seq<char>| is_signature(d) <==> exists|i: int| 0 <= i < r@.len() && r@[i]@ == d,
{
    let mut r: Vec<String> = Vec::new();
    r.push(String::from_str("179b5da318604f97616b5108f305e2a8e4609484"));
    r.push(String::from_str("1a1c4dcae846866c58cc1abf71fb7f7aa4e7352a"));
    r.push(String::from_str("e4d55310039b965fce6756da5286b481cfb09946"));
    r.push(String::from_str("2f47e57a6bedc729359ffaf6f0149876008b5cc3"));
    r.push(String::from_str("2f47e57a6bedc729359ffaf6f0149876008b5cc3"));
    assert forall|d: Seq<char>| is_signature(d) implies exists|i: int| 0 <= i < r@.len() && r@[i]@ == d by {
        if d == r@[0]@ {
        } else if d == r@[1]@ {
            assert(r@[1]@ == d);
        } else if d == r@[2]@ {
            assert(r@[2]@ == d);
        } else {
            assert(r@[3]@ == d);
        }
    }
    r
}

/// Membership test in the signature set.
pub fn is_infected(digest: &String) -> (r: bool)
    ensures
        r == is_signature(digest@),
{
    let known = infected_hashes();
    let mut i: usize = 0;
    while i < known.len()
        invariant
            0 <= i <= known@.len(),
            forall|d: Seq<char>| is_signature(d) <==> exists|j: int| 0 <= j < known@.len() && known@[j]@ == d,
            forall|j: int| 0 <= j < i ==> known@[j]@ != digest@,
        decreases known@.len() - i,
    {
        if *digest == known[i] {
            return true;
        }
        i = i + 1;
    }
    false
}

} // verus!
