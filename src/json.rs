//! JSON text of a flat parameter mapping.

use vstd::prelude::*;
use crate::params::pairs_view;

verus! {

/// What serde_json writes for a string value: the quoted, escaped text.
pub uninterp spec fn json_str_of(s: Seq<char>) -> Seq<char>;

/// Relies on serde_json::to_string applied to a `str`: the JSON string literal
/// for the text, which depends on the text alone. Writing a string into the
/// in-memory buffer it uses cannot fail.
#[verifier::external_body]
fn json_string(s: &str) -> (r: Option<String>)
    ensures
        r is Some,
        r matches Some(t) ==> t@ == json_str_of(s@),
{
    serde_json::to_string(s).ok()
}

/// The members of a JSON object holding the given pairs, in order.
pub open spec fn json_members(pairs: Seq<(Seq<char>, Seq<char>)>) -> Seq<char>
    decreases pairs.len(),
{
    if pairs.len() == 0 {
        Seq::empty()
    } else {
        let last = pairs.last();
        let member = json_str_of(last.0) + seq![':'] + json_str_of(last.1);
        if pairs.len() == 1 {
            member
        } else {
            json_members(pairs.drop_last()) + seq![','] + member
        }
    }
}

/// A JSON object holding the given pairs, in order.
pub open spec fn json_object(pairs: Seq<(Seq<char>, Seq<char>)>) -> Seq<char> {
    seq!['{'] + json_members(pairs) + seq!['}']
}

/// Writes the pairs as one JSON object whose members keep their order.
pub fn pairs_to_json(pairs: &Vec<(String, String)>) -> (r: String)
    ensures
        r@ == json_object(pairs_view(pairs@)),
{
    let ghost pv = pairs_view(pairs@);
    let mut out = String::from_str("{");
    proof { reveal_strlit("{"); }
    let mut i: usize = 0;
    while i < pairs.len()
        invariant
            i <= pairs@.len(),
            pv == pairs_view(pairs@),
            out@ == seq!['{'] + json_members(pv.subrange(0, i as int)),
        decreases pairs@.len() - i,
    {
        let k = json_string(pairs[i].0.as_str()).unwrap();
        let v = json_string(pairs[i].1.as_str()).unwrap();
        let ghost prev = out@;
        if i > 0 {
            out.append(",");
            proof { reveal_strlit(","); }
        }
        out.append(k.as_str());
        out.append(":");
        proof { reveal_strlit(":"); }
        out.append(v.as_str());
        proof {
            let s = pv.subrange(0, i + 1);
            assert(s.drop_last() == pv.subrange(0, i as int));
            assert(s.last() == pv[i as int]);
            if i > 0 {
                assert(out@ =~= prev + seq![','] + (k@ + seq![':'] + v@));
            } else {
                assert(out@ =~= prev + (k@ + seq![':'] + v@));
            }
        }
        i = i + 1;
    }
    out.append("}");
    proof {
        reveal_strlit("}");
        assert(pv.subrange(0, pairs@.len() as int) == pv);
    }
    out
}

} // verus!
