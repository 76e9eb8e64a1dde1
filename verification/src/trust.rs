//! Trust anchors: the additional certificate-authority material that network
//! operations are to accept, bundled for the transport.

use vstd::prelude::*;
use vstd::string::StringExecFns;

verus! {

/// The bundle made of PEM certificates: their texts, one after the other.
pub open spec fn bundle_of(pem_certificates: Seq<Seq<char>>) -> Seq<char> {
    pem_certificates.flatten()
}

/// Bundles PEM certificates into the one text that is handed to the transport.
pub fn bundle_trust_anchors(pem_certificates: &Vec<String>) -> (bundle: String)
    ensures
        bundle@ == bundle_of(pem_certificates.deep_view()),
{
    let ghost all = pem_certificates.deep_view();
    let mut bundle = String::new();
    let mut i: usize = 0;
    assert(all.take(0) =~= Seq::<Seq<char>>::empty());
    while i < pem_certificates.len()
        invariant
            i <= pem_certificates.len(),
            all == pem_certificates.deep_view(),
            bundle@ == all.take(i as int).flatten(),
        decreases pem_certificates.len() - i,
    {
        proof {
            all.take(i as int).lemma_flatten_push(all[i as int]);
            assert(all.take(i as int).push(all[i as int]) =~= all.take(i + 1));
        }
        bundle.append(pem_certificates[i].as_str());
        i += 1;
    }
    assert(all.take(pem_certificates.len() as int) =~= all);
    bundle
}

} // verus!
