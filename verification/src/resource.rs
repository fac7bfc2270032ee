//! The resource descriptor: the `service.name` attribute first, then every
//! configured resource attribute, handed to the backend's resource builder.

use vstd::prelude::*;
use vstd::string::*;

use opentelemetry_sdk::Resource;

use crate::backend;
use crate::strmap::StrMap;

verus! {

/// The (key, value) pairs as character sequences, in order.
pub open spec fn kv_views(es: Seq<(String, String)>) -> Seq<(Seq<char>, Seq<char>)> {
    es.map_values(|e: (String, String)| (e.0@, e.1@))
}

/// The attribute list of the resource descriptor: `service.name` with the
/// resolved service name first, then every configured attribute in order.
pub fn resource_pairs(service_name: &str, attrs: &StrMap) -> (r: Vec<(String, String)>)
    requires
        attrs.wf(),
    ensures
        kv_views(r@) == seq![("service.name"@, service_name@)] + attrs.pairs(),
{
    let mut kvs: Vec<(String, String)> = Vec::new();
    kvs.push((String::from_str("service.name"), String::from_str(service_name)));
    proof {
        assert(kv_views(kvs@) =~= seq![("service.name"@, service_name@)] + attrs.pairs().take(0));
    }
    let n = attrs.len();
    let mut i: usize = 0;
    while i < n
        invariant
            i <= n,
            n == attrs.pairs().len(),
            kv_views(kvs@) == seq![("service.name"@, service_name@)] + attrs.pairs().take(i as int),
        decreases n - i,
    {
        let (k, v) = attrs.pair_at(i);
        let pair = (k.clone(), v.clone());
        let ghost gp = pair;
        let ghost prev = kvs@;
        kvs.push(pair);
        proof {
            let head = seq![("service.name"@, service_name@)];
            let rhs = head + attrs.pairs().take(i + 1);
            assert((gp.0@, gp.1@) == attrs.pairs()[i as int]);
            assert forall|j: int| 0 <= j < kvs@.len() implies kv_views(kvs@)[j] == rhs[j] by {
                assert(kv_views(kvs@)[j] == (kvs@[j].0@, kvs@[j].1@));
                if j < prev.len() {
                    assert(kvs@[j] == prev[j]);
                    assert(kv_views(prev)[j] == (prev[j].0@, prev[j].1@));
                    assert((head + attrs.pairs().take(i as int))[j] == rhs[j]);
                } else {
                    assert(kvs@[j] == gp);
                    assert(rhs[j] == attrs.pairs()[i as int]);
                }
            }
            assert(kv_views(kvs@) =~= rhs);
        }
        i += 1;
    }
    proof {
        assert(attrs.pairs().take(n as int) =~= attrs.pairs());
    }
    kvs
}

/// Build the resource descriptor for a service name and attribute map.
pub fn build_resource(service_name: &str, attrs: &StrMap) -> (r: Resource)
    requires
        attrs.wf(),
{
    let pairs = resource_pairs(service_name, attrs);
    backend::resource_from_pairs(&pairs)
}

} // verus!
