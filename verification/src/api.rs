//! Remote API descriptors: the endpoint records a service advertises, and
//! lookup of an endpoint by its identifier.

use vstd::prelude::*;
use vstd::string::StringExecFns;

verus! {

/// One advertised endpoint of a remote service.
pub struct Endpoint {
    pub path: String,
    pub method: Option<String>,
    pub operation_id: Option<String>,
    pub summary: Option<String>,
    pub description: Option<String>,
}

impl Clone for Endpoint {
    fn clone(&self) -> (r: Self)
        ensures
            r == *self,
    {
        Endpoint {
            path: self.path.clone(),
            method: match &self.method {
                Some(s) => Some(s.clone()),
                None => None,
            },
            operation_id: match &self.operation_id {
                Some(s) => Some(s.clone()),
                None => None,
            },
            summary: match &self.summary {
                Some(s) => Some(s.clone()),
                None => None,
            },
            description: match &self.description {
                Some(s) => Some(s.clone()),
                None => None,
            },
        }
    }
}

/// `ep` answers to `id`: by operation id, by path, or by `method:path`.
pub open spec fn endpoint_matches(ep: Endpoint, id: Seq<char>) -> bool {
    ||| ep.operation_id matches Some(o) && o@ == id
    ||| ep.path@ == id
    ||| ep.method matches Some(m) && m@ + seq![':'] + ep.path@ == id
}

/// Finds the first endpoint that answers to `endpoint_id`, by operation id,
/// by path, or by the combined `method:path` form.
pub fn get_endpoint(endpoints: &Vec<Endpoint>, endpoint_id: &String) -> (r: Option<Endpoint>)
    ensures
        match r {
            Some(ep) => exists|i: int|
                0 <= i < endpoints@.len() && ep == endpoints@[i] && #[trigger] endpoint_matches(
                    endpoints@[i],
                    endpoint_id@,
                ) && (forall|j: int|
                    0 <= j < i ==> !endpoint_matches(endpoints@[j], endpoint_id@)),
            None => forall|i: int|
                0 <= i < endpoints@.len() ==> !endpoint_matches(endpoints@[i], endpoint_id@),
        },
{
    proof {
        reveal_strlit(":");
    }
    let n = endpoints.len();
    let mut i: usize = 0;
    while i < n
        invariant
            n == endpoints@.len(),
            0 <= i <= n,
            forall|j: int| 0 <= j < i ==> !endpoint_matches(endpoints@[j], endpoint_id@),
            ":"@ == seq![':'],
        decreases n - i,
    {
        let ep = &endpoints[i];
        let mut hit = ep.path == *endpoint_id;
        if !hit {
            if let Some(op) = &ep.operation_id {
                if *op == *endpoint_id {
                    hit = true;
                }
            }
        }
        if !hit {
            if let Some(m) = &ep.method {
                let mut combined = m.clone();
                combined.append(":");
                combined.append(ep.path.as_str());
                if combined == *endpoint_id {
                    hit = true;
                }
            }
        }
        if hit {
            proof {
                assert(endpoint_matches(endpoints@[i as int], endpoint_id@));
            }
            return Some(ep.clone());
        }
        proof {
            assert(!endpoint_matches(endpoints@[i as int], endpoint_id@));
        }
        i = i + 1;
    }
    None
}

} // verus!
