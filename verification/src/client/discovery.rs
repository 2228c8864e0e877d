//! Where a caller finds Servers when there is no directory to ask.

use vstd::prelude::*;
use vstd::string::*;

use crate::keyed::Key;
use crate::text::{is_text_le, lemma_text_le_total, lemma_text_le_trans, text_le};
use crate::transport::Endpoint;

verus! {

/// Why discovery failed.
#[derive(Clone, Debug)]
pub enum DiscoveryError {
    ResolveFailed(String),
}

impl DiscoveryError {
    /// What the error says.
    pub open spec fn text(self) -> Seq<char> {
        match self {
            DiscoveryError::ResolveFailed(detail) => "discovery failed: "@ + detail@,
        }
    }

    /// The error as text.
    pub fn message(&self) -> (message: String)
        ensures
            message@ == self.text(),
    {
        match self {
            DiscoveryError::ResolveFailed(detail) => "discovery failed: ".to_owned().concat(
                detail.as_str(),
            ),
        }
    }
}

/// The names of endpoints.
pub open spec fn endpoint_views(endpoints: Seq<Endpoint>) -> Seq<Seq<char>> {
    endpoints.map_values(|e: Endpoint| e@)
}

/// A fixed list of Servers.
pub struct StaticListDiscovery {
    endpoints: Vec<Endpoint>,
}

impl StaticListDiscovery {
    /// The names of the Servers.
    pub closed spec fn names(&self) -> Seq<Seq<char>> {
        endpoint_views(self.endpoints@)
    }

    /// A fixed list of Servers.
    pub fn new(endpoints: Vec<Endpoint>) -> (discovery: Self)
        ensures
            discovery.names() == endpoint_views(endpoints@),
    {
        StaticListDiscovery { endpoints }
    }

    /// The Servers of the list.
    pub fn resolve(&self) -> (endpoints: Vec<Endpoint>)
        ensures
            endpoint_views(endpoints@) == self.names(),
    {
        let mut endpoints: Vec<Endpoint> = Vec::new();
        let mut i: usize = 0;
        while i < self.endpoints.len()
            invariant
                i <= self.endpoints@.len(),
                endpoints@.len() == i,
                forall|j: int| 0 <= j < i ==> (#[trigger] endpoints@[j])@ == self.endpoints@[j]@,
            decreases self.endpoints@.len() - i,
        {
            endpoints.push(self.endpoints[i].duplicate());
            i += 1;
        }
        assert(endpoint_views(endpoints@) =~= self.names());
        endpoints
    }
}

/// A name that the host resolves to the addresses of Servers.
pub struct DnsDiscovery {
    name: String,
}

impl DnsDiscovery {
    /// The name.
    pub closed spec fn host(&self) -> Seq<char> {
        self.name@
    }

    /// Servers behind a name.
    pub fn new(name: String) -> (discovery: Self)
        ensures
            discovery.host() == name@,
    {
        DnsDiscovery { name }
    }

    /// The name to resolve.
    pub fn name(&self) -> (name: &str)
        ensures
            name@ == self.host(),
    {
        self.name.as_str()
    }

    /// The Servers at the addresses that a name was resolved to: each once, in
    /// order.
    pub fn endpoints(addresses: &Vec<String>) -> (endpoints: Vec<Endpoint>)
        ensures
            strictly_sorted(endpoint_views(endpoints@)),
            forall|name: Seq<char>|
                endpoint_views(endpoints@).contains(name) <==> is_url_of(addresses@, name),
    {
        let mut endpoints: Vec<Endpoint> = Vec::new();
        let mut i: usize = 0;
        while i < addresses.len()
            invariant
                i <= addresses@.len(),
                strictly_sorted(endpoint_views(endpoints@)),
                forall|name: Seq<char>|
                    endpoint_views(endpoints@).contains(name) <==> is_url_of(
                        addresses@.take(i as int),
                        name,
                    ),
            decreases addresses@.len() - i,
        {
            let url = "http://".to_owned().concat(addresses[i].as_str());
            let ghost before = endpoint_views(endpoints@);
            insert_sorted(&mut endpoints, Endpoint::new(url));
            proof {
                assert forall|name: Seq<char>|
                    endpoint_views(endpoints@).contains(name) <==> is_url_of(
                        addresses@.take(i + 1),
                        name,
                    ) by {
                    let shorter = addresses@.take(i as int);
                    let longer = addresses@.take(i + 1);
                    if is_url_of(shorter, name) {
                        let k = choose|k: int|
                            0 <= k < shorter.len() && "http://"@ + (#[trigger] shorter[k])@ == name;
                        assert(longer[k] == shorter[k]);
                    }
                    if name == url@ {
                        assert("http://"@ + longer[i as int]@ == name);
                    }
                    if is_url_of(longer, name) {
                        let k = choose|k: int|
                            0 <= k < longer.len() && "http://"@ + (#[trigger] longer[k])@ == name;
                        if k < i {
                            assert(shorter[k] == longer[k]);
                        }
                    }
                    assert(before.contains(name) == is_url_of(shorter, name));
                }
            }
            i += 1;
        }
        assert(addresses@.take(i as int) =~= addresses@);
        endpoints
    }
}

/// The URL of one of the addresses.
pub open spec fn is_url_of(addresses: Seq<String>, name: Seq<char>) -> bool {
    exists|i: int|
        0 <= i < addresses.len() && "http://"@ + (#[trigger] addresses[i])@ == name
}

/// The names are in order, and none occurs twice.
pub open spec fn strictly_sorted(names: Seq<Seq<char>>) -> bool {
    forall|i: int, j: int|
        0 <= i < j < names.len() ==> text_le(#[trigger] names[i], #[trigger] names[j]) && names[i]
            != names[j]
}

fn insert_sorted(endpoints: &mut Vec<Endpoint>, endpoint: Endpoint)
    requires
        strictly_sorted(endpoint_views(old(endpoints)@)),
    ensures
        strictly_sorted(endpoint_views(final(endpoints)@)),
        forall|name: Seq<char>|
            endpoint_views(final(endpoints)@).contains(name) <==> endpoint_views(
                old(endpoints)@,
            ).contains(name) || name == endpoint@,
{
    let ghost before = endpoint_views(endpoints@);
    let mut at: usize = 0;
    let mut found = false;
    while at < endpoints.len() && !found
        invariant
            at <= endpoints@.len(),
            before == endpoint_views(endpoints@),
            *endpoints == *old(endpoints),
            strictly_sorted(before),
            forall|j: int|
                0 <= j < at ==> text_le(#[trigger] before[j], endpoint@) && before[j] != endpoint@,
            found ==> at < endpoints@.len() && !text_le(before[at as int], endpoint@),
        decreases endpoints@.len() - at + if found { 0int } else { 1 },
    {
        assert(before[at as int] == endpoints@[at as int]@);
        if endpoints[at].same(&endpoint) {
            assert(before.contains(endpoint@));
            return;
        }
        if is_text_le(endpoints[at].as_str(), endpoint.as_str()) {
            at += 1;
        } else {
            found = true;
        }
    }
    endpoints.insert(at, endpoint);
    proof {
        let after = endpoint_views(endpoints@);
        assert(after =~= before.insert(at as int, endpoint@));
        if at < before.len() {
            lemma_text_le_total(before[at as int], endpoint@);
        }
        assert forall|i: int, j: int| 0 <= i < j < after.len() implies text_le(
            #[trigger] after[i],
            #[trigger] after[j],
        ) && after[i] != after[j] by {
            let bi = if i < at { i } else { i - 1 };
            let bj = if j < at { j } else { j - 1 };
            if i == at {
                assert(after[j] == before[bj]);
                if bj > at {
                    assert(text_le(before[at as int], before[bj]));
                    lemma_text_le_trans(endpoint@, before[at as int], before[bj]);
                    if before[bj] == endpoint@ {
                        lemma_text_le_total(before[at as int], endpoint@);
                    }
                }
            } else if j == at {
                assert(after[i] == before[i]);
            } else {
                assert(after[i] == before[bi]);
                assert(after[j] == before[bj]);
            }
        }
        assert forall|name: Seq<char>| after.contains(name) <==> before.contains(name) || name
            == endpoint@ by {
            if before.contains(name) {
                let i = choose|i: int| 0 <= i < before.len() && before[i] == name;
                assert(after[if i < at { i } else { i + 1 }] == name);
            }
            if name == endpoint@ {
                assert(after[at as int] == name);
            }
            if after.contains(name) {
                let i = choose|i: int| 0 <= i < after.len() && after[i] == name;
                if i != at {
                    assert(before[if i < at { i } else { i - 1 }] == name);
                }
            }
        }
    }
}

/// The URL of an address is the address after the scheme, and every address has one.
pub proof fn law_addresses_have_urls(addresses: Seq<String>, i: int, name: Seq<char>)
    requires
        0 <= i < addresses.len(),
    ensures
        is_url_of(addresses, "http://"@ + addresses[i]@),
        is_url_of(addresses, name) ==> name.len() >= 7 && name.take(7) == "http://"@ && exists|
            k: int,
        |
            0 <= k < addresses.len() && name.skip(7) == (#[trigger] addresses[k])@,
{
    reveal_strlit("http://");
    if is_url_of(addresses, name) {
        let k = choose|k: int|
            0 <= k < addresses.len() && "http://"@ + (#[trigger] addresses[k])@ == name;
        assert(name.take(7) =~= "http://"@);
        assert(name.skip(7) =~= addresses[k]@);
    }
}

/// Of two names in order, the later one differs from the earlier one first by a greater
/// character, or goes on where the earlier one ends; so no name occurs twice.
pub proof fn law_sorted_names_are_distinct(names: Seq<Seq<char>>, i: int, j: int)
    requires
        strictly_sorted(names),
        0 <= i < names.len(),
        0 <= j < names.len(),
    ensures
        names[i] == names[j] ==> i == j,
        i < j ==> text_le(names[i], names[j]),
{
}

} // verus!
