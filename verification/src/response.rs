use vstd::prelude::*;
use crate::error::{STATUS_OK, STATUS_CREATED};

verus! {

/// A resource that builds to nothing: the body of an answer that carries
/// no data.
#[derive(Clone, Copy, Debug)]
pub struct EmptyResourceBuilder;

/// The answer of a back office handler: "OK" or "created" (with a link to
/// the new resource), each with or without a body.
pub enum ApiResponse<R, L> {
    Success(Option<R>),
    Created(L, Option<R>),
}

impl<R, L> ApiResponse<R, L> {
    /// "OK" with the resource as body.
    pub fn ok(resource: R) -> (r: Self)
        ensures
            r == ApiResponse::<R, L>::Success(Some(resource)),
    {
        ApiResponse::Success(Some(resource))
    }

    /// "Created", pointing at the link, with the resource as body.
    pub fn created(link: L, resource: R) -> (r: Self)
        ensures
            r == ApiResponse::<R, L>::Created(link, Some(resource)),
    {
        ApiResponse::Created(link, Some(resource))
    }

    /// "OK" without a body.
    pub fn ok_empty() -> (r: Self)
        ensures
            r == ApiResponse::<R, L>::Success(None),
    {
        ApiResponse::Success(None)
    }

    /// The HTTP status of the answer.
    pub fn status_code(&self) -> (r: u16)
        ensures
            r == (if self is Created { STATUS_CREATED } else { STATUS_OK }),
    {
        match self {
            ApiResponse::Success(_) => STATUS_OK,
            ApiResponse::Created(_, _) => STATUS_CREATED,
        }
    }
}

/// The keys of a list of pairs, in order.
pub open spec fn spec_keys<L>(entries: Seq<(String, L)>) -> Seq<Seq<char>> {
    entries.map_values(|e: (String, L)| e.0@)
}

/// The links of a resource, keyed by the text of their relation: at most
/// one link per relation.
pub struct Links<L> {
    entries: Vec<(String, L)>,
}

impl<L> Links<L> {
    /// No two entries share a relation.
    pub closed spec fn well_formed(&self) -> bool {
        spec_keys(self.entries@).no_duplicates()
    }

    /// The links by relation.
    pub closed spec fn spec_map(&self) -> Map<Seq<char>, L> {
        Map::new(
            |k: Seq<char>| spec_keys(self.entries@).contains(k),
            |k: Seq<char>| self.entries@[spec_keys(self.entries@).index_of(k)].1,
        )
    }

    /// The number of links.
    pub closed spec fn spec_len(&self) -> nat {
        self.entries@.len()
    }

    /// No links.
    pub fn default() -> (r: Self)
        ensures
            r.well_formed(),
            r.spec_map() == Map::<Seq<char>, L>::empty(),
            r.spec_len() == 0,
    {
        let r = Links { entries: Vec::new() };
        proof {
            assert(spec_keys(r.entries@) =~= Seq::<Seq<char>>::empty());
            assert(r.spec_map() =~= Map::<Seq<char>, L>::empty());
        }
        r
    }

    /// The links with `link` under the relation `rel`, in place of the one
    /// that was there.
    pub fn add(self, rel: String, link: L) -> (r: Self)
        requires
            self.well_formed(),
        ensures
            r.well_formed(),
            r.spec_map() == self.spec_map().insert(rel@, link),
            r.spec_len() == (if self.spec_map().dom().contains(rel@) { self.spec_len() } else { self.spec_len() + 1 }),
    {
        let ghost old_entries = self.entries@;
        let ghost old_map = self.spec_map();
        let mut entries = self.entries;
        let mut i: usize = 0;
        while i < entries.len() && !(entries[i].0 == rel)
            invariant
                entries@ == old_entries,
                i <= entries@.len(),
                forall|j: int| 0 <= j < i ==> #[trigger] entries@[j].0@ != rel@,
            decreases entries@.len() - i,
        {
            i = i + 1;
        }
        proof {
            assert(spec_keys(old_entries).len() == old_entries.len());
        }
        if i < entries.len() {
            let ghost k = spec_keys(old_entries);
            proof {
                assert(k[i as int] == rel@);
                lemma_index_of_unique(k, rel@, i as int);
            }
            entries.set(i, (rel, link));
            let r = Links { entries };
            proof {
                let nk = spec_keys(r.entries@);
                assert(nk =~= k);
                assert(r.spec_map() =~= old_map.insert(rel@, link)) by {
                    assert forall|key: Seq<char>| #[trigger] nk.contains(key) implies
                        r.entries@[nk.index_of(key)].1 == old_map.insert(rel@, link)[key] by {
                        if key != rel@ {
                            assert(nk.index_of(key) != i as int);
                        }
                    }
                }
            }
            r
        } else {
            let ghost k = spec_keys(old_entries);
            proof {
                assert(!k.contains(rel@)) by {
                    if k.contains(rel@) {
                        let j = k.index_of(rel@);
                        assert(old_entries[j].0@ == rel@);
                    }
                }
            }
            entries.push((rel, link));
            let r = Links { entries };
            proof {
                let nk = spec_keys(r.entries@);
                assert(nk =~= k.push(rel@));
                assert(nk.no_duplicates()) by {
                    assert forall|a: int, b: int| 0 <= a < b < nk.len() implies nk[a] != nk[b] by {
                        if b == nk.len() - 1 {
                            assert(k[a] == nk[a]);
                            assert(k.contains(nk[a]));
                        }
                    }
                }
                assert forall|key: Seq<char>| nk.contains(key) <==> (k.contains(key) || key == rel@) by {
                    if k.contains(key) {
                        let j = k.index_of(key);
                        assert(nk[j] == key);
                    }
                    if nk.contains(key) && key != rel@ {
                        let j = nk.index_of(key);
                        assert(j < k.len());
                        assert(k[j] == key);
                    }
                    if key == rel@ {
                        assert(nk[k.len() as int] == key);
                    }
                }
                assert(r.spec_map() =~= old_map.insert(rel@, link)) by {
                    assert forall|key: Seq<char>| #[trigger] nk.contains(key) implies
                        r.entries@[nk.index_of(key)].1 == old_map.insert(rel@, link)[key] by {
                        if key == rel@ {
                            lemma_index_of_unique(nk, key, k.len() as int);
                        } else {
                            assert(k.contains(key)) by {
                                let j = nk.index_of(key);
                                assert(j < k.len());
                                assert(k[j] == key);
                            }
                            let j = k.index_of(key);
                            assert(nk[j] == key);
                            lemma_index_of_unique(nk, key, j);
                        }
                    }
                }
            }
            r
        }
    }

    /// The links as pairs of relation and link, each relation once.
    pub fn entries(&self) -> (r: &Vec<(String, L)>)
        ensures
            r@.len() == self.spec_len(),
            forall|k: Seq<char>| #[trigger] self.spec_map().dom().contains(k)
                ==> exists|i: int| 0 <= i < r@.len() && r@[i].0@ == k,
            self.well_formed() ==> spec_keys(r@).no_duplicates(),
            self.well_formed() ==> forall|i: int| 0 <= i < r@.len()
                ==> self.spec_map().dom().contains(#[trigger] r@[i].0@) && self.spec_map()[r@[i].0@] == r@[i].1,
    {
        proof {
            assert forall|k: Seq<char>| #[trigger] self.spec_map().dom().contains(k)
                implies exists|i: int| 0 <= i < self.entries@.len() && self.entries@[i].0@ == k by {
                let ks = spec_keys(self.entries@);
                let i = ks.index_of(k);
                assert(ks[i] == k);
            }
            assert forall|i: int| 0 <= i < self.entries@.len() && self.well_formed() implies
                self.spec_map().dom().contains(#[trigger] self.entries@[i].0@)
                && self.spec_map()[self.entries@[i].0@] == self.entries@[i].1 by {
                let k = spec_keys(self.entries@);
                assert(k[i] == self.entries@[i].0@);
                assert(k.contains(k[i]));
                lemma_index_of_unique(k, k[i], i);
            }
        }
        &self.entries
    }
}

/// In a sequence without duplicates, an element is found where it stands.
proof fn lemma_index_of_unique<A>(s: Seq<A>, x: A, i: int)
    requires
        s.no_duplicates(),
        0 <= i < s.len(),
        s[i] == x,
    ensures
        s.index_of(x) == i,
{
    assert(s.contains(x));
}

} // verus!
