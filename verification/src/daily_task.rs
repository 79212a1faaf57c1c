use vstd::prelude::*;

use crate::external::sample_distinct_indices;
use crate::types::{Links, SocialPlatform};

verus! {

/// The link list with every link whose url matches removed, order kept.
pub open spec fn without_url(s: Seq<Links>, url: Seq<char>) -> Seq<Links>
    decreases s.len(),
{
    if s.len() == 0 {
        s
    } else {
        let rest = without_url(s.drop_last(), url);
        if s.last().url@ == url {
            rest
        } else {
            rest.push(s.last())
        }
    }
}

/// The drawn links come from pairwise distinct pool positions, and each
/// carries its source entry's url and platform.
pub open spec fn drawn_from(pool: Seq<Links>, v: Seq<Links>, picked: Seq<int>) -> bool {
    &&& picked.len() == v.len()
    &&& (forall|k: int| 0 <= k < picked.len() ==> 0 <= #[trigger] picked[k] < pool.len())
    &&& (forall|k: int, k2: int| 0 <= k < k2 < picked.len() ==> picked[k] != picked[k2])
    &&& (forall|k: int|
        0 <= k < v.len() ==> (#[trigger] v[k]).url@ == pool[picked[k]].url@ && v[k].platform
            == pool[picked[k]].platform)
}

/// The pool of campaign links daily link-visit tasks are drawn from. The pool
/// is plain owned data handed to whoever needs it, so tests can fake it.
#[derive(Clone, Debug)]
pub struct LinkPool {
    pub links: Vec<Links>,
}

impl LinkPool {
    /// An empty pool.
    pub fn new() -> (p: LinkPool)
        ensures
            p.links@.len() == 0,
    {
        LinkPool { links: Vec::new() }
    }

    /// The pool seeded with the four default campaign links.
    pub fn default_pool() -> (p: LinkPool)
        ensures
            p.links@.len() == 4,
            p.links@[0].url@ == "https://youtube.com/campaign1"@,
            p.links@[0].platform == SocialPlatform::YouTube,
            p.links@[1].url@ == "https://twitter.com/promo123"@,
            p.links@[1].platform == SocialPlatform::Twitter,
            p.links@[2].url@ == "https://linkedin.com/offer"@,
            p.links@[2].platform == SocialPlatform::LinkedIn,
            p.links@[3].url@ == "https://discord.gg/community"@,
            p.links@[3].platform == SocialPlatform::Discord,
            forall|i: int| 0 <= i < 4 ==> !(#[trigger] p.links@[i]).visited,
    {
        let mut links: Vec<Links> = Vec::new();
        links.push(
            Links {
                url: "https://youtube.com/campaign1".to_owned(),
                platform: SocialPlatform::YouTube,
                visited: false,
            },
        );
        links.push(
            Links {
                url: "https://twitter.com/promo123".to_owned(),
                platform: SocialPlatform::Twitter,
                visited: false,
            },
        );
        links.push(
            Links {
                url: "https://linkedin.com/offer".to_owned(),
                platform: SocialPlatform::LinkedIn,
                visited: false,
            },
        );
        links.push(
            Links {
                url: "https://discord.gg/community".to_owned(),
                platform: SocialPlatform::Discord,
                visited: false,
            },
        );
        LinkPool { links }
    }

    /// Appends a new link to the pool.
    pub fn insert_link(&mut self, new_link: Links)
        ensures
            final(self).links@ == old(self).links@.push(new_link),
    {
        self.links.push(new_link);
    }

    /// Removes every link whose url exactly matches; reports whether any was
    /// removed.
    pub fn delete_link_by_url(&mut self, url: &String) -> (removed: bool)
        ensures
            final(self).links@ == without_url(old(self).links@, url@),
            removed == exists|i: int|
                0 <= i < old(self).links@.len() && (#[trigger] old(self).links@[i]).url@ == url@,
    {
        let mut kept: Vec<Links> = Vec::new();
        let mut found = false;
        let mut i: usize = 0;
        while i < self.links.len()
            invariant
                0 <= i <= self.links@.len(),
                kept@ == without_url(old(self).links@.take(i as int), url@),
                self.links@ == old(self).links@,
                found == exists|j: int|
                    0 <= j < i && (#[trigger] old(self).links@[j]).url@ == url@,
            decreases self.links@.len() - i,
        {
            let l = &self.links[i];
            if *(&l.url) == *url {
                found = true;
            } else {
                kept.push(Links { url: l.url.clone(), platform: l.platform, visited: l.visited });
            }
            proof {
                assert(old(self).links@.take(i + 1).drop_last() =~= old(self).links@.take(
                    i as int,
                ));
                assert(old(self).links@.take(i + 1).last() == old(self).links@[i as int]);
                if old(self).links@[i as int].url@ != url@ {
                    assert(kept@.last() == old(self).links@[i as int]);
                }
            }
            i = i + 1;
        }
        proof {
            assert(self.links@.take(self.links@.len() as int) =~= self.links@);
        }
        self.links = kept;
        found
    }

    /// A copy of every link in the pool.
    pub fn list_all_links(&self) -> (v: Vec<Links>)
        ensures
            v@ == self.links@,
    {
        let mut v: Vec<Links> = Vec::new();
        let mut i: usize = 0;
        while i < self.links.len()
            invariant
                0 <= i <= self.links@.len(),
                v@ == self.links@.take(i as int),
            decreases self.links@.len() - i,
        {
            let l = &self.links[i];
            v.push(Links { url: l.url.clone(), platform: l.platform, visited: l.visited });
            i = i + 1;
            proof {
                assert(v@ =~= self.links@.take(i as int));
            }
        }
        proof {
            assert(self.links@.take(self.links@.len() as int) =~= self.links@);
        }
        v
    }

    /// Up to `count` links drawn from the pool at random: each comes from
    /// its own pool entry (no entry is handed out twice), and each is handed
    /// out unvisited.
    pub fn get_random_links(&self, count: usize) -> (v: Vec<Links>)
        ensures
            v@.len() == if count <= self.links@.len() {
                count as nat
            } else {
                self.links@.len()
            },
            exists|picked: Seq<int>| #[trigger] drawn_from(self.links@, v@, picked),
            forall|k: int| 0 <= k < v@.len() ==> !(#[trigger] v@[k]).visited,
    {
        let idxs = sample_distinct_indices(count, self.links.len());
        let ghost picked = idxs@.map_values(|x: usize| x as int);
        let mut v: Vec<Links> = Vec::new();
        let mut k: usize = 0;
        while k < idxs.len()
            invariant
                0 <= k <= idxs@.len(),
                idxs@.len() == if count <= self.links@.len() {
                    count as nat
                } else {
                    self.links@.len()
                },
                forall|t: int| 0 <= t < idxs@.len() ==> idxs@[t] < self.links@.len(),
                forall|t: int, t2: int| 0 <= t < t2 < idxs@.len() ==> idxs@[t] != idxs@[t2],
                picked == idxs@.map_values(|x: usize| x as int),
                v@.len() == k,
                forall|t: int|
                    0 <= t < k ==> (#[trigger] v@[t]).url@ == self.links@[picked[t]].url@
                        && v@[t].platform == self.links@[picked[t]].platform && !v@[t].visited,
            decreases idxs@.len() - k,
        {
            let j = idxs[k];
            let l = &self.links[j];
            v.push(Links { url: l.url.clone(), platform: l.platform, visited: false });
            k = k + 1;
        }
        proof {
            assert(drawn_from(self.links@, v@, picked));
        }
        v
    }
}

} // verus!
