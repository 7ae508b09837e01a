//! The group auto-source aggregation policy: ranked perceptual-hash matches
//! are filtered by distance, deduplicated against links already present in
//! the triggering message, and turned into a reply plan. Rendering the chosen
//! template and sending the reply belong to the chat transport, not here.

use vstd::prelude::*;

verus! {

/// One candidate match from the perceptual hash-search service, already
/// ranked by the external ordering policy.
#[derive(Clone, Debug)]
pub struct SourceMatch {
    /// Canonical URL of the matched post.
    pub url: String,
    /// Integer dissimilarity score; lower means more similar.
    pub distance: u64,
}

/// Matches whose distance is at most this value are retained.
pub const DISTANCE_THRESHOLD: u64 = 3;

/// The reply the flow decides on; the caller renders the named template.
#[derive(Clone, Debug)]
pub enum SourceReply {
    /// Nothing to report: no match survived filtering, or one of the
    /// retained matches was already linked in the triggering message.
    NoReply,
    /// Exactly one match remained: the single-match template with its link.
    Single { link: String },
    /// Several matches remained: the multi-match template, one
    /// `(link, distance)` pair per retained match, in ranked order.
    Multiple { items: Vec<(String, u64)> },
}

/// A match, reduced to its url characters and its distance.
pub open spec fn match_views(ms: Seq<SourceMatch>) -> Seq<(Seq<char>, u64)> {
    ms.map_values(|m: SourceMatch| (m.url@, m.distance))
}

pub open spec fn pair_views(ps: Seq<(String, u64)>) -> Seq<(Seq<char>, u64)> {
    ps.map_values(|p: (String, u64)| (p.0@, p.1))
}

pub open spec fn link_views(ls: Seq<String>) -> Seq<Seq<char>> {
    ls.map_values(|l: String| l@)
}

/// The matches that survive the distance filter, in their ranked order.
pub open spec fn retained(vs: Seq<(Seq<char>, u64)>) -> Seq<(Seq<char>, u64)>
    decreases vs.len(),
{
    if vs.len() == 0 {
        Seq::empty()
    } else {
        let rest = retained(vs.drop_last());
        if vs.last().1 <= DISTANCE_THRESHOLD {
            rest.push(vs.last())
        } else {
            rest
        }
    }
}

/// The url is already present among the message's links.
pub open spec fn seen(links: Seq<Seq<char>>, url: Seq<char>) -> bool {
    exists|j: int| 0 <= j < links.len() && links[j] == url
}

/// Some retained match's url is already present among the message's links.
pub open spec fn any_seen(vs: Seq<(Seq<char>, u64)>, links: Seq<Seq<char>>) -> bool {
    exists|i: int| 0 <= i < vs.len() && seen(links, vs[i].0)
}

pub struct GroupSourceHandler;

impl GroupSourceHandler {
    /// The handler's registry name.
    pub fn name(&self) -> (r: String)
        ensures
            r@ == "group"@,
    {
        "group".to_owned()
    }

    /// Decides the group auto-source reply. The caller has already performed
    /// the hash search and the external ranking; this policy filters by
    /// distance, suppresses the reply when a retained match is already
    /// linked, and otherwise picks the template and its arguments.
    pub fn handle(&self, matches: &Vec<SourceMatch>, links: &Vec<String>) -> (r: SourceReply)
        ensures
            ({
                let ret = retained(match_views(matches@));
                let ls = link_views(links@);
                match r {
                    SourceReply::NoReply => ret.len() == 0 || any_seen(ret, ls),
                    SourceReply::Single { link } => ret.len() == 1 && !any_seen(ret, ls)
                        && link@ == ret[0].0,
                    SourceReply::Multiple { items } => ret.len() >= 2 && !any_seen(ret, ls)
                        && pair_views(items@) == ret,
                }
            }),
    {
        let ghost vs = match_views(matches@);
        let mut wanted: Vec<(String, u64)> = Vec::new();
        let mut i: usize = 0;
        while i < matches.len()
            invariant
                i <= matches@.len(),
                vs == match_views(matches@),
                pair_views(wanted@) == retained(vs.take(i as int)),
            decreases matches@.len() - i,
        {
            proof {
                assert(vs.take(i + 1).drop_last() =~= vs.take(i as int));
                assert(vs.take(i + 1).last() == (matches@[i as int].url@, matches@[
                    i as int
                ].distance));
            }
            if matches[i].distance <= DISTANCE_THRESHOLD {
                wanted.push((matches[i].url.clone(), matches[i].distance));
                proof {
                    assert(pair_views(wanted@) =~= retained(vs.take(i + 1)));
                }
            } else {
                proof {
                    assert(pair_views(wanted@) =~= retained(vs.take(i + 1)));
                }
            }
            i = i + 1;
        }
        proof {
            assert(vs.take(matches@.len() as int) =~= vs);
        }

        if wanted.len() == 0 {
            return SourceReply::NoReply;
        }

        // Suppress the notification when any retained match was already
        // linked by the poster.
        let mut k: usize = 0;
        while k < wanted.len()
            invariant
                k <= wanted@.len(),
                vs == match_views(matches@),
                pair_views(wanted@) == retained(vs),
                forall|a: int| 0 <= a < k ==> !seen(link_views(links@), pair_views(wanted@)[a].0),
            decreases wanted@.len() - k,
        {
            let mut j: usize = 0;
            let mut found: bool = false;
            while j < links.len()
                invariant
                    j <= links@.len(),
                    k < wanted@.len(),
                    found <==> exists|b: int|
                        0 <= b < j && link_views(links@)[b] == wanted@[k as int].0@,
                decreases links@.len() - j,
            {
                let eq = links[j] == wanted[k].0;
                proof {
                    assert(link_views(links@)[j as int] == links@[j as int]@);
                }
                if eq {
                    found = true;
                }
                j = j + 1;
            }
            if found {
                proof {
                    assert(pair_views(wanted@)[k as int].0 == wanted@[k as int].0@);
                    assert(seen(link_views(links@), pair_views(wanted@)[k as int].0));
                    assert(any_seen(retained(vs), link_views(links@)));
                }
                return SourceReply::NoReply;
            }
            k = k + 1;
        }
        proof {
            assert(!any_seen(retained(vs), link_views(links@)));
        }

        if wanted.len() == 1 {
            let link = wanted[0].0.clone();
            return SourceReply::Single { link };
        }

        SourceReply::Multiple { items: wanted }
    }
}

} // verus!
