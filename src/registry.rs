use vstd::prelude::*;

use crate::topology::{has_sep, on_chain, prefix_of, strings_view};
use crate::types::{Channel, Collection};

verus! {

/// The first registered pairing whose hub-side collection is `hub_collection`.
pub open spec fn collection_by_hub(cs: Seq<Collection>, hub_collection: Seq<char>) -> Option<
    Collection,
>
    decreases cs.len(),
{
    if cs.len() == 0 {
        None
    } else if cs[0].hub_collection@ == hub_collection {
        Some(cs[0])
    } else {
        collection_by_hub(cs.drop_first(), hub_collection)
    }
}

/// The first registered pairing whose home collection is `home_collection`.
pub open spec fn collection_by_home(cs: Seq<Collection>, home_collection: Seq<char>) -> Option<
    Collection,
>
    decreases cs.len(),
{
    if cs.len() == 0 {
        None
    } else if cs[0].home_collection@ == home_collection {
        Some(cs[0])
    } else {
        collection_by_home(cs.drop_first(), home_collection)
    }
}

/// The first channel entry for the chain of `prefix`.
pub open spec fn channel_by_prefix(chs: Seq<Channel>, prefix: Seq<char>) -> Option<Channel>
    decreases chs.len(),
{
    if chs.len() == 0 {
        None
    } else if chs[0].prefix@ == prefix {
        Some(chs[0])
    } else {
        channel_by_prefix(chs.drop_first(), prefix)
    }
}

/// The first known outpost on the chain of `prefix`.
pub open spec fn outpost_on_chain(outposts: Seq<Seq<char>>, prefix: Seq<char>) -> Option<Seq<char>>
    decreases outposts.len(),
{
    if outposts.len() == 0 {
        None
    } else if on_chain(outposts[0], prefix) {
        Some(outposts[0])
    } else {
        outpost_on_chain(outposts.drop_first(), prefix)
    }
}

/// Looks up a pairing by its hub-side collection.
pub fn find_collection_by_hub(cs: &[Collection], hub_collection: &String) -> (r: Option<
    Collection,
>)
    ensures
        r == collection_by_hub(cs@, hub_collection@),
{
    let mut i: usize = 0;
    assert(cs@.skip(0) =~= cs@);
    while i < cs.len()
        invariant
            i <= cs@.len(),
            collection_by_hub(cs@, hub_collection@) == collection_by_hub(
                cs@.skip(i as int),
                hub_collection@,
            ),
        decreases cs@.len() - i,
    {
        assert(cs@.skip(i as int).drop_first() =~= cs@.skip(i + 1));
        if cs[i].hub_collection == *hub_collection {
            return Some(
                Collection {
                    home_collection: cs[i].home_collection.clone(),
                    hub_collection: cs[i].hub_collection.clone(),
                },
            );
        }
        i = i + 1;
    }
    None
}

/// Looks up a pairing by its home collection.
pub fn find_collection_by_home(cs: &[Collection], home_collection: &String) -> (r: Option<
    Collection,
>)
    ensures
        r == collection_by_home(cs@, home_collection@),
{
    let mut i: usize = 0;
    assert(cs@.skip(0) =~= cs@);
    while i < cs.len()
        invariant
            i <= cs@.len(),
            collection_by_home(cs@, home_collection@) == collection_by_home(
                cs@.skip(i as int),
                home_collection@,
            ),
        decreases cs@.len() - i,
    {
        assert(cs@.skip(i as int).drop_first() =~= cs@.skip(i + 1));
        if cs[i].home_collection == *home_collection {
            return Some(
                Collection {
                    home_collection: cs[i].home_collection.clone(),
                    hub_collection: cs[i].hub_collection.clone(),
                },
            );
        }
        i = i + 1;
    }
    None
}

/// Looks up the channel entry for a chain prefix.
pub fn find_channel(chs: &[Channel], prefix: &String) -> (r: Option<Channel>)
    ensures
        r == channel_by_prefix(chs@, prefix@),
{
    let mut i: usize = 0;
    assert(chs@.skip(0) =~= chs@);
    while i < chs.len()
        invariant
            i <= chs@.len(),
            channel_by_prefix(chs@, prefix@) == channel_by_prefix(chs@.skip(i as int), prefix@),
        decreases chs@.len() - i,
    {
        assert(chs@.skip(i as int).drop_first() =~= chs@.skip(i + 1));
        if chs[i].prefix == *prefix {
            return Some(
                Channel {
                    prefix: chs[i].prefix.clone(),
                    from_hub: chs[i].from_hub.clone(),
                    to_hub: chs[i].to_hub.clone(),
                },
            );
        }
        i = i + 1;
    }
    None
}

/// Looks up the first known outpost on the chain of `prefix`.
pub fn find_outpost(outposts: &[String], prefix: &String) -> (r: Option<String>)
    ensures
        match outpost_on_chain(strings_view(outposts@), prefix@) {
            Some(o) => r matches Some(s) && s@ == o,
            None => r is None,
        },
{
    let ghost all = strings_view(outposts@);
    assert(all.skip(0) =~= all);
    let mut i: usize = 0;
    while i < outposts.len()
        invariant
            i <= outposts@.len(),
            all == strings_view(outposts@),
            outpost_on_chain(all, prefix@) == outpost_on_chain(all.skip(i as int), prefix@),
        decreases outposts@.len() - i,
    {
        let ghost rest = all.skip(i as int);
        assert(rest[0] == outposts@[i as int]@);
        assert(rest.drop_first() =~= all.skip(i + 1));
        if has_sep(outposts[i].as_str()) {
            let p = prefix_of(outposts[i].as_str());
            if p == *prefix {
                return Some(outposts[i].clone());
            }
        }
        i = i + 1;
    }
    None
}

} // verus!
