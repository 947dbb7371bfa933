//! Links: an externally-resolved pairing of two named folders plus zero or
//! more sub-paths, driving repeated sync or list operations.

use vstd::prelude::*;

use crate::folder::Folder;

verus! {

/// A pairing of a local-side folder and a target folder, with the sub-paths
/// to synchronize one at a time.
#[derive(Clone, Debug)]
pub struct Link {
    pub name: String,
    pub local: Folder,
    pub target: Folder,
    pub paths: Vec<String>,
    pub partial_only: bool,
}

/// The link of `links` whose name is `name`, if one exists; earlier entries
/// shadow later ones, as in a registry with unique names.
pub open spec fn spec_find_link(links: Seq<Link>, name: Seq<char>) -> Option<Link>
    decreases links.len(),
{
    if links.len() == 0 {
        None
    } else if links[0].name@ == name {
        Some(links[0])
    } else {
        spec_find_link(links.drop_first(), name)
    }
}

/// Looks a link up by name in the link registry.
pub fn get(name: String, links: &Vec<Link>) -> (r: Option<&Link>)
    ensures
        match r {
            None => spec_find_link(links@, name@) is None,
            Some(l) => spec_find_link(links@, name@) == Some(*l),
        },
{
    let mut i: usize = 0;
    proof {
        assert(links@.skip(0) =~= links@);
    }
    while i < links.len()
        invariant
            0 <= i <= links@.len(),
            spec_find_link(links@, name@) == spec_find_link(links@.skip(i as int), name@),
        decreases links@.len() - i,
    {
        proof {
            assert(links@.skip(i as int)[0] == links@[i as int]);
        }
        if links[i].name == name {
            return Some(&links[i]);
        }
        proof {
            assert(links@.skip(i as int).drop_first() =~= links@.skip(i + 1));
        }
        i = i + 1;
    }
    proof {
        assert(links@.skip(i as int) =~= Seq::<Link>::empty());
    }
    None
}

} // verus!
