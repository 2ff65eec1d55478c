//! A planned link, what may be found in its place, and sets of links.
use crate::collections::same_text;
use vstd::prelude::*;

verus! {

/// How a planned link compares with what stands at its target.
#[derive(Debug, PartialEq, Eq)]
pub enum DotStatus {
    /// The link is there and leads where it should.
    Confirmed,
    /// Nothing stands at the target: the link can be created.
    Pending,
    /// Something that is no link stands at the target.
    Clobber,
    /// A relative link stands at the target and leads elsewhere; its
    /// normalized content is given.
    WrongLink(String),
    /// An absolute link stands at the target; its content is given.
    AbsoluteLink(String),
    /// An absolute link that leads elsewhere stands at the target.
    WrongAbsoluteLink(String),
}

pub enum DotStatusView {
    Confirmed,
    Pending,
    Clobber,
    WrongLink(Seq<char>),
    AbsoluteLink(Seq<char>),
    WrongAbsoluteLink(Seq<char>),
}

impl View for DotStatus {
    type V = DotStatusView;

    open spec fn view(&self) -> DotStatusView {
        match self {
            DotStatus::Confirmed => DotStatusView::Confirmed,
            DotStatus::Pending => DotStatusView::Pending,
            DotStatus::Clobber => DotStatusView::Clobber,
            DotStatus::WrongLink(content) => DotStatusView::WrongLink(content@),
            DotStatus::AbsoluteLink(content) => DotStatusView::AbsoluteLink(content@),
            DotStatus::WrongAbsoluteLink(content) => DotStatusView::WrongAbsoluteLink(content@),
        }
    }
}

/// A link as it should be: where it stands and what it holds.
#[derive(Debug, PartialEq, Eq, Hash)]
pub struct DotLink {
    /// The absolute path at which the link stands.
    pub target: String,
    /// The relative path that the link holds.
    pub link: String,
}

pub struct DotLinkView {
    pub target: Seq<char>,
    pub link: Seq<char>,
}

impl View for DotLink {
    type V = DotLinkView;

    open spec fn view(&self) -> DotLinkView {
        DotLinkView { target: self.target@, link: self.link@ }
    }
}

impl DotLink {
    pub fn new(target: String, link: String) -> (planned: Self)
        ensures
            planned.target == target,
            planned.link == link,
    {
        DotLink { target, link }
    }

    /// Whether both links stand at the same path and hold the same text.
    pub fn same_as(&self, other: &DotLink) -> (same: bool)
        ensures
            same == (self@ == other@),
    {
        same_text(self.target.as_str(), other.target.as_str()) && same_text(
            self.link.as_str(),
            other.link.as_str(),
        )
    }
}

impl Clone for DotLink {
    fn clone(&self) -> (copy: Self)
        ensures
            copy == *self,
    {
        DotLink { target: self.target.clone(), link: self.link.clone() }
    }
}

/// The views of a sequence of links, in order.
pub open spec fn link_views(links: Seq<DotLink>) -> Seq<DotLinkView> {
    links.map_values(|link: DotLink| link@)
}

/// A set of planned links.
#[derive(Debug)]
pub struct DotLinkSet {
    links: Vec<DotLink>,
}

impl View for DotLinkSet {
    type V = Set<DotLinkView>;

    closed spec fn view(&self) -> Set<DotLinkView> {
        link_views(self.links@).to_set()
    }
}

impl DotLinkSet {
    #[verifier::type_invariant]
    spec fn distinct(&self) -> bool {
        link_views(self.links@).no_duplicates()
    }

    /// The empty set.
    pub fn new() -> (set: Self)
        ensures
            set@ == Set::<DotLinkView>::empty(),
    {
        DotLinkSet { links: Vec::new() }
    }

    /// The number of links in the set.
    pub fn len(&self) -> (n: usize)
        ensures
            self@.finite(),
            n == self@.len(),
    {
        proof {
            use_type_invariant(self);
            link_views(self.links@).unique_seq_to_set();
        }
        self.links.len()
    }

    /// Whether the set holds nothing.
    pub fn is_empty(&self) -> (empty: bool)
        ensures
            empty == (self@ == Set::<DotLinkView>::empty()),
    {
        proof {
            if self.links@.len() > 0 {
                assert(link_views(self.links@)[0] == self.links@[0]@);
                assert(self@.contains(self.links@[0]@));
            } else {
                assert(self@ =~= Set::<DotLinkView>::empty());
            }
        }
        self.links.len() == 0
    }

    /// Whether `link` is in the set.
    pub fn contains(&self, link: &DotLink) -> (found: bool)
        ensures
            found == self@.contains(link@),
    {
        let mut i: usize = 0;
        while i < self.links.len()
            invariant
                i <= self.links.len(),
                forall|j: int| 0 <= j < i ==> self.links[j]@ != link@,
            decreases self.links.len() - i,
        {
            if self.links[i].same_as(link) {
                assert(link_views(self.links@)[i as int] == link@);
                return true;
            }
            i += 1;
        }
        false
    }

    /// Adds `link`; answers whether it was new.
    pub fn insert(&mut self, link: DotLink) -> (added: bool)
        ensures
            final(self)@ == old(self)@.insert(link@),
            added == !old(self)@.contains(link@),
    {
        proof {
            use_type_invariant(&*self);
        }
        if self.contains(&link) {
            false
        } else {
            let ghost before = link_views(self.links@);
            // The vector is taken out while it changes, so that what is left
            // behind is in order at every step.
            let mut links: Vec<DotLink> = Vec::new();
            core::mem::swap(&mut self.links, &mut links);
            links.push(link);
            proof {
                assert(link_views(links@) =~= before.push(link@));
                before.lemma_push_to_set_commute(link@);
            }
            self.links = links;
            true
        }
    }

    /// The links of the set, each once, oldest first.
    pub fn links(&self) -> (links: &Vec<DotLink>)
        ensures
            link_views(links@).to_set() == self@,
            link_views(links@).no_duplicates(),
    {
        proof {
            use_type_invariant(self);
        }
        &self.links
    }
}

} // verus!
