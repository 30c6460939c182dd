use vstd::prelude::*;

use crate::file::DropboxFile;
use crate::links::{
    first_public_url, link_is_public, public_url_from, DropboxLinkResult, LinkView,
};

verus! {

/// What finding a public link for a path decided, as values.
pub enum DecisionView {
    Found(Seq<char>),
    Create(Seq<char>),
    Failed,
}

/// What to do after the links of a path were listed.
pub enum LinkDecision {
    /// A public link exists: this is its URL.
    Found(String),
    /// No public link exists: create one for this path.
    Create(String),
    /// The links could not be listed.
    Failed,
}

impl View for LinkDecision {
    type V = DecisionView;

    open spec fn view(&self) -> DecisionView {
        match self {
            LinkDecision::Found(u) => DecisionView::Found(u@),
            LinkDecision::Create(p) => DecisionView::Create(p@),
            LinkDecision::Failed => DecisionView::Failed,
        }
    }
}

/// The decision for `path` given what listing its links returned.
pub open spec fn view_link_decision(path: Seq<char>, listed: Option<Seq<LinkView>>) -> DecisionView {
    match listed {
        None => DecisionView::Failed,
        Some(links) => match first_public_url(links) {
            Some(u) => DecisionView::Found(u),
            None => DecisionView::Create(path),
        },
    }
}

/// The URL that finding or creating a public link yields, given what the
/// listing returned and what the creation would return.
pub open spec fn view_link_outcome(
    path: Seq<char>,
    listed: Option<Seq<LinkView>>,
    created: Option<Seq<char>>,
) -> Option<Seq<char>> {
    match view_link_decision(path, listed) {
        DecisionView::Found(u) => Some(u),
        DecisionView::Create(_) => created,
        DecisionView::Failed => None,
    }
}

/// The view of a listing, or none where the listing failed.
pub open spec fn listed_view(listed: Option<DropboxLinkResult>) -> Option<Seq<LinkView>> {
    match listed {
        Some(l) => Some(l@),
        None => None,
    }
}

/// The URLs of a listing, in order.
pub open spec fn link_urls(links: Seq<LinkView>) -> Seq<Seq<char>> {
    links.map_values(|l: LinkView| l.url)
}

/// What a run of revocations holds: the URLs to revoke, how many were revoked,
/// and whether one failed.
pub struct RevokeView {
    pub urls: Seq<Seq<char>>,
    pub done: nat,
    pub failed: bool,
}

/// The next step of revoking every link, as values.
pub enum RevokeStepView {
    Revoke(Seq<char>),
    Finished(bool),
}

/// The next step of revoking every link.
pub enum RevokeStep {
    /// Revoke the link with this URL, then record whether that succeeded.
    Revoke(String),
    /// Nothing is left to do: whether every revocation succeeded.
    Finished(bool),
}

impl View for RevokeStep {
    type V = RevokeStepView;

    open spec fn view(&self) -> RevokeStepView {
        match self {
            RevokeStep::Revoke(u) => RevokeStepView::Revoke(u@),
            RevokeStep::Finished(b) => RevokeStepView::Finished(*b),
        }
    }
}

/// The step that follows a state: stop at the first failure, else revoke the
/// next URL in order, else report success.
pub open spec fn revoke_next(s: RevokeView) -> RevokeStepView {
    if s.failed {
        RevokeStepView::Finished(false)
    } else if s.done >= s.urls.len() {
        RevokeStepView::Finished(true)
    } else {
        RevokeStepView::Revoke(s.urls[s.done as int])
    }
}

/// The state a run of revocations starts in, given what listing returned.
/// A failed listing leaves nothing to revoke and counts as a failure.
pub open spec fn revoke_start(listed: Option<Seq<LinkView>>) -> RevokeView {
    RevokeView {
        urls: match listed {
            Some(links) => link_urls(links),
            None => Seq::empty(),
        },
        done: 0,
        failed: listed is None,
    }
}

/// Revoking every share link of a path, one at a time, stopping at the first failure.
pub struct RevokeLinks {
    urls: Vec<String>,
    done: usize,
    failed: bool,
}

impl View for RevokeLinks {
    type V = RevokeView;

    closed spec fn view(&self) -> RevokeView {
        RevokeView {
            urls: self.urls@.map_values(|u: String| u@),
            done: self.done as nat,
            failed: self.failed,
        }
    }
}

impl RevokeLinks {
    pub closed spec fn wf(&self) -> bool {
        self.done <= self.urls@.len()
    }

    /// The next thing to do.
    pub fn next(&self) -> (r: RevokeStep)
        requires
            self.wf(),
        ensures
            r@ == revoke_next(self@),
    {
        if self.failed {
            RevokeStep::Finished(false)
        } else if self.done >= self.urls.len() {
            RevokeStep::Finished(true)
        } else {
            RevokeStep::Revoke(self.urls[self.done].clone())
        }
    }

    /// Records whether the revocation that `next` asked for succeeded.
    pub fn record(&mut self, succeeded: bool)
        requires
            old(self).wf(),
            revoke_next(old(self)@) is Revoke,
        ensures
            final(self).wf(),
            final(self)@ == (if succeeded {
                RevokeView { done: old(self)@.done + 1, ..old(self)@ }
            } else {
                RevokeView { failed: true, ..old(self)@ }
            }),
    {
        let n = self.urls.len();
        assert(self.done < n);
        if succeeded {
            self.done = self.done + 1;
        } else {
            self.failed = true;
        }
    }
}

impl DropboxFile {
    /// Decides, from what listing the links of `complete_path` returned, whether
    /// a public link exists or one must be created.
    pub fn public_view_link(complete_path: &String, listed: Option<DropboxLinkResult>) -> (r:
        LinkDecision)
        ensures
            r@ == view_link_decision(complete_path@, listed_view(listed)),
    {
        match listed {
            None => LinkDecision::Failed,
            Some(links) => match links.public_link() {
                Some(u) => LinkDecision::Found(u),
                None => LinkDecision::Create(complete_path.clone()),
            },
        }
    }

    /// Starts revoking every link that listing returned.
    pub fn remove_all_links(listed: Option<DropboxLinkResult>) -> (r: RevokeLinks)
        ensures
            r.wf(),
            r@ == revoke_start(listed_view(listed)),
    {
        let mut urls: Vec<String> = Vec::new();
        let failed_listing = listed.is_none();
        match listed {
            None => {},
            Some(result) => {
                let n = result.links.len();
                let mut i: usize = 0;
                while i < n
                    invariant
                        n == result.links@.len(),
                        i <= n,
                        urls@.len() == i,
                        forall|j: int| 0 <= j < i ==> #[trigger] urls@[j]@ == link_urls(result@)[j],
                    decreases n - i,
                {
                    let u = result.links[i].url().clone();
                    let ghost before = urls@;
                    urls.push(u);
                    assert(result@[i as int] == result.links@[i as int]@);
                    assert(link_urls(result@)[i as int] == u@);
                    assert(urls@ == before.push(u));
                    i = i + 1;
                }
                assert(urls@.map_values(|u: String| u@) =~= link_urls(result@));
            },
        }
        let r = RevokeLinks { urls, done: 0, failed: failed_listing };
        assert(r@.urls =~= revoke_start(listed_view(listed)).urls);
        r
    }
}

proof fn lemma_no_public_from(links: Seq<LinkView>, i: int)
    requires
        0 <= i,
        forall|j: int| 0 <= j < links.len() ==> !link_is_public(#[trigger] links[j]),
    ensures
        public_url_from(links, i) is None,
    decreases links.len() - i,
{
    if i < links.len() {
        lemma_no_public_from(links, i + 1);
    }
}

/// A listing with no links, or with no public one, yields no public link; a
/// failed listing yields no link either and is no error.
pub proof fn lemma_public_link_none(path: Seq<char>, links: Seq<LinkView>)
    ensures
        links.len() == 0 ==> first_public_url(links) is None,
        (forall|j: int| 0 <= j < links.len() ==> !link_is_public(#[trigger] links[j]))
            ==> first_public_url(links) is None,
        view_link_outcome(path, None, None) is None,
{
    if forall|j: int| 0 <= j < links.len() ==> !link_is_public(#[trigger] links[j]) {
        lemma_no_public_from(links, 0);
    }
}

proof fn lemma_public_from_append(links: Seq<LinkView>, l: LinkView, i: int)
    requires
        0 <= i <= links.len(),
        public_url_from(links, i) is None,
        link_is_public(l),
    ensures
        public_url_from(links.push(l), i) == Some(l.url),
    decreases links.len() - i,
{
    let all = links.push(l);
    assert(all[i] == if i < links.len() { links[i] } else { l });
    if i < links.len() {
        lemma_public_from_append(links, l, i + 1);
    }
}

/// Finding or creating a public link twice gives the same URL: where no public
/// link exists, the first run creates one, and a second run, whose listing now
/// holds that public link, finds it and creates nothing.
pub proof fn lemma_view_link_idempotent(
    path: Seq<char>,
    before: Seq<LinkView>,
    created: LinkView,
    created_again: Option<Seq<char>>,
)
    requires
        first_public_url(before) is None,
        link_is_public(created),
    ensures
        view_link_decision(path, Some(before)) == DecisionView::Create(path),
        view_link_outcome(path, Some(before), Some(created.url)) == Some(created.url),
        view_link_decision(path, Some(before.push(created))) == DecisionView::Found(created.url),
        view_link_outcome(path, Some(before.push(created)), created_again) == Some(created.url),
{
    lemma_public_from_append(before, created, 0);
}

/// Revoking the links of a path that has none finishes at once with success,
/// asking for no revocation; where the listing failed it finishes at once with
/// failure.
pub proof fn lemma_revoke_nothing_when_empty(links: Seq<LinkView>)
    requires
        links.len() == 0,
    ensures
        revoke_next(revoke_start(Some(links))) == RevokeStepView::Finished(true),
        revoke_next(revoke_start(None)) == RevokeStepView::Finished(false),
{
}

} // verus!
