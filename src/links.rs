use vstd::prelude::*;

verus! {

/// The audience tag that marks a link as open to everyone.
pub open spec fn public_tag() -> Seq<char> {
    seq!['p', 'u', 'b', 'l', 'i', 'c']
}

/// One audience a link can be opened to, and whether it is open to it.
pub struct AudienceView {
    pub allowed: bool,
    pub tag: Seq<char>,
}

/// A share link: its URL, whether it allows downloads, its audience options.
pub struct LinkView {
    pub url: Seq<char>,
    pub allow_download: bool,
    pub audiences: Seq<AudienceView>,
}

/// Whether the first audience option tagged public, from index `i` on, is allowed.
pub open spec fn public_allowed_from(opts: Seq<AudienceView>, i: int) -> bool
    decreases opts.len() - i,
{
    if i < 0 || i >= opts.len() {
        false
    } else if opts[i].tag == public_tag() {
        opts[i].allowed
    } else {
        public_allowed_from(opts, i + 1)
    }
}

/// Whether a link is public: its first public audience option is allowed.
pub open spec fn link_is_public(l: LinkView) -> bool {
    public_allowed_from(l.audiences, 0)
}

/// The URL of the first public link from index `i` on.
pub open spec fn public_url_from(links: Seq<LinkView>, i: int) -> Option<Seq<char>>
    decreases links.len() - i,
{
    if i < 0 || i >= links.len() {
        None
    } else if link_is_public(links[i]) {
        Some(links[i].url)
    } else {
        public_url_from(links, i + 1)
    }
}

/// The URL of the first public link of a listing.
pub open spec fn first_public_url(links: Seq<LinkView>) -> Option<Seq<char>> {
    public_url_from(links, 0)
}

/// The audience named by a link option.
pub struct DropboxTag {
    tag: String,
}

/// An audience option of a link.
pub struct DropboxLinkAudienceOption {
    allowed: bool,
    audience: DropboxTag,
}

/// The permissions of a link.
pub struct DropboxLinkPermissions {
    allow_download: bool,
    audience_options: Vec<DropboxLinkAudienceOption>,
}

/// A share link of a remote path.
pub struct DropboxLink {
    link_permissions: DropboxLinkPermissions,
    pub url: String,
}

/// The share links that the service lists for a path.
pub struct DropboxLinkResult {
    pub links: Vec<DropboxLink>,
}

impl View for DropboxTag {
    type V = Seq<char>;

    closed spec fn view(&self) -> Seq<char> {
        self.tag@
    }
}

impl View for DropboxLinkAudienceOption {
    type V = AudienceView;

    closed spec fn view(&self) -> AudienceView {
        AudienceView { allowed: self.allowed, tag: self.audience@ }
    }
}

impl View for DropboxLinkPermissions {
    type V = (bool, Seq<AudienceView>);

    closed spec fn view(&self) -> (bool, Seq<AudienceView>) {
        (self.allow_download, self.audience_options@.map_values(|o: DropboxLinkAudienceOption| o@))
    }
}

impl View for DropboxLink {
    type V = LinkView;

    closed spec fn view(&self) -> LinkView {
        LinkView {
            url: self.url@,
            allow_download: self.link_permissions@.0,
            audiences: self.link_permissions@.1,
        }
    }
}

impl View for DropboxLinkResult {
    type V = Seq<LinkView>;

    open spec fn view(&self) -> Seq<LinkView> {
        self.links@.map_values(|l: DropboxLink| l@)
    }
}

/// Tests whether a tag names the public audience.
fn is_public_tag(t: &str) -> (r: bool)
    ensures
        r == (t@ == public_tag()),
{
    if t.unicode_len() != 6 {
        return false;
    }
    let r = t.get_char(0) == 'p' && t.get_char(1) == 'u' && t.get_char(2) == 'b' && t.get_char(3)
        == 'l' && t.get_char(4) == 'i' && t.get_char(5) == 'c';
    if r {
        assert(t@ =~= public_tag());
    } else {
        assert(t@ != public_tag()) by {
            if t@ == public_tag() {
                assert(t@[0] == 'p' && t@[1] == 'u' && t@[2] == 'b');
                assert(t@[3] == 'l' && t@[4] == 'i' && t@[5] == 'c');
            }
        }
    }
    r
}

impl DropboxTag {
    pub fn new(tag: String) -> (r: DropboxTag)
        ensures
            r@ == tag@,
    {
        DropboxTag { tag }
    }
}

impl DropboxLinkAudienceOption {
    pub fn new(allowed: bool, audience: DropboxTag) -> (r: DropboxLinkAudienceOption)
        ensures
            r@ == (AudienceView { allowed, tag: audience@ }),
    {
        DropboxLinkAudienceOption { allowed, audience }
    }
}

impl DropboxLinkPermissions {
    pub fn new(allow_download: bool, audience_options: Vec<DropboxLinkAudienceOption>) -> (r:
        DropboxLinkPermissions)
        ensures
            r@ == (allow_download, audience_options@.map_values(|o: DropboxLinkAudienceOption| o@)),
    {
        DropboxLinkPermissions { allow_download, audience_options }
    }
}

impl DropboxLink {
    pub fn new(link_permissions: DropboxLinkPermissions, url: String) -> (r: DropboxLink)
        ensures
            r@ == (LinkView {
                url: url@,
                allow_download: link_permissions@.0,
                audiences: link_permissions@.1,
            }),
    {
        DropboxLink { link_permissions, url }
    }

    pub fn url(&self) -> (r: &String)
        ensures
            r@ == self@.url,
    {
        &self.url
    }

    /// Whether the link is open to everyone: the first audience option tagged
    /// public is allowed; false where there is none.
    pub fn is_public(&self) -> (r: bool)
        ensures
            r == link_is_public(self@),
    {
        let opts = &self.link_permissions.audience_options;
        let ghost v = self@.audiences;
        let n = opts.len();
        let mut i: usize = 0;
        while i < n
            invariant
                n == opts@.len(),
                v == opts@.map_values(|o: DropboxLinkAudienceOption| o@),
                v == self@.audiences,
                i <= n,
                public_allowed_from(v, 0) == public_allowed_from(v, i as int),
            decreases n - i,
        {
            let o = &opts[i];
            assert(v[i as int] == o@);
            assert(o@.tag == o.audience.tag@ && o@.allowed == o.allowed);
            if is_public_tag(o.audience.tag.as_str()) {
                return o.allowed;
            }
            i = i + 1;
        }
        false
    }
}

impl DropboxLinkResult {
    /// The URL of the first public link, or none where no link is public.
    pub fn public_link(&self) -> (r: Option<String>)
        ensures
            match r {
                Some(u) => first_public_url(self@) == Some(u@),
                None => first_public_url(self@) is None,
            },
    {
        let n = self.links.len();
        let mut i: usize = 0;
        while i < n
            invariant
                n == self.links@.len(),
                i <= n,
                first_public_url(self@) == public_url_from(self@, i as int),
            decreases n - i,
        {
            let l = &self.links[i];
            assert(self@[i as int] == l@);
            if l.is_public() {
                return Some(l.url.clone());
            }
            i = i + 1;
        }
        None
    }
}

} // verus!
