use vstd::prelude::*;

verus! {

/// The length in bytes of the verifier made for an authorization flow.
pub const VERIFIER_LENGTH: usize = 128;

/// The characters a code verifier is drawn from, as ASCII codes: letters,
/// digits, and `-`, `.`, `_`, `~`.
pub open spec fn verifier_char(b: u8) -> bool {
    (65 <= b <= 90) || (97 <= b <= 122) || (48 <= b <= 57) || b == 45 || b == 46 || b == 95
        || b == 126
}

/// Relies on pkce::code_verifier: `length` random bytes from the unreserved
/// characters; it panics unless the length is between 43 and 128.
#[verifier::external_body]
fn code_verifier(length: usize) -> (r: Vec<u8>)
    requires
        43 <= length <= 128,
    ensures
        r@.len() == length,
        forall|i: int| 0 <= i < r@.len() ==> verifier_char(#[trigger] r@[i]),
{
    pkce::code_verifier(length)
}

/// The authorization page the user opens to obtain a token.
pub open spec fn auth_link() -> Seq<char> {
    "https://www.dropbox.com/oauth2/authorize?response_type=token&client_id=s3q3092azd1y0ne&redirect_uri=https://www.flareapplications.com/display"@
}

/// `s` without one trailing newline.
pub open spec fn trim_newline(s: Seq<char>) -> Seq<char> {
    if s.len() > 0 && s.last() == '\n' {
        s.drop_last()
    } else {
        s
    }
}

/// The token that a token file holding `file` gives, none where there is no file.
pub open spec fn loaded(file: Option<Seq<char>>) -> Option<Seq<char>> {
    match file {
        Some(c) => Some(trim_newline(c)),
        None => None,
    }
}

/// A change to the token file, as values.
pub enum StoreOpView {
    Save(Seq<char>),
    Delete,
}

/// A change to the persisted token file.
pub enum TokenStoreOp {
    /// Write this text as the whole file, creating or replacing it.
    Save(String),
    /// Remove the file; a file already gone is no failure.
    Delete,
}

impl View for TokenStoreOp {
    type V = StoreOpView;

    open spec fn view(&self) -> StoreOpView {
        match self {
            TokenStoreOp::Save(s) => StoreOpView::Save(s@),
            TokenStoreOp::Delete => StoreOpView::Delete,
        }
    }
}

/// What the token file holds after `op`, where it held `before`.
pub open spec fn stored_after(op: StoreOpView, before: Option<Seq<char>>) -> Option<Seq<char>> {
    match op {
        StoreOpView::Save(c) => Some(c),
        StoreOpView::Delete => None,
    }
}

/// The text of a token file, none where there is no file.
pub open spec fn text_of(file: Option<String>) -> Option<Seq<char>> {
    match file {
        Some(f) => Some(f@),
        None => None,
    }
}

/// Reads the token out of the token file's text, where there is a file.
pub fn load_token(file: Option<String>) -> (r: Option<String>)
    ensures
        match r {
            Some(t) => loaded(text_of(file)) == Some(t@),
            None => file is None,
        },
{
    match file {
        None => None,
        Some(f) => {
            let s = f.as_str();
            let n = s.unicode_len();
            if n > 0 && s.get_char(n - 1) == '\n' {
                let t = String::from_str(s.substring_char(0, n - 1));
                assert(t@ =~= f@.drop_last());
                Some(t)
            } else {
                Some(f)
            }
        },
    }
}

/// The state of a session: what the logic reads of it.
pub struct AuthView {
    pub ready: bool,
    pub key: Seq<char>,
    pub verification: Seq<u8>,
}

/// The current session: whether a token is held, and which.
pub struct DropboxAuthentication {
    ready: bool,
    verification: Vec<u8>,
    pub key: String,
}

impl View for DropboxAuthentication {
    type V = AuthView;

    closed spec fn view(&self) -> AuthView {
        AuthView { ready: self.ready, key: self.key@, verification: self.verification@ }
    }
}

impl DropboxAuthentication {
    /// A session without a token holds an empty key.
    pub open spec fn wf(&self) -> bool {
        !self@.ready ==> self@.key.len() == 0
    }

    /// Starts a session from the token file's text, where there is a file;
    /// without one, the session is signed out and holds a fresh verifier.
    pub fn create(file: Option<String>) -> (r: DropboxAuthentication)
        ensures
            r.wf(),
            r@.ready == (file is Some),
            match loaded(text_of(file)) {
                Some(t) => r@.key == t,
                None => r@.key.len() == 0,
            },
            file is None ==> r@.verification.len() == VERIFIER_LENGTH,
            file is None ==> forall|i: int|
                0 <= i < r@.verification.len() ==> verifier_char(#[trigger] r@.verification[i]),
            file is Some ==> r@.verification.len() == 0,
    {
        let mut a = DropboxAuthentication { ready: false, verification: Vec::new(), key: String::new() };
        let recalled = a.try_recall(file);
        if !recalled {
            a.verification = code_verifier(VERIFIER_LENGTH);
        }
        a
    }

    /// Takes the token from the token file's text, where there is a file, and
    /// tells whether it did; without one the session is left as it was.
    pub fn try_recall(&mut self, file: Option<String>) -> (r: bool)
        requires
            old(self).wf(),
        ensures
            final(self).wf(),
            r == (file is Some),
            match loaded(text_of(file)) {
                Some(t) => final(self)@ == (AuthView { ready: true, key: t, ..old(self)@ }),
                None => final(self)@ == old(self)@,
            },
    {
        match load_token(file) {
            Some(t) => {
                self.key = t;
                self.ready = true;
                true
            },
            None => false,
        }
    }

    /// The verifier made when the session started signed out.
    pub fn verification(&self) -> (r: &[u8])
        ensures
            r@ == self@.verification,
    {
        self.verification.as_slice()
    }

    /// The token held, empty where there is none.
    pub fn key(&self) -> (r: &String)
        ensures
            r@ == self@.key,
    {
        &self.key
    }

    /// Whether a token is held.
    pub fn authorized(&self) -> (r: bool)
        ensures
            r == self@.ready,
    {
        self.ready
    }

    /// The address of the authorization page.
    pub fn get_auth_link(&self) -> (r: String)
        ensures
            r@ == auth_link(),
    {
        String::from_str("https://www.dropbox.com/oauth2/authorize?response_type=token&client_id=s3q3092azd1y0ne&redirect_uri=https://www.flareapplications.com/display")
    }

    /// Takes `code` as the token, as pasted, and returns the change that
    /// persists it.
    pub fn set_code(&mut self, code: String) -> (r: TokenStoreOp)
        ensures
            final(self).wf(),
            final(self)@ == (AuthView { ready: true, key: code@, ..old(self)@ }),
            r@ == StoreOpView::Save(code@),
    {
        let saved = code.clone();
        self.key = code;
        self.ready = true;
        TokenStoreOp::Save(saved)
    }

    /// Drops the token and returns the change that removes the persisted one.
    pub fn logout(&mut self) -> (r: TokenStoreOp)
        ensures
            final(self).wf(),
            final(self)@ == (AuthView { ready: false, key: Seq::empty(), ..old(self)@ }),
            r@ == StoreOpView::Delete,
    {
        self.key = String::new();
        self.ready = false;
        TokenStoreOp::Delete
    }
}

/// Saving a token and loading it again gives the same token back, for every
/// token that does not end in a newline.
pub proof fn lemma_save_then_load(code: Seq<char>, before: Option<Seq<char>>)
    requires
        !(code.len() > 0 && code.last() == '\n'),
    ensures
        loaded(stored_after(StoreOpView::Save(code), before)) == Some(code),
{
}

/// After logging out, loading finds no token, whatever the file held before.
pub proof fn lemma_logout_then_load(before: Option<Seq<char>>)
    ensures
        loaded(stored_after(StoreOpView::Delete, before)) is None,
{
}

} // verus!
