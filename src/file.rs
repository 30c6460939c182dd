use vstd::prelude::*;

use crate::text::{has_leading_slash, remove_zip, starts_with_slash, without_zip};

verus! {

/// The remote form of a path: rooted at `/`, left as it is when it already is.
pub open spec fn resolved_path(p: Seq<char>) -> Seq<char> {
    if starts_with_slash(p) {
        p
    } else {
        seq!['/'] + p
    }
}

/// A relative local path without a leading `./`.
pub open spec fn without_dot_slash(p: Seq<char>) -> Seq<char> {
    if p.len() >= 2 && p[0] == '.' && p[1] == '/' {
        p.subrange(2, p.len() as int)
    } else {
        p
    }
}

/// The remote path that a local file is uploaded to.
pub open spec fn upload_target(path: Seq<char>, filename: Seq<char>) -> Seq<char> {
    if starts_with_slash(path) {
        seq!['/'] + filename
    } else {
        seq!['/'] + without_dot_slash(path)
    }
}

/// The final component of a path, as the platform's path rules read it.
pub uninterp spec fn file_name_of(path: Seq<char>) -> Option<Seq<char>>;

/// A text that names a file by itself: not empty, no separator or drive
/// mark, and neither `.` nor `..`.
pub open spec fn plain_name(s: Seq<char>) -> bool {
    s.len() > 0 && !s.contains('/') && !s.contains('\\') && !s.contains(':') && s != seq!['.']
        && s != seq!['.', '.']
}

/// A relative path `./name` whose name is plain.
pub open spec fn dot_slash_name(s: Seq<char>) -> bool {
    s.len() > 2 && s[0] == '.' && s[1] == '/' && plain_name(s.subrange(2, s.len() as int))
}

/// Relies on std::path::Path::file_name: the final component of the path, or
/// none where the path ends in `..` or has no component; it depends on the text
/// alone. A plain name is its own final component, also after a leading `./`.
#[verifier::external_body]
fn final_component(path: &str) -> (r: Option<String>)
    ensures
        match r {
            Some(n) => file_name_of(path@) == Some(n@),
            None => file_name_of(path@) is None,
        },
        plain_name(path@) ==> r is Some && r.unwrap()@ == path@,
        dot_slash_name(path@) ==> r is Some && r.unwrap()@ == path@.subrange(2, path@.len() as int),
{
    std::path::Path::new(path).file_name().and_then(|n| n.to_str()).map(String::from)
}

/// What a file holds: where it came from, the name it is stored under, its bytes.
pub struct FileView {
    pub path: Seq<char>,
    pub filename: Seq<char>,
    pub contents: Seq<u8>,
}

/// A file held in memory on its way between the local disk and the remote store.
pub struct DropboxFile {
    path: String,
    filename: String,
    contents: Vec<u8>,
}

impl View for DropboxFile {
    type V = FileView;

    closed spec fn view(&self) -> FileView {
        FileView { path: self.path@, filename: self.filename@, contents: self.contents@ }
    }
}

/// The file that a download of `path` with these bytes gives.
pub open spec fn downloaded_file(path: Seq<char>, body: Seq<u8>) -> Option<FileView> {
    match file_name_of(path) {
        Some(n) => Some(FileView { path, filename: n, contents: body }),
        None => None,
    }
}

/// The file that an archive download of `path` with these bytes gives.
pub open spec fn downloaded_archive(path: Seq<char>, body: Seq<u8>) -> Option<FileView> {
    match file_name_of(path) {
        Some(n) => Some(FileView { path, filename: n + seq!['.', 'z', 'i', 'p'], contents: body }),
        None => None,
    }
}

impl DropboxFile {
    /// Builds the file named after the final segment of `path`, or none where
    /// the path has no such segment.
    fn named_after(path: &String, suffix: &str, contents: Vec<u8>) -> (r: Option<DropboxFile>)
        ensures
            match file_name_of(path@) {
                Some(n) => r matches Some(f) && f@ == (FileView {
                    path: path@,
                    filename: n + suffix@,
                    contents: contents@,
                }),
                None => r is None,
            },
            plain_name(path@) ==> file_name_of(path@) == Some(path@),
            dot_slash_name(path@) ==> file_name_of(path@) == Some(
                path@.subrange(2, path@.len() as int),
            ),
    {
        match final_component(path.as_str()) {
            Some(name) => Some(DropboxFile::from_name(path, name, suffix, contents)),
            None => None,
        }
    }

    /// The file from `path` stored under `name` followed by `suffix`.
    pub fn from_name(path: &String, name: String, suffix: &str, contents: Vec<u8>) -> (r:
        DropboxFile)
        ensures
            r@ == (FileView { path: path@, filename: name@ + suffix@, contents: contents@ }),
    {
        let mut filename = name;
        filename.append(suffix);
        DropboxFile { path: path.clone(), filename, contents }
    }

    /// The file that downloading `path` returned `body` for.
    pub fn download(path: &String, body: Vec<u8>) -> (r: Option<DropboxFile>)
        ensures
            r matches Some(f) ==> downloaded_file(path@, body@) == Some(f@),
            r is None ==> downloaded_file(path@, body@) is None,
            plain_name(path@) ==> (r matches Some(f) && f@.filename == path@ && f@.contents
                == body@),
    {
        let r = DropboxFile::named_after(path, "", body);
        proof {
            reveal_strlit("");
            if let Some(n) = file_name_of(path@) {
                assert(n + ""@ == n);
            }
        }
        r
    }

    /// The archive that downloading folder `path` returned `body` for.
    pub fn download_zip(path: &String, body: Vec<u8>) -> (r: Option<DropboxFile>)
        ensures
            r matches Some(f) ==> downloaded_archive(path@, body@) == Some(f@),
            r is None ==> downloaded_archive(path@, body@) is None,
    {
        let r = DropboxFile::named_after(path, ".zip", body);
        proof {
            reveal_strlit(".zip");
            assert(".zip"@ =~= seq!['.', 'z', 'i', 'p']);
        }
        r
    }

    /// The local file at `path`, holding the bytes read from it.
    pub fn local(path: &String, contents: Vec<u8>) -> (r: Option<DropboxFile>)
        ensures
            r matches Some(f) ==> downloaded_file(path@, contents@) == Some(f@),
            r is None ==> downloaded_file(path@, contents@) is None,
            dot_slash_name(path@) ==> (r matches Some(f) && upload_target(f@.path, f@.filename)
                == seq!['/'] + path@.subrange(2, path@.len() as int)),
    {
        let r = DropboxFile::named_after(path, "", contents);
        proof {
            reveal_strlit("");
            if let Some(n) = file_name_of(path@) {
                assert(n + ""@ == n);
            }
        }
        r
    }

    /// The remote path this file is uploaded to.
    pub fn upload_path(&self) -> (r: String)
        ensures
            r@ == upload_target(self@.path, self@.filename),
    {
        let mut out = String::from_str("/");
        proof {
            reveal_strlit("/");
        }
        if has_leading_slash(self.path.as_str()) {
            out.append(self.filename.as_str());
        } else {
            let p = self.path.as_str();
            let n = p.unicode_len();
            if n >= 2 && p.get_char(0) == '.' && p.get_char(1) == '/' {
                out.append(p.substring_char(2, n));
            } else {
                out.append(p);
            }
        }
        out
    }

    /// The directory an archive is unpacked into: its name without `.zip`.
    pub fn archive_dir(&self) -> (r: String)
        ensures
            r@ == without_zip(self@.filename),
    {
        remove_zip(self.filename.as_str())
    }

    pub fn path(&self) -> (r: &String)
        ensures
            r@ == self@.path,
    {
        &self.path
    }

    pub fn filename(&self) -> (r: &String)
        ensures
            r@ == self@.filename,
    {
        &self.filename
    }

    pub fn data(self) -> (r: Vec<u8>)
        ensures
            r@ == self@.contents,
    {
        self.contents
    }

    pub fn data_ref(&self) -> (r: &[u8])
        ensures
            r@ == self@.contents,
    {
        self.contents.as_slice()
    }

    /// The remote form of `path`: a `/` is put in front unless one is there.
    pub fn resolve_dropbox_path(path: &String) -> (r: String)
        ensures
            r@ == resolved_path(path@),
    {
        let mut output = String::new();
        if !has_leading_slash(path.as_str()) {
            output.append("/");
            proof {
                reveal_strlit("/");
            }
        }
        output.append(path.as_str());
        output
    }
}

/// Resolving a path twice gives what resolving it once gave.
pub proof fn lemma_resolve_idempotent(p: Seq<char>)
    ensures
        resolved_path(resolved_path(p)) == resolved_path(p),
{
}

} // verus!
