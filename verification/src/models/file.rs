//! Stored-file references.  A `MaybeEmptyFile` names a media object by
//! its storage id (or names nothing), and a `FileList` is an optional
//! list of such references.  Only the bookkeeping lives here; reading
//! and writing the actual bytes is the storage collaborator's job.

use vstd::prelude::*;
use vstd::string::StringExecFns;

verus! {

/// The path prefix under which stored files are served.
pub const CDN_PATH: &'static str = "/cdn";

/// How a file reference relates to the backing store.
pub enum FileStatus {
    /// The reference names nothing.
    Empty,
    /// The reference names an object that exists in the store.
    Exists,
    /// The reference names an object that is missing from the store.
    Invalid,
}

impl FileStatus {
    /// A reference may be written into an update when it is empty or
    /// points at a real object; a dangling reference may not.
    pub fn updatable(&self) -> (r: bool)
        ensures
            r == !(self is Invalid),
    {
        match self {
            FileStatus::Empty | FileStatus::Exists => true,
            FileStatus::Invalid => false,
        }
    }

    /// Only a reference to a real object may be inserted as a new row.
    pub fn insertable(&self) -> (r: bool)
        ensures
            r == (self is Exists),
    {
        match self {
            FileStatus::Exists => true,
            FileStatus::Invalid | FileStatus::Empty => false,
        }
    }
}

/// A reference to a stored file, or no file at all.
#[derive(Debug)]
pub struct MaybeEmptyFile {
    pub id: Option<String>,
}

impl Clone for MaybeEmptyFile {
    fn clone(&self) -> (r: Self)
        ensures
            r == *self,
    {
        let r = MaybeEmptyFile { id: self.id.clone() };
        proof {
            assert(r.id == self.id);
        }
        r
    }
}

impl MaybeEmptyFile {
    /// An empty id means no file: the two constructors never produce
    /// `Some` of an empty string.
    pub open spec fn wf(self) -> bool {
        self.id is Some ==> self.id->0@.len() > 0
    }

    /// Wraps a storage id; an empty id is normalized to the empty
    /// reference.
    pub fn new(id: String) -> (r: Self)
        ensures
            r.wf(),
            id@.len() > 0 ==> r.id == Some(id),
            id@.len() == 0 ==> r.id is None,
    {
        if id.as_str().is_empty() {
            return Self::empty();
        }
        Self { id: Some(id) }
    }

    /// The reference that names nothing.
    pub fn empty() -> (r: Self)
        ensures
            r.wf(),
            r.id is None,
    {
        Self { id: None }
    }

    /// The reference's standing, decided from the store lookup's
    /// outcome: an empty reference is `Empty` without consulting the
    /// store; otherwise the metadata answer (whether a regular file
    /// is there) decides between `Exists` and `Invalid`, and a failed
    /// lookup fails the status check itself.
    pub fn status(&self, metadata_is_file: Option<bool>) -> (r: Option<FileStatus>)
        ensures
            self.id is None ==> r == Some(FileStatus::Empty),
            self.id is Some ==> match metadata_is_file {
                Some(true) => r == Some(FileStatus::Exists),
                Some(false) => r == Some(FileStatus::Invalid),
                None => r is None,
            },
    {
        match &self.id {
            None => Some(FileStatus::Empty),
            Some(_) => match metadata_is_file {
                Some(true) => Some(FileStatus::Exists),
                Some(false) => Some(FileStatus::Invalid),
                None => None,
            },
        }
    }

    /// The path under which the file is served, with the CDN prefix,
    /// or nothing for an empty reference.
    pub fn absolute_path(&self) -> (r: Option<String>)
        ensures
            r is Some <==> self.id is Some,
            self.id matches Some(id) ==> r->0@ == CDN_PATH@ + "/"@ + id@,
    {
        match &self.id {
            Some(id) => {
                let path = String::from_str(CDN_PATH).concat("/").concat(id.as_str());
                Some(path)
            },
            None => None,
        }
    }
}

impl From<Option<String>> for MaybeEmptyFile {
    /// An absent or empty id means no file.
    fn from(value: Option<String>) -> (r: Self) {
        match value {
            Some(path) => MaybeEmptyFile::new(path),
            None => MaybeEmptyFile::empty(),
        }
    }
}

impl vstd::std_specs::convert::FromSpecImpl<Option<String>> for MaybeEmptyFile {
    open spec fn obeys_from_spec() -> bool {
        true
    }

    open spec fn from_spec(value: Option<String>) -> Self {
        match value {
            Some(path) => if path@.len() == 0 {
                MaybeEmptyFile { id: None }
            } else {
                MaybeEmptyFile { id: Some(path) }
            },
            None => MaybeEmptyFile { id: None },
        }
    }
}

/// Whether a file list is exactly the one built from these storage
/// ids: an empty id list means no list at all, and otherwise the
/// i-th reference holds the i-th id, with empty ids normalized to
/// the empty reference.
pub open spec fn file_list_matches(l: FileList, ids: Seq<String>) -> bool {
    if ids.len() == 0 {
        l.files is None
    } else {
        &&& l.files is Some
        &&& l.files->0@.len() == ids.len()
        &&& forall|i: int|
            0 <= i < ids.len() ==> {
                &&& (#[trigger] l.files->0@[i]).wf()
                &&& (ids[i]@.len() > 0 ==> l.files->0@[i].id == Some(ids[i]))
                &&& (ids[i]@.len() == 0 ==> l.files->0@[i].id is None)
            }
    }
}

/// An optional list of file references attached to a post or comment.
#[derive(Debug)]
pub struct FileList {
    pub files: Option<Vec<MaybeEmptyFile>>,
}

impl View for FileList {
    type V = Option<Seq<MaybeEmptyFile>>;

    open spec fn view(&self) -> Option<Seq<MaybeEmptyFile>> {
        match self.files {
            None => None,
            Some(files) => Some(files@),
        }
    }
}

impl Clone for FileList {
    fn clone(&self) -> (r: Self)
        ensures
            r@ == self@,
    {
        match &self.files {
            None => FileList { files: None },
            Some(files) => {
                let mut out: Vec<MaybeEmptyFile> = Vec::new();
                let mut i: usize = 0;
                while i < files.len()
                    invariant
                        i <= files@.len(),
                        out@ == files@.take(i as int),
                    decreases files@.len() - i,
                {
                    out.push(files[i].clone());
                    proof {
                        assert(out@ =~= files@.take(i as int + 1));
                    }
                    i = i + 1;
                }
                proof {
                    assert(files@.take(files@.len() as int) =~= files@);
                }
                FileList { files: Some(out) }
            },
        }
    }
}

impl FileList {
    /// Wraps a list of storage ids, one reference per id; an empty
    /// list is normalized to the empty value.
    pub fn new(ids: Vec<String>) -> (r: Self)
        ensures
            file_list_matches(r, ids@),
    {
        if ids.len() == 0 {
            return Self::empty();
        }
        let mut files: Vec<MaybeEmptyFile> = Vec::new();
        let mut k: usize = 0;
        while k < ids.len()
            invariant
                k <= ids@.len(),
                files@.len() == k,
                forall|i: int|
                    0 <= i < k ==> {
                        &&& (#[trigger] files@[i]).wf()
                        &&& (ids@[i]@.len() > 0 ==> files@[i].id == Some(ids@[i]))
                        &&& (ids@[i]@.len() == 0 ==> files@[i].id is None)
                    },
            decreases ids@.len() - k,
        {
            files.push(MaybeEmptyFile::new(ids[k].clone()));
            k = k + 1;
        }
        Self { files: Some(files) }
    }

    /// The list that names nothing.
    pub fn empty() -> (r: Self)
        ensures
            r.files is None,
    {
        Self { files: None }
    }

    /// The storage ids of the non-empty references, in order.
    pub fn ids(&self) -> (r: Option<Vec<String>>)
        ensures
            r is Some <==> self.files is Some,
            r is Some ==> r->0@ == Self::present_ids(self.files->0@),
    {
        match &self.files {
            None => None,
            Some(files) => {
                let mut v: Vec<String> = Vec::new();
                let mut i: usize = 0;
                while i < files.len()
                    invariant
                        i <= files@.len(),
                        v@ == Self::present_ids(files@.take(i as int)),
                    decreases files@.len() - i,
                {
                    proof {
                        assert(files@.take(i as int + 1).drop_last() =~= files@.take(i as int));
                        assert(files@.take(i as int + 1).last() == files@[i as int]);
                    }
                    if let Some(id) = &files[i].id {
                        v.push(id.clone());
                    }
                    i = i + 1;
                }
                proof {
                    assert(files@.take(files@.len() as int) =~= files@);
                }
                Some(v)
            },
        }
    }

    /// The ids of the references that actually name a file, in order.
    pub open spec fn present_ids(files: Seq<MaybeEmptyFile>) -> Seq<String>
        decreases files.len(),
    {
        if files.len() == 0 {
            Seq::empty()
        } else {
            let prefix = Self::present_ids(files.drop_last());
            match files.last().id {
                Some(id) => prefix.push(id),
                None => prefix,
            }
        }
    }
}

} // verus!
