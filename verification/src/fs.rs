use vstd::prelude::*;
use vstd::hash_map::StringHashMap;

verus! {

/// The view of an `Option<String>` as an optional sequence of characters.
pub open spec fn str_opt_view(o: Option<String>) -> Option<Seq<char>> {
    match o {
        Some(s) => Some(s@),
        None => None,
    }
}

/// The mathematical state that both operations of the store act on: the
/// resolved configuration root (or nothing, when the platform resolver
/// yields none), the files that exist, keyed by path and holding their
/// full text, and the set of directories that exist.
#[verifier::ext_equal]
pub ghost struct FsModel {
    pub root: Option<Seq<char>>,
    pub files: Map<Seq<char>, Seq<char>>,
    pub dirs: Set<Seq<char>>,
}

/// A configuration volume: the directory-resolver outcome together with the
/// files and directories under it, held in memory. `load_or_init` and `store`
/// are verified against this state; a caller that keeps its configuration on
/// a real disk performs the same steps through its platform's calls.
pub struct ConfigFs {
    root: Option<String>,
    files: StringHashMap<String>,
    dirs: StringHashMap<bool>,
}

impl View for ConfigFs {
    type V = FsModel;

    closed spec fn view(&self) -> FsModel {
        FsModel {
            root: str_opt_view(self.root),
            files: self.files@.map_values(|t: String| t@),
            dirs: self.dirs@.dom(),
        }
    }
}

impl ConfigFs {
    /// An empty volume whose directory resolver yields `root`.
    pub fn new(root: Option<String>) -> (r: Self)
        ensures
            r@ == (FsModel {
                root: str_opt_view(root),
                files: Map::<Seq<char>, Seq<char>>::empty(),
                dirs: Set::<Seq<char>>::empty(),
            }),
    {
        let r = ConfigFs { root, files: StringHashMap::new(), dirs: StringHashMap::new() };
        proof {
            assert(r@.files =~= Map::<Seq<char>, Seq<char>>::empty());
            assert(r@.dirs =~= Set::<Seq<char>>::empty());
        }
        r
    }

    /// What the directory resolver yielded for this volume.
    pub fn root_dir(&self) -> (r: &Option<String>)
        ensures
            str_opt_view(*r) == self@.root,
    {
        &self.root
    }

    /// Whether a file exists at `path`.
    pub fn contains_file(&self, path: &str) -> (r: bool)
        ensures
            r == self@.files.contains_key(path@),
    {
        self.files.contains_key(path)
    }

    /// The full text of the file at `path`, if one exists.
    pub fn file_text(&self, path: &str) -> (r: Option<&String>)
        ensures
            match r {
                Some(t) => self@.files.contains_key(path@) && t@ == self@.files[path@],
                None => !self@.files.contains_key(path@),
            },
    {
        let r = self.files.get(path);
        proof {
            assert(self@.files.contains_key(path@) == self.files@.contains_key(path@));
        }
        r
    }

    /// Whether a directory exists at `path`.
    pub fn contains_dir(&self, path: &str) -> (r: bool)
        ensures
            r == self@.dirs.contains(path@),
    {
        self.dirs.contains_key(path)
    }

    /// Makes the directory at `path` exist; nothing else changes.
    pub fn create_dir(&mut self, path: String)
        ensures
            final(self)@ == (FsModel { dirs: old(self)@.dirs.insert(path@), ..old(self)@ }),
    {
        let ghost p = path@;
        self.dirs.insert(path, true);
        proof {
            assert(final(self)@.files =~= old(self)@.files);
            assert(final(self)@.dirs =~= old(self)@.dirs.insert(p));
        }
    }

    /// Writes `text` to the file at `path` in full, replacing any previous
    /// text; nothing else changes.
    pub fn write_file(&mut self, path: String, text: String)
        ensures
            final(self)@ == (FsModel {
                files: old(self)@.files.insert(path@, text@),
                ..old(self)@
            }),
    {
        let ghost p = path@;
        let ghost t = text@;
        self.files.insert(path, text);
        proof {
            assert(final(self)@.files =~= old(self)@.files.insert(p, t));
            assert(final(self)@.dirs =~= old(self)@.dirs);
        }
    }
}

} // verus!
