//! The path model: a temporary file's location as a parent directory plus a
//! file name, with the file name's stem/extension split defined the way the
//! platform path type defines it (the extension begins after the last dot,
//! except a dot in the leading position, which marks a hidden file rather
//! than an extension).

use vstd::prelude::*;
use vstd::string::StrSliceExecFns;
use vstd::string::StringExecFns;

verus! {

/// Mathematical model of a temporary-file path: the directory component and
/// the file-name component, each as a sequence of characters.
pub ghost struct PathModel {
    pub dir: Seq<char>,
    pub name: Seq<char>,
}

/// The largest index `j` with `1 <= j <= i` holding a dot, if any. A dot at
/// index 0 never separates an extension: a file name that starts with a dot
/// is a hidden file, not an empty stem with an extension.
pub open spec fn last_dot_from(name: Seq<char>, i: int) -> Option<int>
    decreases i,
{
    if i < 1 {
        None
    } else if name[i] == '.' {
        Some(i)
    } else {
        last_dot_from(name, i - 1)
    }
}

/// The index of the dot that separates the file name's extension, if the
/// name has an extension.
pub open spec fn ext_sep(name: Seq<char>) -> Option<int> {
    last_dot_from(name, name.len() - 1)
}

/// The file name without its extension (the whole name when it has none).
pub open spec fn stem_of(name: Seq<char>) -> Seq<char> {
    match ext_sep(name) {
        Some(j) => name.subrange(0, j),
        None => name,
    }
}

/// The file name's extension: the characters after the separating dot.
pub open spec fn extension_of(name: Seq<char>) -> Option<Seq<char>> {
    match ext_sep(name) {
        Some(j) => Some(name.subrange(j + 1, name.len() as int)),
        None => None,
    }
}

/// The file name after replacing its extension by `ext`: the stem alone when
/// `ext` is empty, else the stem, a dot, and `ext`.
pub open spec fn with_extension_name(name: Seq<char>, ext: Seq<char>) -> Seq<char> {
    if ext.len() == 0 {
        stem_of(name)
    } else {
        stem_of(name) + seq!['.'] + ext
    }
}

/// The path after replacing the directory component only.
pub open spec fn set_parent_spec(p: PathModel, dir: Seq<char>) -> PathModel {
    PathModel { dir: dir, name: p.name }
}

/// The path after replacing the file-name component only.
pub open spec fn set_file_name_spec(p: PathModel, name: Seq<char>) -> PathModel {
    PathModel { dir: p.dir, name: name }
}

/// The path after replacing the file name's extension only.
pub open spec fn set_extension_spec(p: PathModel, ext: Seq<char>) -> PathModel {
    PathModel { dir: p.dir, name: with_extension_name(p.name, ext) }
}

/// What `last_dot_from` returns: a separating dot with nothing but non-dots
/// after it, or the guarantee that no separating dot exists up to `i`.
pub proof fn lemma_last_dot_from_props(name: Seq<char>, i: int)
    requires
        i < name.len(),
    ensures
        match last_dot_from(name, i) {
            Some(j) => 1 <= j <= i && name[j] == '.' && (forall|k: int|
                j < k <= i ==> name[k] != '.'),
            None => forall|k: int| 1 <= k <= i ==> name[k] != '.',
        },
    decreases i,
{
    if i < 1 {
    } else if name[i] == '.' {
    } else {
        lemma_last_dot_from_props(name, i - 1);
    }
}

/// A dot at index `j` with only non-dots after it up to `i` is the one that
/// `last_dot_from` finds.
pub proof fn lemma_last_dot_from_at(name: Seq<char>, i: int, j: int)
    requires
        1 <= j <= i < name.len(),
        name[j] == '.',
        forall|k: int| j < k <= i ==> name[k] != '.',
    ensures
        last_dot_from(name, i) == Some(j),
    decreases i,
{
    if i > j {
        lemma_last_dot_from_at(name, i - 1, j);
    }
}

/// Replacing the extension by a non-empty, dot-free `ext` on a non-empty
/// file name yields a name whose stem is unchanged and whose extension is
/// exactly `ext`.
pub proof fn lemma_with_extension_splits(name: Seq<char>, ext: Seq<char>)
    requires
        name.len() > 0,
        ext.len() > 0,
        forall|i: int| 0 <= i < ext.len() ==> ext[i] != '.',
    ensures
        stem_of(with_extension_name(name, ext)) == stem_of(name),
        extension_of(with_extension_name(name, ext)) == Some(ext),
{
    let stem = stem_of(name);
    let new_name = with_extension_name(name, ext);
    lemma_last_dot_from_props(name, name.len() - 1);
    assert(stem.len() >= 1);
    assert(new_name.len() == stem.len() + 1 + ext.len());
    assert(new_name[stem.len() as int] == '.');
    assert(forall|k: int|
        stem.len() < k <= new_name.len() - 1 ==> new_name[k] == ext[k - stem.len() - 1]);
    lemma_last_dot_from_at(new_name, new_name.len() - 1, stem.len() as int);
    assert(ext_sep(new_name) == Some(stem.len() as int));
    assert(new_name.subrange(0, stem.len() as int) =~= stem);
    assert(new_name.subrange(stem.len() as int + 1, new_name.len() as int) =~= ext);
    assert(stem_of(new_name) == stem);
    assert(extension_of(new_name) == Some(ext));
}

/// Builder-composition law: starting from any path whose file name is
/// non-empty, replacing the parent directory keeps the file name; then
/// replacing the extension by a non-empty, dot-free `ext` keeps the
/// directory and the stem and makes `ext` the extension.
pub proof fn lemma_builder_composition(p: PathModel, d: Seq<char>, e: Seq<char>)
    requires
        p.name.len() > 0,
        e.len() > 0,
        forall|i: int| 0 <= i < e.len() ==> e[i] != '.',
    ensures
        set_parent_spec(p, d).dir == d,
        set_parent_spec(p, d).name == p.name,
        set_extension_spec(set_parent_spec(p, d), e).dir == d,
        stem_of(set_extension_spec(set_parent_spec(p, d), e).name) == stem_of(p.name),
        extension_of(set_extension_spec(set_parent_spec(p, d), e).name) == Some(e),
{
    lemma_with_extension_splits(p.name, e);
}

/// A temporary file's target location: a parent directory and a file name.
/// Once a handle is bound to a created file the path inside it never
/// changes; only the builder rewrites paths.
pub struct TempPath {
    dir: String,
    file_name: String,
}

impl View for TempPath {
    type V = PathModel;

    closed spec fn view(&self) -> PathModel {
        PathModel { dir: self.dir@, name: self.file_name@ }
    }
}

/// The index of the extension-separating dot of `name`, if any, found by
/// scanning backwards from the end.
fn last_dot_index(name: &str) -> (r: Option<usize>)
    ensures
        match r {
            Some(j) => ext_sep(name@) == Some(j as int),
            None => ext_sep(name@) is None,
        },
{
    let n = name.unicode_len();
    let mut i: usize = n;
    while i > 1
        invariant
            i <= n,
            n == name@.len(),
            last_dot_from(name@, n as int - 1) == last_dot_from(name@, i as int - 1),
        decreases i,
    {
        i = i - 1;
        if name.get_char(i) == '.' {
            return Some(i);
        }
    }
    None
}

impl TempPath {
    /// A path made of the given directory and file name, verbatim.
    pub fn new(dir: &str, file_name: &str) -> (p: TempPath)
        ensures
            p@.dir == dir@,
            p@.name == file_name@,
    {
        TempPath { dir: dir.to_owned(), file_name: file_name.to_owned() }
    }

    /// The directory component.
    pub fn dir(&self) -> (d: &str)
        ensures
            d@ == self@.dir,
    {
        self.dir.as_str()
    }

    /// The file-name component.
    pub fn file_name(&self) -> (n: &str)
        ensures
            n@ == self@.name,
    {
        self.file_name.as_str()
    }

    /// The file name's extension, if it has one.
    pub fn extension(&self) -> (r: Option<String>)
        ensures
            r is Some <==> extension_of(self@.name) is Some,
            r is Some ==> Some(r->0@) == extension_of(self@.name),
    {
        let n = self.file_name.unicode_len();
        match last_dot_index(self.file_name.as_str()) {
            Some(j) => {
                proof {
                    lemma_last_dot_from_props(self.file_name@, self.file_name@.len() - 1);
                }
                let ext = self.file_name.as_str().substring_char(j + 1, n);
                Some(ext.to_owned())
            },
            None => None,
        }
    }

    /// Replaces the directory component only.
    pub fn set_parent_dir(&mut self, dir: &str)
        ensures
            final(self)@ == set_parent_spec(old(self)@, dir@),
    {
        self.dir = dir.to_owned();
    }

    /// Replaces the file-name component only.
    pub fn set_file_name(&mut self, file_name: &str)
        ensures
            final(self)@ == set_file_name_spec(old(self)@, file_name@),
    {
        self.file_name = file_name.to_owned();
    }

    /// Replaces the file name's extension only: the part after the last dot
    /// is replaced by `ext` (an empty `ext` removes the extension and its
    /// dot; a name without an extension gains `.ext`).
    pub fn set_extension(&mut self, ext: &str)
        ensures
            final(self)@ == set_extension_spec(old(self)@, ext@),
    {
        let new_name: String = match last_dot_index(self.file_name.as_str()) {
            Some(j) => {
                proof {
                    lemma_last_dot_from_props(self.file_name@, self.file_name@.len() - 1);
                }
                let stem = self.file_name.as_str().substring_char(0, j);
                let mut s = stem.to_owned();
                if !ext.is_empty() {
                    s.append(".");
                    s.append(ext);
                    proof {
                        reveal_strlit(".");
                        assert(s@ =~= stem_of(old(self)@.name) + seq!['.'] + ext@);
                    }
                }
                s
            },
            None => {
                let mut s = self.file_name.clone();
                if !ext.is_empty() {
                    s.append(".");
                    s.append(ext);
                    proof {
                        reveal_strlit(".");
                        assert(s@ =~= stem_of(old(self)@.name) + seq!['.'] + ext@);
                    }
                }
                s
            },
        };
        self.file_name = new_name;
    }

    /// The whole path as one string: directory, separator, file name.
    pub fn render(&self) -> (s: String)
        ensures
            s@ == self@.dir + "/"@ + self@.name,
    {
        let mut s = self.dir.clone();
        s.append("/");
        s.append(self.file_name.as_str());
        s
    }
}

} // verus!
