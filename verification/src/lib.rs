use vstd::prelude::*;

verus! {

/// How the operating system classified a failed filesystem call.
/// Callers translate the platform's native error kind into one of these
/// three plain values before handing it to the library.
#[derive(Clone, Copy, Debug, PartialEq, Eq, Structural)]
pub enum OsErrorKind {
    NotFound,
    PermissionDenied,
    Other,
}

/// Typed outcome of a failed directory listing: the OS error kind is
/// collapsed onto exactly one of these three variants.
#[derive(Clone, Copy, Debug, PartialEq, Eq, Structural)]
pub enum ListError {
    NotFound,
    PermDenied,
    Unknown,
}

impl ListError {
    /// The listing error that a given OS error kind maps to:
    /// "not found" and "permission denied" keep their identity,
    /// everything else collapses to `Unknown`.
    pub open spec fn of_os_kind_spec(kind: OsErrorKind) -> ListError {
        match kind {
            OsErrorKind::NotFound => ListError::NotFound,
            OsErrorKind::PermissionDenied => ListError::PermDenied,
            OsErrorKind::Other => ListError::Unknown,
        }
    }

    /// Maps an OS error kind onto the listing error taxonomy.
    pub fn of_os_kind(kind: OsErrorKind) -> (e: ListError)
        ensures
            e == ListError::of_os_kind_spec(kind),
    {
        match kind {
            OsErrorKind::NotFound => ListError::NotFound,
            OsErrorKind::PermissionDenied => ListError::PermDenied,
            OsErrorKind::Other => ListError::Unknown,
        }
    }

    /// The human-readable description owed for each variant.
    pub open spec fn description_spec(&self) -> Seq<char> {
        match self {
            ListError::PermDenied => "Access Denied"@,
            ListError::NotFound => "Not Found"@,
            ListError::Unknown => "Unknown Error"@,
        }
    }

    /// A human-readable description of the failure.
    pub fn description(&self) -> (s: String)
        ensures
            s@ == self.description_spec(),
    {
        match self {
            ListError::PermDenied => "Access Denied".to_owned(),
            ListError::NotFound => "Not Found".to_owned(),
            ListError::Unknown => "Unknown Error".to_owned(),
        }
    }
}

/// The abstract value of one directory entry: its full path, its base
/// name, and whether the OS classified it as a directory.
pub struct EntryView {
    pub path: Seq<char>,
    pub name: Seq<char>,
    pub is_dir: bool,
}

/// One raw directory entry exactly as the OS enumeration reported it.
/// The caller performs the enumeration and hands these plain values in.
pub struct RawEntry {
    pub path: String,
    pub name: String,
    pub is_dir: bool,
}

impl View for RawEntry {
    type V = EntryView;

    open spec fn view(&self) -> EntryView {
        EntryView { path: self.path@, name: self.name@, is_dir: self.is_dir }
    }
}

/// One entry of a directory listing, immutable once constructed.
pub struct ListedFile {
    is_dir: bool,
    path: String,
    name: String,
}

impl View for ListedFile {
    type V = EntryView;

    closed spec fn view(&self) -> EntryView {
        EntryView { path: self.path@, name: self.name@, is_dir: self.is_dir }
    }
}

impl ListedFile {
    /// Packages one entry's full path, base name and directory flag.
    pub fn new(path: String, name: String, is_dir: bool) -> (f: ListedFile)
        ensures
            f@.path == path@,
            f@.name == name@,
            f@.is_dir == is_dir,
    {
        ListedFile { is_dir, path, name }
    }

    /// Whether this entry is a directory.
    pub fn is_dir(&self) -> (r: bool)
        ensures
            r == self@.is_dir,
    {
        self.is_dir
    }

    /// The entry's full path.
    pub fn path(&self) -> (r: String)
        ensures
            r@ == self@.path,
    {
        self.path.clone()
    }

    /// The entry's base name.
    pub fn name(&self) -> (r: String)
        ensures
            r@ == self@.name,
    {
        self.name.clone()
    }
}

/// Builds the listing a directory query returns from the raw entries the
/// OS enumeration produced: same entries, in the order given, every field
/// kept unchanged.
pub fn build_listing(entries: &Vec<RawEntry>) -> (listing: Vec<ListedFile>)
    ensures
        listing@.len() == entries@.len(),
        forall|i: int| 0 <= i < entries@.len() ==> (#[trigger] listing@[i])@ == entries@[i]@,
{
    let mut listing: Vec<ListedFile> = Vec::new();
    let mut idx: usize = 0;
    while idx < entries.len()
        invariant
            idx <= entries@.len(),
            listing@.len() == idx,
            forall|i: int| 0 <= i < idx ==> (#[trigger] listing@[i])@ == entries@[i]@,
        decreases entries@.len() - idx,
    {
        let entry = &entries[idx];
        listing.push(ListedFile::new(entry.path.clone(), entry.name.clone(), entry.is_dir));
        idx = idx + 1;
    }
    listing
}

/// A listing whose entries agree pointwise with the OS-reported entries
/// has exactly the reported set of `path` values: no path is added,
/// dropped or renamed, whatever order the OS yielded them in.
pub proof fn lemma_listing_path_set(entries: Seq<EntryView>, listing: Seq<EntryView>)
    requires
        listing.len() == entries.len(),
        forall|i: int| 0 <= i < entries.len() ==> #[trigger] listing[i] == entries[i],
    ensures
        listing.map_values(|v: EntryView| v.path).to_set() =~= entries.map_values(
            |v: EntryView| v.path,
        ).to_set(),
{
    assert(listing =~= entries);
}

} // verus!
