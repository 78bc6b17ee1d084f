//! Asset lookup against the output store.
//!
//! A lookup resolves the requested path against the output directory, asks
//! the store for the entry's metadata, and reads the content only where the
//! entry is a regular file.  The store itself is outside this library: a
//! lookup is a value that says what to ask the store next, and is advanced
//! with the store's answer.

use vstd::prelude::*;

verus! {

/// The path that joining `path` onto `base` gives, by the path rules of the
/// platform the crate is built for.
pub uninterp spec fn joined_path(base: Seq<char>, path: Seq<char>) -> Seq<char>;

/// The media type guessed from the extension of `path`, as text.
pub uninterp spec fn guessed_mime(path: Seq<char>) -> Seq<char>;

/// Joins `path` onto `base` with `rspack_paths::Utf8Path::join`.
///
/// Trusted: the result is the join of the two paths, which depends on
/// nothing but the two texts.
#[verifier::external_body]
fn join(base: &str, path: &str) -> (joined: String)
    ensures
        joined@ == joined_path(base@, path@),
{
    rspack_paths::Utf8Path::new(base).join(path).into_string()
}

/// Guesses the media type of `path` with `mime_guess::from_path` and takes
/// `MimeGuess::first_or_octet_stream` of the guess.
///
/// Trusted: the result is the text of that media type, which depends on
/// nothing but the path's text.
#[verifier::external_body]
fn guess_mime(path: &str) -> (mime: String)
    ensures
        mime@ == guessed_mime(path@),
{
    mime_guess::from_path(path).first_or_octet_stream().as_ref().to_string()
}

/// What the store knows of an entry without reading it.
#[derive(Debug, Clone, Copy, PartialEq, Eq, Structural)]
pub struct FileMetadata {
    pub is_file: bool,
    pub is_directory: bool,
    pub is_symlink: bool,
    pub size: u64,
}

/// A lookup that waits for the metadata of the resolved path.
#[derive(Debug)]
pub struct AssetQuery {
    path: String,
}

/// A lookup that found a regular file and waits for its content.
#[derive(Debug)]
pub struct AssetRead {
    path: String,
}

impl View for AssetQuery {
    type V = Seq<char>;

    /// The resolved path the metadata is asked for.
    closed spec fn view(&self) -> Seq<char> {
        self.path@
    }
}

impl View for AssetRead {
    type V = Seq<char>;

    /// The resolved path whose content is asked for.
    closed spec fn view(&self) -> Seq<char> {
        self.path@
    }
}

/// Whether an entry with this metadata, or none, is served.
pub open spec fn is_regular_file(metadata: Option<FileMetadata>) -> bool {
    metadata matches Some(m) && m.is_file
}

impl AssetQuery {
    /// Starts the lookup of `path` below the output directory `root`.
    pub fn resolve(root: &str, path: &str) -> (query: AssetQuery)
        ensures
            query@ == joined_path(root@, path@),
    {
        AssetQuery { path: join(root, path) }
    }

    /// The path to ask the store's metadata for.
    pub fn path(&self) -> (path: &String)
        ensures
            path@ == self@,
    {
        &self.path
    }

    /// Takes the store's answer to the metadata check: `None` where the
    /// store has no entry at the path.  The lookup goes on exactly where the
    /// entry is a regular file; a directory and a missing entry both end it.
    pub fn checked(self, metadata: Option<FileMetadata>) -> (read: Option<AssetRead>)
        ensures
            read is Some <==> is_regular_file(metadata),
            read matches Some(r) ==> r@ == self@,
            read is None ==> forall|content: Seq<u8>|
                #[trigger] lookup_result(self@, metadata, content) is None,
    {
        match metadata {
            Some(m) => {
                if m.is_file {
                    Some(AssetRead { path: self.path })
                } else {
                    None
                }
            },
            None => None,
        }
    }
}

impl AssetRead {
    /// The path to read from the store.
    pub fn path(&self) -> (path: &String)
        ensures
            path@ == self@,
    {
        &self.path
    }

    /// Takes the file's content and gives the asset: the media type guessed
    /// from the resolved path, and the content as it was read.
    pub fn loaded(self, content: Vec<u8>) -> (asset: (String, Vec<u8>))
        ensures
            asset.0@ == guessed_mime(self@),
            asset.1@ == content@,
            forall|metadata: Option<FileMetadata>|
                is_regular_file(metadata) ==> #[trigger] lookup_result(self@, metadata, content@)
                    == Some((asset.0@, asset.1@)),
    {
        let mime = guess_mime(self.path.as_str());
        (mime, content)
    }
}

/// An entry of the output store, as a lookup sees it.
pub enum StoreEntry {
    /// A regular file and its bytes.
    File(Seq<u8>),
    /// A directory.
    Directory,
}

/// The output store at one moment: what the latest completed build left.
pub type Store = Map<Seq<char>, StoreEntry>;

/// Whether `metadata` is what `store` answers to a metadata check of `path`.
pub open spec fn store_answers_metadata(
    store: Store,
    path: Seq<char>,
    metadata: Option<FileMetadata>,
) -> bool {
    match metadata {
        None => !store.contains_key(path),
        Some(m) => store.contains_key(path) && (m.is_file <==> store[path] is File),
    }
}

/// Whether `content` is what `store` gives when the file at `path` is read.
pub open spec fn store_answers_content(store: Store, path: Seq<char>, content: Seq<u8>) -> bool {
    store.contains_key(path) && store[path] == StoreEntry::File(content)
}

/// What a lookup that was resolved to `resolved` ends with, given the
/// store's two answers: the metadata, and the content where it was read.
pub open spec fn lookup_result(
    resolved: Seq<char>,
    metadata: Option<FileMetadata>,
    content: Seq<u8>,
) -> Option<(Seq<char>, Seq<u8>)> {
    if is_regular_file(metadata) {
        Some((guessed_mime(resolved), content))
    } else {
        None
    }
}

/// The asset that `store` serves for `path` below `root`: the regular file
/// at the resolved path with its guessed media type, and nothing for a
/// directory or a path the store does not hold.
pub open spec fn served(store: Store, root: Seq<char>, path: Seq<char>) -> Option<
    (Seq<char>, Seq<u8>),
> {
    let resolved = joined_path(root, path);
    if store.contains_key(resolved) {
        match store[resolved] {
            StoreEntry::File(bytes) => Some((guessed_mime(resolved), bytes)),
            StoreEntry::Directory => None,
        }
    } else {
        None
    }
}

/// A lookup that is answered by a store ends with what that store serves.
pub proof fn lemma_lookup_serves_store(
    store: Store,
    root: Seq<char>,
    path: Seq<char>,
    metadata: Option<FileMetadata>,
    content: Seq<u8>,
)
    requires
        store_answers_metadata(store, joined_path(root, path), metadata),
        is_regular_file(metadata) ==> store_answers_content(
            store,
            joined_path(root, path),
            content,
        ),
    ensures
        lookup_result(joined_path(root, path), metadata, content) == served(store, root, path),
{
}

/// A path that the store does not hold is absent: the lookup ends with
/// nothing, whatever else the store holds.  This is so before the first
/// build has written anything, when the store is empty, and after any build
/// that did not write the path.
pub proof fn lemma_unwritten_path_is_absent(
    store: Store,
    root: Seq<char>,
    path: Seq<char>,
    metadata: Option<FileMetadata>,
    content: Seq<u8>,
)
    requires
        !store.contains_key(joined_path(root, path)),
        store_answers_metadata(store, joined_path(root, path), metadata),
    ensures
        served(store, root, path) is None,
        lookup_result(joined_path(root, path), metadata, content) is None,
        served(Map::empty(), root, path) is None,
{
}

/// Two lookups of one path against one store end alike, byte for byte:
/// a lookup keeps nothing from one request to the next, so with no build in
/// between both read the same state.
pub proof fn lemma_lookup_is_repeatable(
    store: Store,
    root: Seq<char>,
    path: Seq<char>,
    first_metadata: Option<FileMetadata>,
    first_content: Seq<u8>,
    second_metadata: Option<FileMetadata>,
    second_content: Seq<u8>,
)
    requires
        store_answers_metadata(store, joined_path(root, path), first_metadata),
        store_answers_metadata(store, joined_path(root, path), second_metadata),
        is_regular_file(first_metadata) ==> store_answers_content(
            store,
            joined_path(root, path),
            first_content,
        ),
        is_regular_file(second_metadata) ==> store_answers_content(
            store,
            joined_path(root, path),
            second_content,
        ),
    ensures
        lookup_result(joined_path(root, path), first_metadata, first_content) == lookup_result(
            joined_path(root, path),
            second_metadata,
            second_content,
        ),
{
    lemma_lookup_serves_store(store, root, path, first_metadata, first_content);
    lemma_lookup_serves_store(store, root, path, second_metadata, second_content);
}

} // verus!
