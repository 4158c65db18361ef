//! Results of the SDK resolution of hostfxr.

use vstd::prelude::*;

use std::path::PathBuf;

verus! {

/// A path of the file system, carried through unchanged.
#[verifier::external_type_specification]
#[verifier::external_body]
pub struct ExPathBuf(PathBuf);

/// `Clone::clone` of `std::path::PathBuf`: the copy holds the same path as the original.
pub assume_specification[ <PathBuf as Clone>::clone ](path: &PathBuf) -> (r: PathBuf)
    ensures
        r == *path,
;

/// Result of the SDK resolution of hostfxr (`hostfxr_resolve_sdk2`).
#[derive(Debug, PartialEq, Eq)]
pub enum ResolveSdkResult {
    /// `global.json` was not present or did not impact the resolved SDK location.
    ResolvedSdkDirectory(PathBuf),
    /// `global.json` was used during resolution.
    GlobalJsonPath(PathBuf),
}

impl Clone for ResolveSdkResult {
    fn clone(&self) -> (r: Self)
        ensures
            r == *self,
    {
        match self {
            ResolveSdkResult::ResolvedSdkDirectory(path) => ResolveSdkResult::ResolvedSdkDirectory(path.clone()),
            ResolveSdkResult::GlobalJsonPath(path) => ResolveSdkResult::GlobalJsonPath(path.clone()),
        }
    }
}

impl ResolveSdkResult {
    /// The path that the result carries, whichever way it was resolved.
    pub open spec fn spec_path(self) -> PathBuf {
        match self {
            ResolveSdkResult::GlobalJsonPath(path) | ResolveSdkResult::ResolvedSdkDirectory(path) => path,
        }
    }

    /// Returns the path to the resolved SDK directory.
    pub fn into_path(self) -> (r: PathBuf)
        ensures
            r == self.spec_path(),
    {
        match self {
            ResolveSdkResult::GlobalJsonPath(path) | ResolveSdkResult::ResolvedSdkDirectory(path) => path,
        }
    }

    /// Returns the path to the resolved SDK directory.
    pub fn path(&self) -> (r: &PathBuf)
        ensures
            *r == self.spec_path(),
    {
        match self {
            ResolveSdkResult::GlobalJsonPath(path) | ResolveSdkResult::ResolvedSdkDirectory(path) => path,
        }
    }
}

/// The flags of an SDK resolution (`hostfxr_resolve_sdk2_flags_t`).
#[derive(Debug, Clone, Copy, PartialEq, Eq, Structural)]
pub enum ResolveSdkFlags {
    /// No flag: prerelease SDKs may be chosen.
    AllowPrerelease,
    /// Prerelease SDKs are not chosen.
    DisallowPrerelease,
}

/// The key of a value that an SDK resolution hands to its callback
/// (`hostfxr_resolve_sdk2_result_key_t`).
#[derive(Debug, Clone, Copy, PartialEq, Eq, Structural)]
pub enum ResolveSdkKey {
    /// The value is the path of the resolved SDK directory.
    ResolvedSdkDir,
    /// The value is the path of the `global.json` that took part in the resolution.
    GlobalJsonPath,
    /// The value is the SDK version that `global.json` requested.
    RequestedVersion,
    /// The value is the state of `global.json`.
    GlobalJsonState,
}

/// The flags with which an SDK is resolved: prerelease SDKs are disallowed unless they are
/// allowed.
pub fn resolve_sdk_flags(allow_prerelease: bool) -> (r: ResolveSdkFlags)
    ensures
        r == (if allow_prerelease { ResolveSdkFlags::AllowPrerelease } else { ResolveSdkFlags::DisallowPrerelease }),
{
    if allow_prerelease {
        ResolveSdkFlags::AllowPrerelease
    } else {
        ResolveSdkFlags::DisallowPrerelease
    }
}

/// The result held after the callback of an SDK resolution handed over the value `path` under
/// `key`: a resolved SDK directory or a `global.json` path replaces what was held; the values of
/// the other keys are no paths of a result and leave it as it was.
pub fn resolve_sdk_update(held: Option<ResolveSdkResult>, key: ResolveSdkKey, path: PathBuf) -> (r: Option<ResolveSdkResult>)
    ensures
        r == (match key {
            ResolveSdkKey::ResolvedSdkDir => Some(ResolveSdkResult::ResolvedSdkDirectory(path)),
            ResolveSdkKey::GlobalJsonPath => Some(ResolveSdkResult::GlobalJsonPath(path)),
            _ => held,
        }),
{
    match key {
        ResolveSdkKey::ResolvedSdkDir => Some(ResolveSdkResult::ResolvedSdkDirectory(path)),
        ResolveSdkKey::GlobalJsonPath => Some(ResolveSdkResult::GlobalJsonPath(path)),
        ResolveSdkKey::RequestedVersion | ResolveSdkKey::GlobalJsonState => held,
    }
}

/// Whether a unit may stand inside a directory of the search-directory list: it is neither the
/// path separator nor a nul.
pub open spec fn is_directory_unit(unit: u8, separator: u8) -> bool {
    unit != separator && unit != 0
}

/// The directories, each as its units, joined back with the separator between them.
pub open spec fn joined(parts: Seq<Seq<u8>>, separator: u8) -> Seq<u8>
    decreases parts.len(),
{
    if parts.len() == 0 {
        Seq::empty()
    } else if parts.len() == 1 {
        parts[0]
    } else {
        joined(parts.drop_last(), separator) + seq![separator] + parts.last()
    }
}

/// The units of each directory.
pub open spec fn directory_units(directories: Seq<Vec<u8>>) -> Seq<Seq<u8>> {
    directories.map_values(|d: Vec<u8>| d@)
}

/// Whether `n` is the length of the text in the buffer: the position of its first nul, or the
/// whole buffer when it holds none.
pub open spec fn is_text_len(buffer: Seq<u8>, n: int) -> bool {
    &&& 0 <= n <= buffer.len()
    &&& n == buffer.len() || buffer[n] == 0
    &&& forall|j: int| 0 <= j < n ==> buffer[j] != 0
}

proof fn lemma_joined_push(parts: Seq<Seq<u8>>, part: Seq<u8>, separator: u8)
    ensures
        joined(parts.push(part), separator) == (if parts.len() == 0 {
            part
        } else {
            joined(parts, separator) + seq![separator] + part
        }),
{
    assert(parts.push(part).drop_last() =~= parts);
}

/// Joining puts the directories one after another from the first, with a separator between
/// two of them: the first directory, a separator, and the others joined.
pub proof fn lemma_joined_from_front(parts: Seq<Seq<u8>>, separator: u8)
    requires
        parts.len() >= 2,
    ensures
        joined(parts, separator) == parts[0] + seq![separator] + joined(parts.drop_first(), separator),
    decreases parts.len(),
{
    if parts.len() == 2 {
        assert(parts.drop_first().drop_last() =~= Seq::<Seq<u8>>::empty());
        assert(parts.drop_last() =~= seq![parts[0]]);
        assert(parts.drop_first() =~= seq![parts[1]]);
        assert(joined(parts.drop_last(), separator) == parts[0]);
        assert(joined(parts.drop_first(), separator) == parts[1]);
        assert(joined(parts, separator) =~= parts[0] + seq![separator] + parts[1]);
    } else {
        let front = parts.drop_last();
        let rest = parts.drop_first();
        lemma_joined_from_front(front, separator);
        assert(front.drop_first() =~= rest.drop_last());
        assert(rest.last() == parts.last());
        assert(front[0] == parts[0]);
        assert(joined(rest, separator) == joined(rest.drop_last(), separator) + seq![separator] + rest.last());
        assert(joined(parts, separator) =~= parts[0] + seq![separator] + joined(rest, separator));
    }
}

/// Splits the buffer that `hostfxr_get_native_search_directories` filled into the native search
/// directories: the text up to the first nul, cut at every path separator, in order. Joined back
/// with the separator the directories give that text, and none of them holds a separator or a
/// nul. An empty buffer holds no directory.
pub fn search_directories(buffer: &[u8], separator: u8) -> (r: Vec<Vec<u8>>)
    ensures
        buffer@.len() == 0 ==> r@.len() == 0,
        buffer@.len() > 0 ==> r@.len() >= 1 && exists|n: int|
            is_text_len(buffer@, n) && #[trigger] buffer@.subrange(0, n) == joined(directory_units(r@), separator),
        forall|k: int, j: int| 0 <= k < r@.len() && 0 <= j < r@[k]@.len() ==> is_directory_unit(#[trigger] r@[k]@[j], separator),
{
    let mut directories: Vec<Vec<u8>> = Vec::new();
    if buffer.len() == 0 {
        return directories;
    }
    let mut n: usize = 0;
    while n < buffer.len() && buffer[n] != 0
        invariant
            n <= buffer@.len(),
            forall|j: int| 0 <= j < n ==> buffer@[j] != 0,
        decreases buffer@.len() - n,
    {
        n = n + 1;
    }
    let mut current: Vec<u8> = Vec::new();
    let mut i: usize = 0;
    while i < n
        invariant
            i <= n <= buffer@.len(),
            forall|j: int| 0 <= j < n ==> buffer@[j] != 0,
            joined(directory_units(directories@).push(current@), separator) == buffer@.subrange(0, i as int),
            forall|k: int, j: int| 0 <= k < directories@.len() && 0 <= j < directories@[k]@.len()
                ==> is_directory_unit(#[trigger] directories@[k]@[j], separator),
            forall|j: int| 0 <= j < current@.len() ==> is_directory_unit(#[trigger] current@[j], separator),
        decreases n - i,
    {
        let unit = buffer[i];
        let ghost before = directory_units(directories@);
        let ghost piece = current@;
        proof {
            lemma_joined_push(before, piece, separator);
        }
        if unit == separator {
            directories.push(current);
            current = Vec::new();
            proof {
                assert(directory_units(directories@) =~= before.push(piece));
                lemma_joined_push(before.push(piece), current@, separator);
            }
        } else {
            current.push(unit);
            proof {
                lemma_joined_push(before, current@, separator);
                assert(piece.push(unit) =~= current@);
            }
        }
        assert(buffer@.subrange(0, i + 1) =~= buffer@.subrange(0, i as int).push(unit));
        i = i + 1;
    }
    let ghost before = directory_units(directories@);
    directories.push(current);
    proof {
        assert(directory_units(directories@) =~= before.push(current@));
        assert(is_text_len(buffer@, n as int));
    }
    directories
}

} // verus!
