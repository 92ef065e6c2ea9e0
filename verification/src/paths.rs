//! Finding the three texture sheets of a tileset by their names: the
//! identifier in the name of the metadata file, and the scan of the entries
//! of its directory.

use vstd::prelude::*;
use crate::error::MetaError;
use crate::text::{chars_of, ends_with, find_first, lowercase, lowercase_of, same_text, starts_with};
use crate::texture::TextureKind;

verus! {

/// One entry of a directory: its path, and the stem and the extension of its
/// file name.
#[derive(Debug, PartialEq, Eq)]
pub struct Entry {
    pub path: String,
    pub stem: String,
    pub ext: String,
}

/// The identifier in a file stem: what stands before its first underscore.
/// A stem without an underscore has none.
pub open spec fn identifier_of(stem: Seq<char>) -> Option<Seq<char>> {
    match stem.index_of_first('_') {
        Some(i) => Some(stem.take(i)),
        None => None,
    }
}

/// The extension of a texture sheet, in lower case.
pub open spec fn sheet_ext() -> Seq<char> {
    seq!['p', 'n', 'g']
}

/// What the stem of a sheet of this kind ends with, in lower case.
pub open spec fn sheet_suffix(kind: TextureKind) -> Seq<char> {
    seq!['_'] + kind.suffix()
}

/// The sheet that an entry stands for, all three texts being in lower case
/// already: its extension is `png`, its stem begins with the identifier and
/// an underscore, and the end of its stem tells which sheet it is.
pub open spec fn slot_of(identifier: Seq<char>, stem: Seq<char>, ext: Seq<char>) -> Option<
    TextureKind,
> {
    if ext == sheet_ext() && (identifier + seq!['_']).is_prefix_of(stem) {
        if sheet_suffix(TextureKind::Base).is_suffix_of(stem) {
            Some(TextureKind::Base)
        } else if sheet_suffix(TextureKind::Var).is_suffix_of(stem) {
            Some(TextureKind::Var)
        } else if sheet_suffix(TextureKind::Anm).is_suffix_of(stem) {
            Some(TextureKind::Anm)
        } else {
            None
        }
    } else {
        None
    }
}

/// The sheet that an entry stands for, letter case set aside.
pub open spec fn entry_slot(identifier: Seq<char>, entry: Entry) -> Option<TextureKind> {
    slot_of(lowercase_of(identifier), lowercase_of(entry.stem@), lowercase_of(entry.ext@))
}

/// Whether no entry stands for the sheet `kind`.
pub open spec fn missing(identifier: Seq<char>, entries: Seq<Entry>, kind: TextureKind) -> bool {
    forall|j: int|
        0 <= j < entries.len() ==> entry_slot(identifier, #[trigger] entries[j]) != Some(kind)
}

/// Whether entry `i` stands for the sheet `kind` and no later entry does.
pub open spec fn last_for(
    identifier: Seq<char>,
    entries: Seq<Entry>,
    kind: TextureKind,
    i: int,
) -> bool {
    &&& 0 <= i < entries.len()
    &&& entry_slot(identifier, entries[i]) == Some(kind)
    &&& forall|j: int|
        i < j < entries.len() ==> entry_slot(identifier, #[trigger] entries[j]) != Some(kind)
}

/// The stem that `std::path::Path::file_stem` finds in a path, if it finds
/// one.
pub uninterp spec fn path_stem(path: Seq<char>) -> Option<Seq<char>>;

/// The extension that `std::path::Path::extension` finds in a path, if it
/// finds one.
pub uninterp spec fn path_extension(path: Seq<char>) -> Option<Seq<char>>;

/// The parent that `std::path::Path::parent` finds for a path, if it finds
/// one.
pub uninterp spec fn path_parent(path: Seq<char>) -> Option<Seq<char>>;

/// The stem of the file that a path names, or the empty text where the path
/// names no file.
pub open spec fn stem_text(path: Seq<char>) -> Seq<char> {
    match path_stem(path) {
        Some(stem) => stem,
        None => Seq::empty(),
    }
}

/// The extension of the file that a path names, or the empty text where it
/// has none.
pub open spec fn ext_text(path: Seq<char>) -> Seq<char> {
    match path_extension(path) {
        Some(ext) => ext,
        None => Seq::empty(),
    }
}

/// Calls `std::path::Path::file_stem`, which gives the file name of a path
/// without its extension, where the path has a file name. The standard
/// library splits a path by the rules of the platform that the program is
/// built for; there the result depends on the text of the path alone. It is
/// named and not spelled out.
#[verifier::external_body]
fn stem_of_path(path: &str) -> (r: Option<String>)
    ensures
        match r {
            Some(stem) => path_stem(path@) == Some(stem@),
            None => path_stem(path@) is None,
        },
{
    let stem = std::path::Path::new(path).file_stem()?;
    Some(stem.to_string_lossy().into_owned())
}

/// Calls `std::path::Path::extension`, which gives what follows the last dot
/// of the file name of a path, where there is such a part. The result is
/// named, as for the stem.
#[verifier::external_body]
fn extension_of_path(path: &str) -> (r: Option<String>)
    ensures
        match r {
            Some(ext) => path_extension(path@) == Some(ext@),
            None => path_extension(path@) is None,
        },
{
    let ext = std::path::Path::new(path).extension()?;
    Some(ext.to_string_lossy().into_owned())
}

/// Calls `std::path::Path::parent`, which gives a path without its last
/// component, and nothing for a path that ends in a root or is empty. The
/// result is named, as for the stem.
#[verifier::external_body]
fn parent_of_path(path: &str) -> (r: Option<String>)
    ensures
        match r {
            Some(dir) => path_parent(path@) == Some(dir@),
            None => path_parent(path@) is None,
        },
{
    let dir = std::path::Path::new(path).parent()?;
    Some(dir.to_string_lossy().into_owned())
}

/// The stem of the file that a path names, or the empty text where the path
/// names no file.
pub(crate) fn file_stem_str(path: &str) -> (r: String)
    ensures
        r@ == stem_text(path@),
{
    match stem_of_path(path) {
        Some(stem) => stem,
        None => String::new(),
    }
}

/// The extension of the file that a path names, or the empty text where it
/// has none.
pub(crate) fn ext_str(path: &str) -> (r: String)
    ensures
        r@ == ext_text(path@),
{
    match extension_of_path(path) {
        Some(ext) => ext,
        None => String::new(),
    }
}

/// The identifier of a file stem: the text before its first underscore.
pub fn identifier(stem: &str) -> (r: Result<String, MetaError>)
    ensures
        match identifier_of(stem@) {
            Some(id) => r is Ok && r->Ok_0@ == id,
            None => r == Err::<String, MetaError>(MetaError::NoIdentifier),
        },
{
    let chars = chars_of(stem);
    match find_first(&chars, '_') {
        Some(i) => {
            assert(stem@.take(i as int) =~= stem@.subrange(0, i as int));
            Ok(stem.substring_char(0, i).to_owned())
        },
        None => Err(MetaError::NoIdentifier),
    }
}

/// The characters of what the stem of a sheet of this kind ends with.
fn suffix_chars(kind: TextureKind) -> (r: Vec<char>)
    ensures
        r@ == sheet_suffix(kind),
{
    let mut out: Vec<char> = Vec::new();
    out.push('_');
    let mut word = chars_of(kind.get_suffix());
    out.append(&mut word);
    out
}

/// Tells which sheet an entry stands for, if any. The three texts are
/// compared as they are: fold their case first.
pub fn classify(identifier: &str, stem: &str, ext: &str) -> (r: Option<TextureKind>)
    ensures
        r == slot_of(identifier@, stem@, ext@),
{
    let ext_chars = chars_of(ext);
    let png: Vec<char> = vec!['p', 'n', 'g'];
    assert(png@ =~= sheet_ext());
    if !same_text(&ext_chars, &png) {
        return None;
    }
    let stem_chars = chars_of(stem);
    let mut prefix = chars_of(identifier);
    prefix.push('_');
    assert(prefix@ =~= identifier@ + seq!['_']);
    if !starts_with(&stem_chars, &prefix) {
        return None;
    }
    if ends_with(&stem_chars, &suffix_chars(TextureKind::Base)) {
        Some(TextureKind::Base)
    } else if ends_with(&stem_chars, &suffix_chars(TextureKind::Var)) {
        Some(TextureKind::Var)
    } else if ends_with(&stem_chars, &suffix_chars(TextureKind::Anm)) {
        Some(TextureKind::Anm)
    } else {
        None
    }
}

/// Goes once over the entries of a directory and picks the three texture
/// sheets of `identifier`, letter case set aside. Where several entries stand
/// for one sheet the last of them is taken. The result holds the positions of
/// the base, var and anm sheets in `entries`; where a sheet has no entry, the
/// error names each sheet that is missing.
pub fn select_textures(identifier: &str, entries: &Vec<Entry>) -> (r: Result<
    (usize, usize, usize),
    MetaError,
>)
    ensures
        match r {
            Ok((base, var, anm)) => {
                &&& last_for(identifier@, entries@, TextureKind::Base, base as int)
                &&& last_for(identifier@, entries@, TextureKind::Var, var as int)
                &&& last_for(identifier@, entries@, TextureKind::Anm, anm as int)
            },
            Err(e) => {
                &&& e == (MetaError::MissingTextures {
                    base: missing(identifier@, entries@, TextureKind::Base),
                    var: missing(identifier@, entries@, TextureKind::Var),
                    anm: missing(identifier@, entries@, TextureKind::Anm),
                })
                &&& missing(identifier@, entries@, TextureKind::Base) || missing(
                    identifier@,
                    entries@,
                    TextureKind::Var,
                ) || missing(identifier@, entries@, TextureKind::Anm)
            },
        },
{
    let folded = lowercase(identifier);
    let mut base: Option<usize> = None;
    let mut var: Option<usize> = None;
    let mut anm: Option<usize> = None;
    let mut i: usize = 0;
    while i < entries.len()
        invariant
            i <= entries@.len(),
            folded@ == lowercase_of(identifier@),
            found_in(identifier@, entries@.take(i as int), TextureKind::Base, base),
            found_in(identifier@, entries@.take(i as int), TextureKind::Var, var),
            found_in(identifier@, entries@.take(i as int), TextureKind::Anm, anm),
        decreases entries@.len() - i,
    {
        let stem = lowercase(entries[i].stem.as_str());
        let ext = lowercase(entries[i].ext.as_str());
        let slot = classify(folded.as_str(), stem.as_str(), ext.as_str());
        assert(slot == entry_slot(identifier@, entries@[i as int]));
        let ghost seen = entries@.take(i as int);
        let ghost next = entries@.take(i + 1);
        assert(next.len() == i + 1);
        assert(next[i as int] == entries@[i as int]);
        assert(forall|j: int| 0 <= j < i ==> next[j] == seen[j]);
        match slot {
            Some(TextureKind::Base) => {
                base = Some(i);
            },
            Some(TextureKind::Var) => {
                var = Some(i);
            },
            Some(TextureKind::Anm) => {
                anm = Some(i);
            },
            None => {},
        }
        i = i + 1;
    }
    assert(entries@.take(i as int) =~= entries@);
    match (base, var, anm) {
        (Some(base), Some(var), Some(anm)) => Ok((base, var, anm)),
        _ => Err(MetaError::MissingTextures {
            base: base.is_none(),
            var: var.is_none(),
            anm: anm.is_none(),
        }),
    }
}

/// Whether `path` is one of `entries`.
pub open spec fn is_entry(entries: Seq<String>, path: Seq<char>) -> bool {
    exists|i: int| 0 <= i < entries.len() && (#[trigger] entries[i])@ == path
}

/// Whether looking for texture sheets can end in this error.
pub open spec fn is_resolve_error(e: MetaError) -> bool {
    match e {
        MetaError::NoIdentifier => true,
        MetaError::NoParent => true,
        MetaError::MissingTextures { base, var, anm } => base || var || anm,
        _ => false,
    }
}

/// Whether `r` is what the search gives for a metadata file with this stem,
/// with or without a parent directory, and these entries in its directory:
/// the identifier is looked for first, then the parent, then the sheets, and
/// of several entries that stand for one sheet the last is taken.
pub open spec fn is_parsed(
    stem: Seq<char>,
    has_parent: bool,
    entries: Seq<Entry>,
    r: Result<(String, String, String), MetaError>,
) -> bool {
    match identifier_of(stem) {
        None => r == Err::<(String, String, String), MetaError>(MetaError::NoIdentifier),
        Some(id) => if !has_parent {
            r == Err::<(String, String, String), MetaError>(MetaError::NoParent)
        } else if missing(id, entries, TextureKind::Base) || missing(
            id,
            entries,
            TextureKind::Var,
        ) || missing(id, entries, TextureKind::Anm) {
            r == Err::<(String, String, String), MetaError>(
                MetaError::MissingTextures {
                    base: missing(id, entries, TextureKind::Base),
                    var: missing(id, entries, TextureKind::Var),
                    anm: missing(id, entries, TextureKind::Anm),
                },
            )
        } else {
            exists|base: int, var: int, anm: int|
                {
                    &&& #[trigger] last_for(id, entries, TextureKind::Base, base)
                    &&& #[trigger] last_for(id, entries, TextureKind::Var, var)
                    &&& #[trigger] last_for(id, entries, TextureKind::Anm, anm)
                    &&& r is Ok
                    &&& r->Ok_0.0@ == entries[base].path@
                    &&& r->Ok_0.1@ == entries[var].path@
                    &&& r->Ok_0.2@ == entries[anm].path@
                }
        },
    }
}

/// Whether `listed` holds one entry for each of `paths`, in the same order:
/// under the same path, and with the stem and the extension of that path.
pub open spec fn lists(listed: Seq<Entry>, paths: Seq<String>) -> bool {
    &&& listed.len() == paths.len()
    &&& forall|i: int|
        0 <= i < listed.len() ==> {
            &&& (#[trigger] listed[i]).path@ == paths[i]@
            &&& listed[i].stem@ == stem_text(paths[i]@)
            &&& listed[i].ext@ == ext_text(paths[i]@)
        }
}

/// Finds the texture sheets of a metadata file from the stem of its name,
/// whether it has a parent directory, and the entries of that directory. The
/// identifier is looked for first, then the parent, then the sheets, the last
/// entry that stands for a sheet being the one taken. The result holds the
/// paths of the base, var and anm sheets.
pub fn resolve_textures(stem: &str, has_parent: bool, entries: &Vec<Entry>) -> (r: Result<
    (String, String, String),
    MetaError,
>)
    ensures
        is_parsed(stem@, has_parent, entries@, r),
{
    let id = match identifier(stem) {
        Ok(id) => id,
        Err(e) => {
            return Err(e);
        },
    };
    if !has_parent {
        return Err(MetaError::NoParent);
    }
    match select_textures(id.as_str(), entries) {
        Ok((base, var, anm)) => {
            let found = (
                entries[base].path.clone(),
                entries[var].path.clone(),
                entries[anm].path.clone(),
            );
            assert(is_parsed(stem@, has_parent, entries@, Ok(found))) by {
                assert(last_for(id@, entries@, TextureKind::Base, base as int));
                assert(last_for(id@, entries@, TextureKind::Var, var as int));
                assert(last_for(id@, entries@, TextureKind::Anm, anm as int));
            }
            Ok(found)
        },
        Err(e) => Err(e),
    }
}

/// The directory to scan for the texture sheets of the metadata file at
/// `path`, or why there is none: the parent of the path, unless the stem of
/// the file holds no identifier, which is found out first, or the path has no
/// parent.
pub open spec fn texture_dir_of(path: Seq<char>) -> Result<Seq<char>, MetaError> {
    if identifier_of(stem_text(path)) is None {
        Err(MetaError::NoIdentifier)
    } else {
        match path_parent(path) {
            Some(dir) => Ok(dir),
            None => Err(MetaError::NoParent),
        }
    }
}

/// The directory to scan for the texture sheets of the metadata file at
/// `path`: its parent directory. There is none to scan where the stem of the
/// file holds no identifier, which is found out first, or where the path has
/// no parent.
pub fn texture_dir(path: &str) -> (r: Result<String, MetaError>)
    ensures
        match texture_dir_of(path@) {
            Ok(dir) => r is Ok && r->Ok_0@ == dir,
            Err(e) => r == Err::<String, MetaError>(e),
        },
{
    let stem = file_stem_str(path);
    match identifier(stem.as_str()) {
        Ok(_) => {},
        Err(e) => {
            return Err(e);
        },
    }
    match parent_of_path(path) {
        Some(dir) => Ok(dir),
        None => Err(MetaError::NoParent),
    }
}

/// Finds the base, var and anm texture sheets of the metadata file at `path`
/// among `entries`, the paths of the entries of its directory. The identifier
/// is taken from the stem of the metadata file, and each entry is taken by
/// the stem and the extension of its own path; the result is what
/// `resolve_textures` gives for them. Every path in the result is one of
/// `entries`.
pub fn parse_texture_paths(path: &str, entries: &Vec<String>) -> (r: Result<
    (String, String, String),
    MetaError,
>)
    ensures
        exists|listed: Seq<Entry>|
            lists(listed, entries@) && #[trigger] is_parsed(
                stem_text(path@),
                path_parent(path@) is Some,
                listed,
                r,
            ),
        match r {
            Ok((base, var, anm)) => {
                &&& is_entry(entries@, base@)
                &&& is_entry(entries@, var@)
                &&& is_entry(entries@, anm@)
            },
            Err(e) => is_resolve_error(e),
        },
        entries@.len() == 0 ==> r is Err,
{
    let stem = file_stem_str(path);
    let has_parent = parent_of_path(path).is_some();
    let mut listed: Vec<Entry> = Vec::new();
    let mut i: usize = 0;
    while i < entries.len()
        invariant
            i <= entries@.len(),
            listed@.len() == i,
            forall|k: int|
                0 <= k < i ==> {
                    &&& (#[trigger] listed@[k]).path@ == entries@[k]@
                    &&& listed@[k].stem@ == stem_text(entries@[k]@)
                    &&& listed@[k].ext@ == ext_text(entries@[k]@)
                },
        decreases entries@.len() - i,
    {
        let entry = entries[i].as_str();
        listed.push(
            Entry { path: entries[i].clone(), stem: file_stem_str(entry), ext: ext_str(entry) },
        );
        i = i + 1;
    }
    let r = resolve_textures(stem.as_str(), has_parent, &listed);
    assert(lists(listed@, entries@));
    assert(is_parsed(stem_text(path@), path_parent(path@) is Some, listed@, r));
    r
}

/// Whether `found` is the last entry that stands for `kind`, or nothing
/// where no entry does.
spec fn found_in(
    identifier: Seq<char>,
    entries: Seq<Entry>,
    kind: TextureKind,
    found: Option<usize>,
) -> bool {
    match found {
        Some(i) => last_for(identifier, entries, kind, i as int),
        None => missing(identifier, entries, kind),
    }
}

} // verus!
