//! Choices made over catalog metadata: which file is primary, which image is
//! the cover, the names of derived files, and reading ids out of a model page
//! URL.
use vstd::prelude::*;
use vstd::string::StringExecFns;

use crate::text::{eq_ignore_ascii_case, equals_ignore_ascii_case};

verus! {

/// Where a platform a model page belongs to.
#[derive(Clone, Copy, Debug, PartialEq, Eq)]
pub enum Platform {
    Civitai,
    HuggingFace,
}

/// A field of catalog metadata that is missing or not what was expected; each
/// names the record kind and the field.
#[derive(Clone, Debug)]
pub enum CivitaiParseError {
    MissingRequiredField(String, String),
    UnregconizedField(String, String),
    InvalidFieldValue(String, String),
}

/// How the downloaded file that a cover image belongs to is named.
pub enum ModelVersionFileNamePresent {
    FileID(u64),
    FileName(String),
    PrimaryFile,
}

/// The parts of a version's file entry that the choices read.
#[derive(Clone, Debug)]
pub struct FileEntry {
    pub id: u64,
    pub name: String,
    /// The catalog's `primary` flag, where it gives one.
    pub is_primary: Option<bool>,
    /// The BLAKE3 hash the catalog declares, where it gives one.
    pub blake3_hash: Option<String>,
}

/// The model page URL does not name a model.
#[derive(Clone, Copy, Debug, PartialEq, Eq)]
pub enum ModelUrlError {
    MissingModelId,
}

/// The platform a host name belongs to (compared without regard to case).
pub open spec fn platform_of(host: Seq<char>) -> Option<Platform> {
    if eq_ignore_ascii_case(host, "civitai.com"@) {
        Some(Platform::Civitai)
    } else if eq_ignore_ascii_case(host, "huggingface.co"@) {
        Some(Platform::HuggingFace)
    } else {
        None
    }
}

/// The platform of a model page, from its host name.
pub fn detect_platform(host: &str) -> (r: Option<Platform>)
    ensures
        r == platform_of(host@),
{
    if equals_ignore_ascii_case(host, "civitai.com") {
        Some(Platform::Civitai)
    } else if equals_ignore_ascii_case(host, "huggingface.co") {
        Some(Platform::HuggingFace)
    } else {
        None
    }
}

pub open spec fn is_first_primary(files: Seq<FileEntry>, i: int) -> bool {
    &&& 0 <= i < files.len()
    &&& files[i].is_primary == Some(true)
    &&& forall|j: int| 0 <= j < i ==> files[j].is_primary != Some(true)
}

fn first_primary(files: &Vec<FileEntry>) -> (r: Option<usize>)
    ensures
        match r {
            Some(i) => is_first_primary(files@, i as int),
            None => forall|j: int| 0 <= j < files@.len() ==> files@[j].is_primary != Some(true),
        },
{
    let mut i: usize = 0;
    while i < files.len()
        invariant
            i <= files.len(),
            forall|j: int| 0 <= j < i ==> files@[j].is_primary != Some(true),
        decreases files.len() - i,
    {
        if matches!(files[i].is_primary, Some(true)) {
            return Some(i);
        }
        i = i + 1;
    }
    None
}

/// The primary file of a version: the first flagged primary, else the first
/// file; `None` for a version without files.
pub fn primary_file_id(files: &Vec<FileEntry>) -> (r: Option<u64>)
    ensures
        files@.len() == 0 ==> r is None,
        (exists|i: int| is_first_primary(files@, i)) ==> (r matches Some(id) && exists|i: int|
            is_first_primary(files@, i) && files@[i].id == id),
        files@.len() > 0 && (forall|j: int| 0 <= j < files@.len() ==> files@[j].is_primary
            != Some(true)) ==> r == Some(files@[0].id),
{
    match first_primary(files) {
        Some(i) => Some(files[i].id),
        None => {
            assert forall|k: int| !is_first_primary(files@, k) by {}
            if files.len() == 0 {
                None
            } else {
                Some(files[0].id)
            }
        },
    }
}

pub open spec fn is_first_with_id(files: Seq<FileEntry>, id: u64, i: int) -> bool {
    &&& 0 <= i < files.len()
    &&& files[i].id == id
    &&& forall|j: int| 0 <= j < i ==> files[j].id != id
}

/// The position of the first file with the given id.
pub fn find_file(files: &Vec<FileEntry>, id: u64) -> (r: Option<usize>)
    ensures
        match r {
            Some(i) => is_first_with_id(files@, id, i as int),
            None => forall|j: int| 0 <= j < files@.len() ==> files@[j].id != id,
        },
{
    let mut i: usize = 0;
    while i < files.len()
        invariant
            i <= files.len(),
            forall|j: int| 0 <= j < i ==> files@[j].id != id,
        decreases files.len() - i,
    {
        if files[i].id == id {
            return Some(i);
        }
        i = i + 1;
    }
    None
}

/// Whether a declared hash and a computed one name the same content: `false`
/// where the catalog declares none.
pub fn match_by_blake3(file: &FileEntry, blake3_str: &str) -> (r: bool)
    ensures
        r == match file.blake3_hash {
            Some(h) => eq_ignore_ascii_case(h@, blake3_str@),
            None => false,
        },
{
    match &file.blake3_hash {
        Some(h) => equals_ignore_ascii_case(h.as_str(), blake3_str),
        None => false,
    }
}

pub open spec fn is_cover_candidate(media_type: Seq<char>) -> bool {
    !eq_ignore_ascii_case(media_type, "video"@)
}

/// The first image that is not a video, by the media types of a version's
/// images in order.
pub fn pick_cover_image(media_types: &Vec<String>) -> (r: Option<usize>)
    ensures
        match r {
            Some(i) => 0 <= i < media_types@.len() && is_cover_candidate(media_types@[i as int]@)
                && forall|j: int| 0 <= j < i ==> !is_cover_candidate(media_types@[j]@),
            None => forall|j: int|
                0 <= j < media_types@.len() ==> !is_cover_candidate(media_types@[j]@),
        },
{
    let mut i: usize = 0;
    while i < media_types.len()
        invariant
            i <= media_types.len(),
            forall|j: int| 0 <= j < i ==> !is_cover_candidate(media_types@[j]@),
        decreases media_types.len() - i,
    {
        if !equals_ignore_ascii_case(media_types[i].as_str(), "video") {
            return Some(i);
        }
        i = i + 1;
    }
    None
}

/// The last path component: what follows the last `/`.
pub open spec fn last_component(path: Seq<char>) -> Seq<char> {
    if exists|i: int| 0 <= i < path.len() && path[i] == '/' {
        let i = choose|i: int|
            0 <= i < path.len() && path[i] == '/' && forall|j: int|
                i < j < path.len() ==> path[j] != '/';
        path.skip(i + 1)
    } else {
        path
    }
}

/// A file name without its extension: up to its last `.`, unless that dot
/// starts the name or there is none.
pub open spec fn stem_of(name: Seq<char>) -> Seq<char> {
    if exists|i: int| 0 < i < name.len() && name[i] == '.' {
        let i = choose|i: int|
            0 < i < name.len() && name[i] == '.' && forall|j: int| i < j < name.len() ==> name[j]
                != '.';
        name.take(i)
    } else {
        name
    }
}

/// The extension of a file name: after its last `.`, where that dot does not
/// start the name.
pub open spec fn extension_of(name: Seq<char>) -> Option<Seq<char>> {
    if exists|i: int| 0 < i < name.len() && name[i] == '.' {
        let i = choose|i: int|
            0 < i < name.len() && name[i] == '.' && forall|j: int| i < j < name.len() ==> name[j]
                != '.';
        Some(name.skip(i + 1))
    } else {
        None
    }
}

/// The position of the last occurrence of `c` at or after `from`.
fn last_index_of(s: &str, c: char, from: usize) -> (r: Option<usize>)
    ensures
        match r {
            Some(i) => from <= i < s@.len() && s@[i as int] == c && forall|j: int|
                i < j < s@.len() ==> s@[j] != c,
            None => forall|j: int| from <= j < s@.len() ==> s@[j] != c,
        },
{
    let n = s.unicode_len();
    let mut i: usize = n;
    while i > from
        invariant
            n == s@.len(),
            i <= n,
            forall|j: int| i <= j < n && j >= from ==> s@[j] != c,
        decreases i,
    {
        if s.get_char(i - 1) == c {
            return Some(i - 1);
        }
        i = i - 1;
    }
    None
}

fn last_component_of(path: &str) -> (r: String)
    ensures
        r@ == last_component(path@),
{
    match last_index_of(path, '/', 0) {
        Some(i) => {
            assert(path@[i as int] == '/');
            let n = path.unicode_len();
            path.substring_char(i + 1, n).to_owned()
        },
        None => path.to_owned(),
    }
}

/// Whether a path ends in a separator or in a `.` component, which naming
/// the file skips.
pub open spec fn ends_in_skipped(p: Seq<char>) -> bool {
    &&& p.len() > 0
    &&& (p.last() == '/' || (p.last() == '.' && (p.len() == 1 || p[p.len() - 2] == '/')))
}

/// The file name of a path: its last component once trailing separators and
/// `.` components are dropped; none for an empty path, a root, or a last
/// component `..`.
pub open spec fn path_file_name(p: Seq<char>) -> Option<Seq<char>>
    decreases p.len(),
{
    if p.len() == 0 {
        None
    } else if ends_in_skipped(p) {
        path_file_name(p.drop_last())
    } else if last_component(p) == seq!['.', '.'] {
        None
    } else {
        Some(last_component(p))
    }
}

/// The file name of a `/`-separated path (see `path_file_name`).
pub fn file_name_of(path: &str) -> (r: Option<String>)
    ensures
        match path_file_name(path@) {
            Some(n) => r matches Some(s) && s@ == n,
            None => r is None,
        },
{
    let n = path.unicode_len();
    let mut len: usize = n;
    assert(path@.take(n as int) == path@);
    loop
        invariant
            n == path@.len(),
            len <= n,
            path_file_name(path@.take(len as int)) == path_file_name(path@),
        ensures
            0 < len <= n,
            !ends_in_skipped(path@.take(len as int)),
            path_file_name(path@.take(len as int)) == path_file_name(path@),
        decreases len,
    {
        if len == 0 {
            return None;
        }
        let c = path.get_char(len - 1);
        let skip = if c == '/' {
            true
        } else if c == '.' {
            len == 1 || path.get_char(len - 2) == '/'
        } else {
            false
        };
        let ghost p = path@.take(len as int);
        assert(p.last() == c);
        assert(len >= 2 ==> p[p.len() - 2] == path@[len - 2]);
        if !skip {
            break;
        }
        assert(p.drop_last() == path@.take(len - 1));
        len = len - 1;
    }
    let prefix = path.substring_char(0, len);
    assert(prefix@ == path@.take(len as int));
    let last = last_component_of(prefix);
    if last.unicode_len() == 2 && last.as_str().get_char(0) == '.' && last.as_str().get_char(1) == '.' {
        assert(last@ =~= seq!['.', '.']);
        None
    } else {
        assert(last@ != seq!['.', '.']);
        Some(last)
    }
}

/// The stem of a file name (see `stem_of`).
pub fn file_stem(name: &str) -> (r: String)
    ensures
        r@ == stem_of(name@),
{
    match last_index_of(name, '.', 1) {
        Some(i) => {
            assert(name@[i as int] == '.');
            name.substring_char(0, i).to_owned()
        },
        None => name.to_owned(),
    }
}

/// The extension of a file name (see `extension_of`).
pub fn file_extension(name: &str) -> (r: Option<String>)
    ensures
        match extension_of(name@) {
            Some(e) => r matches Some(x) && x@ == e,
            None => r is None,
        },
{
    match last_index_of(name, '.', 1) {
        Some(i) => {
            assert(name@[i as int] == '.');
            let n = name.unicode_len();
            Some(name.substring_char(i + 1, n).to_owned())
        },
        None => None,
    }
}

/// Whether a path names a model file: its extension is `ckpt`,
/// `safetensors`, `pt` or `bin`, in any case.
pub open spec fn is_model_extension(ext: Seq<char>) -> bool {
    eq_ignore_ascii_case(ext, "ckpt"@) || eq_ignore_ascii_case(ext, "safetensors"@)
        || eq_ignore_ascii_case(ext, "pt"@) || eq_ignore_ascii_case(ext, "bin"@)
}

pub fn is_legal_model_file(file_path: &str) -> (r: bool)
    ensures
        r == match path_file_name(file_path@) {
            Some(name) => match extension_of(name) {
                Some(e) => is_model_extension(e),
                None => false,
            },
            None => false,
        },
{
    let name = match file_name_of(file_path) {
        Some(name) => name,
        None => {
            return false;
        },
    };
    match file_extension(name.as_str()) {
        None => false,
        Some(ext) => {
            let e = ext.as_str();
            equals_ignore_ascii_case(e, "ckpt") || equals_ignore_ascii_case(e, "safetensors")
                || equals_ignore_ascii_case(e, "pt") || equals_ignore_ascii_case(e, "bin")
        },
    }
}

/// The name of the cover image saved beside a downloaded file.
pub fn cover_image_filename(downloaded_file_stem: &str) -> (r: String)
    ensures
        r@ == downloaded_file_stem@ + ".cover.png"@,
{
    downloaded_file_stem.to_owned().concat(".cover.png")
}

/// The name of the file that holds a downloaded file's content hash.
pub fn hash_record_filename(downloaded_file_stem: &str) -> (r: String)
    ensures
        r@ == downloaded_file_stem@ + ".blake3"@,
{
    downloaded_file_stem.to_owned().concat(".blake3")
}

/// The name under which earlier versions saved the cover image; it is removed
/// before a new one is saved.
pub fn legacy_cover_image_filename(downloaded_file_stem: &str) -> (r: String)
    ensures
        r@ == downloaded_file_stem@ + ".cover.jpg"@,
{
    downloaded_file_stem.to_owned().concat(".cover.jpg")
}

/// The stem of the downloaded file a cover image belongs to.
pub fn cover_image_stem(present: &ModelVersionFileNamePresent, files: &Vec<FileEntry>) -> (r:
    Option<String>)
    ensures
        match present {
            ModelVersionFileNamePresent::FileID(id) => match r {
                Some(s) => exists|i: int|
                    is_first_with_id(files@, *id, i) && s@ == stem_of(files@[i].name@),
                None => forall|j: int| 0 <= j < files@.len() ==> files@[j].id != *id,
            },
            ModelVersionFileNamePresent::FileName(path) => match path_file_name(path@) {
                Some(name) => r matches Some(s) && s@ == stem_of(name),
                None => r is None,
            },
            ModelVersionFileNamePresent::PrimaryFile => match r {
                Some(s) => exists|i: int|
                    is_first_primary(files@, i) && s@ == stem_of(files@[i].name@),
                None => forall|j: int| 0 <= j < files@.len() ==> files@[j].is_primary != Some(true),
            },
        },
{
    match present {
        ModelVersionFileNamePresent::FileID(id) => match find_file(files, *id) {
            Some(i) => Some(file_stem(files[i].name.as_str())),
            None => None,
        },
        ModelVersionFileNamePresent::FileName(path) => {
            match file_name_of(path.as_str()) {
                Some(name) => Some(file_stem(name.as_str())),
                None => None,
            }
        },
        ModelVersionFileNamePresent::PrimaryFile => match first_primary(files) {
            Some(i) => Some(file_stem(files[i].name.as_str())),
            None => None,
        },
    }
}

pub open spec fn is_first_models_segment(segments: Seq<String>, i: int) -> bool {
    &&& 0 <= i < segments.len()
    &&& eq_ignore_ascii_case(segments[i]@, "models"@)
    &&& forall|j: int| 0 <= j < i ==> !eq_ignore_ascii_case(segments[j]@, "models"@)
}

pub open spec fn is_first_version_pair(query: Seq<(String, String)>, i: int) -> bool {
    &&& 0 <= i < query.len()
    &&& eq_ignore_ascii_case(query[i].0@, "modelVersionId"@)
    &&& forall|j: int| 0 <= j < i ==> !eq_ignore_ascii_case(query[j].0@, "modelVersionId"@)
}

/// The model id and, if given, the model version id named by a model page URL,
/// from its path segments and query pairs: the model id is the segment after
/// the first `models` segment, the version id the value of the first
/// `modelVersionId` pair (names compared without regard to case).
pub fn try_parse_civitai_model_url(segments: &Vec<String>, query: &Vec<(String, String)>) -> (r:
    Result<(String, Option<String>), ModelUrlError>)
    ensures
        match r {
            Ok((model_id, version_id)) => (exists|i: int|
                is_first_models_segment(segments@, i) && i + 1 < segments@.len() && model_id@
                    == segments@[i + 1]@) && match version_id {
                Some(v) => exists|k: int| is_first_version_pair(query@, k) && v@ == query@[k].1@,
                None => forall|k: int|
                    0 <= k < query@.len() ==> !eq_ignore_ascii_case(query@[k].0@, "modelVersionId"@),
            },
            Err(_) => forall|i: int|
                is_first_models_segment(segments@, i) ==> i + 1 >= segments@.len(),
        },
{
    let idx = match first_models_segment(segments) {
        Some(x) => x,
        None => {
            return Err(ModelUrlError::MissingModelId);
        },
    };
    if idx >= segments.len() - 1 {
        assert forall|k: int| is_first_models_segment(segments@, k) implies k + 1
            >= segments@.len() by {
            if k < idx {
                assert(eq_ignore_ascii_case(segments@[idx as int]@, "models"@));
            } else if k > idx {
                assert(eq_ignore_ascii_case(segments@[idx as int]@, "models"@));
            }
        }
        return Err(ModelUrlError::MissingModelId);
    }
    let model_id = segments[idx + 1].clone();
    match first_version_pair(query) {
        Some(k) => Ok((model_id, Some(query[k].1.clone()))),
        None => Ok((model_id, None)),
    }
}

fn first_models_segment(segments: &Vec<String>) -> (r: Option<usize>)
    ensures
        match r {
            Some(i) => is_first_models_segment(segments@, i as int),
            None => forall|j: int|
                0 <= j < segments@.len() ==> !eq_ignore_ascii_case(segments@[j]@, "models"@),
        },
{
    let mut i: usize = 0;
    while i < segments.len()
        invariant
            i <= segments.len(),
            forall|j: int| 0 <= j < i ==> !eq_ignore_ascii_case(segments@[j]@, "models"@),
        decreases segments.len() - i,
    {
        if equals_ignore_ascii_case(segments[i].as_str(), "models") {
            return Some(i);
        }
        i = i + 1;
    }
    None
}

fn first_version_pair(query: &Vec<(String, String)>) -> (r: Option<usize>)
    ensures
        match r {
            Some(k) => is_first_version_pair(query@, k as int),
            None => forall|j: int|
                0 <= j < query@.len() ==> !eq_ignore_ascii_case(query@[j].0@, "modelVersionId"@),
        },
{
    let mut k: usize = 0;
    while k < query.len()
        invariant
            k <= query.len(),
            forall|j: int| 0 <= j < k ==> !eq_ignore_ascii_case(query@[j].0@, "modelVersionId"@),
        decreases query.len() - k,
    {
        if equals_ignore_ascii_case(query[k].0.as_str(), "modelVersionId") {
            return Some(k);
        }
        k = k + 1;
    }
    None
}

/// The entry to preselect in a list of ids: the first holding the wanted id,
/// else the first entry.
pub fn default_choice_index(ids: &Vec<u64>, wanted: Option<u64>) -> (r: usize)
    ensures
        match wanted {
            Some(w) => if exists|i: int| 0 <= i < ids@.len() && ids@[i] == w {
                r < ids@.len() && ids@[r as int] == w && forall|j: int| 0 <= j < r ==> ids@[j] != w
            } else {
                r == 0
            },
            None => r == 0,
        },
{
    match wanted {
        None => 0,
        Some(w) => {
            let mut i: usize = 0;
            while i < ids.len()
                invariant
                    wanted == Some(w),
                    i <= ids.len(),
                    forall|j: int| 0 <= j < i ==> ids@[j] != w,
                decreases ids.len() - i,
            {
                if ids[i] == w {
                    return i;
                }
                i = i + 1;
            }
            0
        },
    }
}

} // verus!
