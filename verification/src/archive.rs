//! Archive extractor: unpacks gzip-compressed tar and zip payloads held in
//! memory into a list of entries (relative path, bytes, directory flag).
//!
//! The container format is chosen by the download URL's suffix. Zip entry
//! names are validated before anything is written: the rule here is
//! deliberately stricter than the zip crate's own `enclosed_name` (it also
//! rejects interior `..` components), so every accepted name resolves to a
//! path strictly inside the target directory.

use vstd::prelude::*;
use vstd::string::StrSliceExecFns;
use vstd::string::StringExecFns;

use crate::errors::SFError;
use crate::platform::Os;
use crate::text::ends_with;

verus! {

/// One entry of an unpacked archive.
pub struct ArchiveEntry {
    /// Path of the entry relative to the archive root.
    pub path: String,
    /// File contents; empty for directories.
    pub data: Vec<u8>,
    /// Whether the entry is a directory.
    pub is_dir: bool,
}

/// The mathematical content of an entry: path, bytes, directory flag.
pub open spec fn entry_view(e: ArchiveEntry) -> (Seq<char>, Seq<u8>, bool) {
    (e.path@, e.data@, e.is_dir)
}

/// The mathematical content of an entry list.
pub open spec fn entries_view(es: Seq<ArchiveEntry>) -> Seq<(Seq<char>, Seq<u8>, bool)> {
    es.map_values(|e: ArchiveEntry| entry_view(e))
}

/// The entries of `data` read as a gzip-compressed tar archive, or `None`
/// when it cannot be read as one. The decoder is outside code; this name
/// stands for its result, which depends on `data` alone.
pub uninterp spec fn tar_gz_entries_of(data: Seq<u8>) -> Option<
    Seq<(Seq<char>, Seq<u8>, bool)>,
>;

/// The entries of `data` read as a zip archive, or `None` when it cannot
/// be read as one. The decoder is outside code; this name stands for its
/// result, which depends on `data` alone.
pub uninterp spec fn zip_entries_of(data: Seq<u8>) -> Option<Seq<(Seq<char>, Seq<u8>, bool)>>;

/// The container formats the extractor supports.
#[derive(Clone, Copy, PartialEq, Eq, Structural, Debug)]
pub enum ArchiveKind {
    /// Gzip-compressed tar.
    TarGz,
    /// Zip.
    Zip,
}

/// The container format a download URL announces, by its suffix.
pub open spec fn archive_kind_of(url: Seq<char>) -> Option<ArchiveKind> {
    if ends_with(url, ".tar.gz"@) {
        Option::Some(ArchiveKind::TarGz)
    } else if ends_with(url, ".zip"@) {
        Option::Some(ArchiveKind::Zip)
    } else {
        Option::None
    }
}

/// Chooses the container format from the download URL's suffix;
/// unsupported suffixes are a hard failure.
pub fn archive_kind_for_url(url: &str) -> (r: Result<ArchiveKind, SFError>)
    ensures
        match r {
            Ok(k) => archive_kind_of(url@) == Option::Some(k),
            Err(e) => archive_kind_of(url@) is None && e is InvalidArchiveType,
        },
{
    if crate::text::str_ends_with(url, ".tar.gz") {
        Ok(ArchiveKind::TarGz)
    } else if crate::text::str_ends_with(url, ".zip") {
        Ok(ArchiveKind::Zip)
    } else {
        Err(SFError::InvalidArchiveType)
    }
}

/// A `..` path component occurs in `name` at position `i`.
pub open spec fn dotdot_component_at(name: Seq<char>, i: int) -> bool {
    &&& 0 <= i
    &&& i + 2 <= name.len()
    &&& name[i] == '.'
    &&& name[i + 1] == '.'
    &&& (i == 0 || name[i - 1] == '/')
    &&& (i + 2 == name.len() || name[i + 2] == '/')
}

/// The library's rule for a zip entry name that resolves to a path
/// strictly inside the target directory: non-empty, relative, free of
/// NUL, backslashes and drive separators, and without any `..` component.
pub open spec fn safe_entry_name(name: Seq<char>) -> bool {
    &&& name.len() > 0
    &&& name[0] != '/'
    &&& forall|i: int| 0 <= i < name.len() ==> name[i] != '\\' && name[i] != ':' && name[i]
        != '\u{0}'
    &&& forall|i: int| !dotdot_component_at(name, i)
}

/// Checks one entry name against the safety rule.
pub fn entry_name_safe(name: &str) -> (r: bool)
    ensures
        r == safe_entry_name(name@),
{
    let n: usize = name.unicode_len();
    if n == 0 {
        return false;
    }
    if name.get_char(0) == '/' {
        return false;
    }
    let mut i: usize = 0;
    while i < n
        invariant
            n == name@.len(),
            0 <= i <= n,
            forall|j: int|
                0 <= j < i ==> name@[j] != '\\' && name@[j] != ':' && name@[j] != '\u{0}',
            forall|j: int| 0 <= j < i ==> !dotdot_component_at(name@, j),
        decreases n - i,
    {
        let c = name.get_char(i);
        if c == '\\' || c == ':' || c == '\u{0}' {
            return false;
        }
        if n - i >= 2 && name.get_char(i) == '.' && name.get_char(i + 1) == '.' {
            let left_ok = i == 0 || name.get_char(i - 1) == '/';
            let right_ok = i + 2 == n || name.get_char(i + 2) == '/';
            if left_ok && right_ok {
                assert(dotdot_component_at(name@, i as int));
                return false;
            }
        }
        i = i + 1;
    }
    assert forall|j: int| !dotdot_component_at(name@, j) by {
        if 0 <= j && j + 2 <= n {
            assert(j < i);
        }
    }
    true
}

/// Relies on `flate2::read::GzDecoder` and `tar::Archive`: reads `data`
/// as a gzip-compressed tar stream and lists its entries; `None` when the
/// stream cannot be decoded or an entry path is not text.
#[verifier::external_body]
fn untar_gz(data: &Vec<u8>) -> (r: Option<Vec<ArchiveEntry>>)
    ensures
        match r {
            Some(es) => tar_gz_entries_of(data@) == Option::Some(entries_view(es@)),
            None => tar_gz_entries_of(data@) is None,
        },
{
    let gz = flate2::read::GzDecoder::new(data.as_slice());
    let mut archive = tar::Archive::new(gz);
    let mut out: Vec<ArchiveEntry> = Vec::new();
    for entry in archive.entries().ok()? {
        let mut entry = entry.ok()?;
        let path = entry.path().ok()?.to_str()?.to_string();
        let is_dir = entry.header().entry_type().is_dir();
        let mut data = Vec::new();
        std::io::Read::read_to_end(&mut entry, &mut data).ok()?;
        out.push(ArchiveEntry { path, data, is_dir });
    }
    Some(out)
}

/// Relies on `zip::ZipArchive`: reads `data` as a zip archive and lists
/// its entries under their raw names; `None` when the archive cannot be
/// read.
#[verifier::external_body]
fn unzip(data: &Vec<u8>) -> (r: Option<Vec<ArchiveEntry>>)
    ensures
        match r {
            Some(es) => zip_entries_of(data@) == Option::Some(entries_view(es@)),
            None => zip_entries_of(data@) is None,
        },
{
    let mut archive = zip::ZipArchive::new(std::io::Cursor::new(data.as_slice())).ok()?;
    let mut out: Vec<ArchiveEntry> = Vec::new();
    for i in 0..archive.len() {
        let mut file = archive.by_index(i).ok()?;
        let path = file.name().to_string();
        let is_dir = file.is_dir();
        let mut data = Vec::new();
        std::io::Read::read_to_end(&mut file, &mut data).ok()?;
        out.push(ArchiveEntry { path, data, is_dir });
    }
    Some(out)
}

/// Every entry name in `es` obeys the safety rule.
pub open spec fn all_entries_safe(es: Seq<ArchiveEntry>) -> bool {
    forall|i: int| 0 <= i < es.len() ==> safe_entry_name(#[trigger] es[i].path@)
}

/// Every name in an entry-content list obeys the safety rule.
pub open spec fn all_names_safe(v: Seq<(Seq<char>, Seq<u8>, bool)>) -> bool {
    forall|i: int| 0 <= i < v.len() ==> safe_entry_name(#[trigger] v[i].0)
}

/// Unpacks `data` as `kind` into an entry list. Zip entry names are
/// validated; a name that cannot be safely resolved to a path fails the
/// whole extraction.
pub fn extract_archive(kind: ArchiveKind, data: &Vec<u8>) -> (r: Result<Vec<ArchiveEntry>, SFError>)
    ensures
        match r {
            Ok(es) => {
                &&& kind == ArchiveKind::TarGz ==> tar_gz_entries_of(data@) == Option::Some(
                    entries_view(es@),
                )
                &&& kind == ArchiveKind::Zip ==> zip_entries_of(data@) == Option::Some(
                    entries_view(es@),
                ) && all_entries_safe(es@)
            },
            Err(e) => match kind {
                ArchiveKind::TarGz => tar_gz_entries_of(data@) is None && (e matches SFError::Io(
                    m,
                ) && m@ == "could not read tar.gz archive"@),
                ArchiveKind::Zip => {
                    &&& (zip_entries_of(data@) is None ==> (e matches SFError::Io(m) && m@
                        == "could not read zip archive"@))
                    &&& (zip_entries_of(data@) matches Option::Some(v) ==> e is InvalidZipData
                        && !all_names_safe(v))
                },
            },
        },
{
    match kind {
        ArchiveKind::TarGz => {
            match untar_gz(data) {
                Some(es) => Ok(es),
                None => Err(SFError::Io("could not read tar.gz archive".to_owned())),
            }
        },
        ArchiveKind::Zip => {
            match unzip(data) {
                Some(es) => {
                    let n = es.len();
                    let mut i: usize = 0;
                    while i < n
                        invariant
                            kind == ArchiveKind::Zip,
                            n == es@.len(),
                            0 <= i <= n,
                            zip_entries_of(data@) == Option::Some(entries_view(es@)),
                            forall|j: int| 0 <= j < i ==> safe_entry_name(#[trigger] es@[j].path@),
                        decreases n - i,
                    {
                        if !entry_name_safe(es[i].path.as_str()) {
                            proof {
                                let v = entries_view(es@);
                                assert(v[i as int].0 == es@[i as int].path@);
                                assert(!safe_entry_name(v[i as int].0));
                                assert(!all_names_safe(v));
                            }
                            return Err(SFError::InvalidZipData);
                        }
                        i = i + 1;
                    }
                    Ok(es)
                },
                None => Err(SFError::Io("could not read zip archive".to_owned())),
            }
        },
    }
}

/// The archive's root directory, named from the release metadata.
pub open spec fn runtime_root_name(release_name: Seq<char>) -> Seq<char> {
    release_name + "-jre"@
}

/// Where the Java launcher must sit inside a well-shaped runtime
/// archive, accounting for the platform's home-directory nesting.
pub open spec fn runtime_exec_rel_path(release_name: Seq<char>, os: Os) -> Seq<char> {
    runtime_root_name(release_name) + "/"@ + (if os == Os::Mac {
        "Contents/Home/"@
    } else {
        Seq::<char>::empty()
    }) + "bin/"@ + (if os == Os::Windows {
        "javaw.exe"@
    } else {
        "java"@
    })
}

/// Confirms that the runtime's launcher executable exists inside the
/// expected layout, so a truncated or mis-shaped runtime is never
/// promoted.
pub fn validate_runtime_shape(entries: &Vec<ArchiveEntry>, release_name: &str, os: Os) -> (r: Result<
    (),
    SFError,
>)
    ensures
        r is Ok <==> exists|i: int|
            0 <= i < entries@.len() && (#[trigger] entries@[i].path@) == runtime_exec_rel_path(
                release_name@,
                os,
            ),
        r is Err ==> r == Result::<(), SFError>::Err(SFError::ExtractIncomplete),
{
    let mut expected = release_name.to_owned().concat("-jre").concat("/");
    if os == Os::Mac {
        expected = expected.concat("Contents/Home/");
    }
    expected = expected.concat("bin/").concat(crate::platform::get_java_exec_name(os));
    proof {
        assert(expected@ =~= runtime_exec_rel_path(release_name@, os));
    }
    let n = entries.len();
    let mut i: usize = 0;
    while i < n
        invariant
            n == entries@.len(),
            0 <= i <= n,
            expected@ == runtime_exec_rel_path(release_name@, os),
            forall|j: int| 0 <= j < i ==> (#[trigger] entries@[j].path@) != expected@,
        decreases n - i,
    {
        if crate::text::str_eq(entries[i].path.as_str(), expected.as_str()) {
            return Ok(());
        }
        i = i + 1;
    }
    Err(SFError::ExtractIncomplete)
}

} // verus!
