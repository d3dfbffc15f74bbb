//! Runtime acquirer: guarantees a verified managed-runtime directory
//! exists, orchestrating the platform resolver, downloader, checksummer,
//! archive extractor and atomic installer.
//!
//! The acquirer is a state machine. The embedding application performs
//! each commanded side effect (a directory probe, an HTTP request, a
//! file write) and reports the outcome back; every decision in between
//! is made here. Probing an already-installed runtime finishes the
//! machine at once, so a second acquisition performs zero network
//! requests; and nothing is ever stored or promoted whose re-read bytes
//! did not hash to the expected digest.

use vstd::prelude::*;
use vstd::string::StringExecFns;

use crate::archive::all_names_safe;
use crate::archive::archive_kind_of;
use crate::archive::entries_view;
use crate::archive::extract_archive;
use crate::archive::runtime_exec_rel_path;
use crate::archive::tar_gz_entries_of;
use crate::archive::validate_runtime_shape;
use crate::archive::zip_entries_of;
use crate::archive::ArchiveEntry;
use crate::archive::ArchiveKind;
use crate::checksum::digest_matches;
use crate::checksum::digests_match;
use crate::errors::ChecksumStage;
use crate::errors::MetaField;
use crate::errors::SFError;
use crate::metadata::runtime_release_from_json;
use crate::metadata::runtime_release_of;
use crate::platform::arch_identifier;
use crate::platform::os_identifier;
use crate::platform::Arch;
use crate::platform::Os;

verus! {

/// An HTTP status in the success range.
pub open spec fn status_success(status: u16) -> bool {
    200 <= status < 300
}

/// Whether `status` lies in the HTTP success range.
pub fn is_status_success(status: u16) -> (r: bool)
    ensures
        r == status_success(status),
{
    200 <= status && status < 300
}

/// The runtime metadata endpoint for the given platform identifiers.
pub open spec fn runtime_metadata_url_view(arch: Arch, os: Os) -> Seq<char> {
    "https://api.adoptium.net/v3/assets/latest/25/hotspot?architecture="@ + arch_identifier(arch)
        + "&image_type=jre&os="@ + os_identifier(os) + "&vendor=eclipse"@
}

/// Builds the runtime metadata endpoint URL.
pub fn runtime_metadata_url(arch: Arch, os: Os) -> (r: String)
    ensures
        r@ == runtime_metadata_url_view(arch, os),
{
    let r = "https://api.adoptium.net/v3/assets/latest/25/hotspot?architecture=".to_owned().concat(
        crate::platform::detect_architecture(arch),
    ).concat("&image_type=jre&os=").concat(crate::platform::detect_os(os)).concat(
        "&vendor=eclipse",
    );
    proof {
        assert(r@ =~= runtime_metadata_url_view(arch, os));
    }
    r
}

/// Name of the directory the managed runtime is installed under.
pub fn jvm_dir_name() -> (r: &'static str)
    ensures
        r@ == "jvm-25"@,
{
    "jvm-25"
}

/// An entry list contains the path `p`.
pub open spec fn names_contain(v: Seq<(Seq<char>, Seq<u8>, bool)>, p: Seq<char>) -> bool {
    exists|i: int| 0 <= i < v.len() && (#[trigger] v[i].0) == p
}

/// Where the runtime acquirer stands: which outcome it is waiting on, or
/// how it ended.
#[derive(Clone, Copy, PartialEq, Eq, Structural, Debug)]
pub enum RuntimeState {
    /// Waiting for the existence probe of the runtime directory.
    Probing,
    /// Waiting for the runtime metadata response.
    FetchingMetadata,
    /// Waiting for the download response head (status, content length).
    StartingDownload,
    /// Waiting for the downloaded body.
    Downloading,
    /// Waiting for the archive bytes to be written to the temp file.
    WritingTemp,
    /// Waiting for the temp file to be read back.
    ReadingBack,
    /// Waiting for the extracted tree to be written out.
    Storing,
    /// Waiting for the promote of the extracted tree.
    Promoting,
    /// A verified runtime directory exists.
    Completed,
    /// The acquisition failed; the error was reported in the action.
    Failed,
}

/// What the acquirer asks the embedding application to do next.
pub enum RuntimeAction {
    /// Fetch the metadata document at `url` and report status and body.
    FetchMetadata { url: String },
    /// Begin the download of `url` and report status and content length.
    StartDownload { url: String },
    /// Stream the response body and hand the bytes back.
    ReadBody,
    /// Write `data` to the temporary file.
    WriteTemp { data: Vec<u8> },
    /// Read the temporary file back and hand the bytes over.
    ReadTemp,
    /// Write the extracted entries under the temporary directory.
    StoreEntries { entries: Vec<ArchiveEntry> },
    /// Promote the temporary directory to the final runtime directory.
    Promote,
    /// The runtime is in place; nothing further to do.
    Finish,
    /// The acquisition failed with `error`; remove the temporary file
    /// when `remove_temp` is set.
    Fail { error: SFError, remove_temp: bool },
}

/// The machine that acquires the managed runtime.
pub struct RuntimeAcquirer {
    state: RuntimeState,
    os: Os,
    arch: Arch,
    checksum: Option<String>,
    url: Option<String>,
    release_name: Option<String>,
    verified: Ghost<Seq<u8>>,
}

impl RuntimeAcquirer {
    /// Which state the machine is in.
    pub closed spec fn state(self) -> RuntimeState {
        self.state
    }

    /// The platform the runtime is resolved for.
    pub closed spec fn os(self) -> Os {
        self.os
    }

    /// The architecture the runtime is resolved for.
    pub closed spec fn arch(self) -> Arch {
        self.arch
    }

    /// The expected digest, once the metadata has been read.
    pub closed spec fn expected_digest(self) -> Seq<char> {
        match self.checksum {
            Option::Some(c) => c@,
            Option::None => Seq::<char>::empty(),
        }
    }

    /// The download URL, once the metadata has been read.
    pub closed spec fn download_url(self) -> Seq<char> {
        match self.url {
            Option::Some(u) => u@,
            Option::None => Seq::<char>::empty(),
        }
    }

    /// The release name, once the metadata has been read.
    pub closed spec fn release_name(self) -> Seq<char> {
        match self.release_name {
            Option::Some(n) => n@,
            Option::None => Seq::<char>::empty(),
        }
    }

    /// The bytes whose disk-stage digest check succeeded.
    pub closed spec fn verified_bytes(self) -> Seq<u8> {
        self.verified@
    }

    /// Well-formedness: states past the metadata fetch know the artifact
    /// description, and states past the disk verification hold only
    /// bytes whose digest matched the expected one.
    pub closed spec fn wf(self) -> bool {
        &&& (match self.state {
            RuntimeState::StartingDownload | RuntimeState::Downloading | RuntimeState::WritingTemp
                | RuntimeState::ReadingBack | RuntimeState::Storing | RuntimeState::Promoting => {
                self.checksum is Some && self.url is Some && self.release_name is Some
            },
            _ => true,
        })
        &&& (match self.state {
            RuntimeState::Storing | RuntimeState::Promoting => digest_matches(
                self.expected_digest(),
                self.verified@,
            ),
            _ => true,
        })
    }

    /// A fresh acquirer for the given platform; the first step is to
    /// probe whether the runtime directory already exists.
    pub fn new(os: Os, arch: Arch) -> (r: RuntimeAcquirer)
        ensures
            r.state() == RuntimeState::Probing,
            r.os() == os,
            r.arch() == arch,
            r.wf(),
    {
        RuntimeAcquirer {
            state: RuntimeState::Probing,
            os,
            arch,
            checksum: None,
            url: None,
            release_name: None,
            verified: Ghost(Seq::empty()),
        }
    }

    /// Reports whether the runtime directory exists. An existing
    /// directory completes the acquisition at once: no metadata fetch
    /// and no download is ever commanded for it, so a second
    /// acquisition over an installed runtime performs zero network
    /// requests.
    pub fn on_probe(&mut self, dir_exists: bool) -> (r: RuntimeAction)
        requires
            old(self).state() == RuntimeState::Probing,
            old(self).wf(),
        ensures
            final(self).wf(),
            runtime_step_rel(*old(self), *final(self), (RuntimeEvent::Probe { dir_exists }), r),
            final(self).os() == old(self).os(),
            final(self).arch() == old(self).arch(),
            dir_exists ==> final(self).state() == RuntimeState::Completed && r is Finish,
            !dir_exists ==> final(self).state() == RuntimeState::FetchingMetadata && (
            r matches RuntimeAction::FetchMetadata { url } && url@ == runtime_metadata_url_view(
                old(self).arch(),
                old(self).os(),
            )),
    {
        if dir_exists {
            self.state = RuntimeState::Completed;
            RuntimeAction::Finish
        } else {
            self.state = RuntimeState::FetchingMetadata;
            RuntimeAction::FetchMetadata { url: runtime_metadata_url(self.arch, self.os) }
        }
    }

    /// Reports the metadata response. A non-success status or a document
    /// without the three required fields fails the acquisition with the
    /// matching error; otherwise the download of the named archive is
    /// commanded.
    pub fn on_metadata(&mut self, status: u16, body: &str) -> (r: RuntimeAction)
        requires
            old(self).state() == RuntimeState::FetchingMetadata,
            old(self).wf(),
        ensures
            final(self).wf(),
            runtime_step_rel(*old(self), *final(self), RuntimeEvent::Metadata, r),
            final(self).os() == old(self).os(),
            final(self).arch() == old(self).arch(),
            !status_success(status) ==> final(self).state() == RuntimeState::Failed && r
                == (RuntimeAction::Fail { error: SFError::DownloadFailed, remove_temp: false }),
            status_success(status) ==> match runtime_release_of(body@) {
                Option::None => final(self).state() == RuntimeState::Failed && r
                    == (RuntimeAction::Fail {
                    error: SFError::MetadataUnparseable,
                    remove_temp: false,
                }),
                Option::Some(t) => {
                    &&& (t.0 is None ==> final(self).state() == RuntimeState::Failed && r
                        == (RuntimeAction::Fail {
                        error: SFError::JsonFieldInvalid(MetaField::RuntimeChecksum),
                        remove_temp: false,
                    }))
                    &&& (t.0 is Some && t.1 is None ==> final(self).state() == RuntimeState::Failed
                        && r == (RuntimeAction::Fail {
                        error: SFError::JsonFieldInvalid(MetaField::RuntimeLink),
                        remove_temp: false,
                    }))
                    &&& (t.0 is Some && t.1 is Some && t.2 is None ==> final(self).state()
                        == RuntimeState::Failed && r == (RuntimeAction::Fail {
                        error: SFError::JsonFieldInvalid(MetaField::ReleaseName),
                        remove_temp: false,
                    }))
                    &&& (t.0 is Some && t.1 is Some && t.2 is Some ==> {
                        &&& final(self).state() == RuntimeState::StartingDownload
                        &&& Option::Some(final(self).expected_digest()) == t.0
                        &&& Option::Some(final(self).download_url()) == t.1
                        &&& Option::Some(final(self).release_name()) == t.2
                        &&& (r matches RuntimeAction::StartDownload { url } && Option::Some(url@)
                            == t.1)
                    })
                },
            },
    {
        if !is_status_success(status) {
            self.state = RuntimeState::Failed;
            return RuntimeAction::Fail { error: SFError::DownloadFailed, remove_temp: false };
        }
        match runtime_release_from_json(body) {
            Err(e) => {
                self.state = RuntimeState::Failed;
                RuntimeAction::Fail { error: e, remove_temp: false }
            },
            Ok(artifact) => {
                let url_copy = artifact.url.clone();
                self.checksum = Some(artifact.checksum);
                self.url = Some(artifact.url);
                self.release_name = Some(artifact.release_name);
                self.state = RuntimeState::StartingDownload;
                RuntimeAction::StartDownload { url: url_copy }
            },
        }
    }

    /// Reports the download response head. A non-success status fails
    /// the acquisition; a missing content length is refused before any
    /// body bytes are read.
    pub fn on_download_head(&mut self, status: u16, content_length: Option<u64>) -> (r:
        RuntimeAction)
        requires
            old(self).state() == RuntimeState::StartingDownload,
            old(self).wf(),
        ensures
            final(self).wf(),
            runtime_step_rel(*old(self), *final(self), RuntimeEvent::DownloadHead, r),
            final(self).os() == old(self).os(),
            final(self).arch() == old(self).arch(),
            final(self).expected_digest() == old(self).expected_digest(),
            final(self).download_url() == old(self).download_url(),
            final(self).release_name() == old(self).release_name(),
            !status_success(status) ==> final(self).state() == RuntimeState::Failed && r
                == (RuntimeAction::Fail { error: SFError::DownloadFailed, remove_temp: false }),
            status_success(status) && content_length is None ==> final(self).state()
                == RuntimeState::Failed && r == (RuntimeAction::Fail {
                error: SFError::NoContentLengthHeader,
                remove_temp: false,
            }),
            status_success(status) && content_length is Some ==> final(self).state()
                == RuntimeState::Downloading && r is ReadBody,
    {
        if !is_status_success(status) {
            self.state = RuntimeState::Failed;
            return RuntimeAction::Fail { error: SFError::DownloadFailed, remove_temp: false };
        }
        match content_length {
            None => {
                self.state = RuntimeState::Failed;
                RuntimeAction::Fail { error: SFError::NoContentLengthHeader, remove_temp: false }
            },
            Some(_) => {
                self.state = RuntimeState::Downloading;
                RuntimeAction::ReadBody
            },
        }
    }

    /// Reports the fully streamed body. The memory-stage digest check
    /// happens here, before anything touches the disk: mismatching
    /// bytes fail the acquisition and are never written anywhere.
    pub fn on_download_body(&mut self, body: Vec<u8>) -> (r: RuntimeAction)
        requires
            old(self).state() == RuntimeState::Downloading,
            old(self).wf(),
        ensures
            final(self).wf(),
            runtime_step_rel(*old(self), *final(self), RuntimeEvent::Body, r),
            final(self).os() == old(self).os(),
            final(self).arch() == old(self).arch(),
            final(self).expected_digest() == old(self).expected_digest(),
            final(self).download_url() == old(self).download_url(),
            final(self).release_name() == old(self).release_name(),
            !digest_matches(old(self).expected_digest(), body@) ==> final(self).state()
                == RuntimeState::Failed && r == (RuntimeAction::Fail {
                error: SFError::InvalidChecksum(ChecksumStage::Memory),
                remove_temp: false,
            }),
            digest_matches(old(self).expected_digest(), body@) ==> final(self).state()
                == RuntimeState::WritingTemp && (r matches RuntimeAction::WriteTemp { data } && data@
                == body@),
    {
        let digest = crate::checksum::checksum_hex(&body);
        let expected = match &self.checksum {
            Some(c) => c.as_str(),
            None => "",
        };
        proof {
            crate::checksum::lemma_hex_of_lower(crate::checksum::sha256_of(body@));
        }
        if !digests_match(expected, digest.as_str()) {
            self.state = RuntimeState::Failed;
            RuntimeAction::Fail {
                error: SFError::InvalidChecksum(ChecksumStage::Memory),
                remove_temp: false,
            }
        } else {
            self.state = RuntimeState::WritingTemp;
            RuntimeAction::WriteTemp { data: body }
        }
    }

    /// Reports the outcome of writing the archive to the temporary
    /// file.
    pub fn on_temp_written(&mut self, write_error: Option<String>) -> (r: RuntimeAction)
        requires
            old(self).state() == RuntimeState::WritingTemp,
            old(self).wf(),
        ensures
            final(self).wf(),
            runtime_step_rel(*old(self), *final(self), RuntimeEvent::TempWritten, r),
            final(self).os() == old(self).os(),
            final(self).arch() == old(self).arch(),
            final(self).expected_digest() == old(self).expected_digest(),
            final(self).download_url() == old(self).download_url(),
            final(self).release_name() == old(self).release_name(),
            match write_error {
                Option::Some(m) => final(self).state() == RuntimeState::Failed && (
                r matches RuntimeAction::Fail { error, remove_temp } && (error matches SFError::Io(
                    m2,
                ) && m2@ == m@) && remove_temp),
                Option::None => final(self).state() == RuntimeState::ReadingBack && r is ReadTemp,
            },
    {
        match write_error {
            Some(m) => {
                self.state = RuntimeState::Failed;
                RuntimeAction::Fail { error: SFError::Io(m), remove_temp: true }
            },
            None => {
                self.state = RuntimeState::ReadingBack;
                RuntimeAction::ReadTemp
            },
        }
    }

    /// Reports the bytes read back from the temporary file. The
    /// disk-stage digest check, the extraction and the shape validation
    /// all happen here; only an archive whose re-read bytes hash to the
    /// expected digest, whose entry names are safe and whose layout
    /// holds the launcher executable is ever stored.
    pub fn on_temp_read(&mut self, read: Result<Vec<u8>, String>) -> (r: RuntimeAction)
        requires
            old(self).state() == RuntimeState::ReadingBack,
            old(self).wf(),
        ensures
            final(self).wf(),
            runtime_step_rel(*old(self), *final(self), RuntimeEvent::TempRead, r),
            final(self).os() == old(self).os(),
            final(self).arch() == old(self).arch(),
            final(self).expected_digest() == old(self).expected_digest(),
            final(self).download_url() == old(self).download_url(),
            final(self).release_name() == old(self).release_name(),
            match read {
                Err(m) => final(self).state() == RuntimeState::Failed && (
                r matches RuntimeAction::Fail { error, remove_temp } && (error matches SFError::Io(
                    m2,
                ) && m2@ == m@) && remove_temp),
                Ok(bytes) => {
                    &&& (!digest_matches(old(self).expected_digest(), bytes@)
                        ==> final(self).state() == RuntimeState::Failed && r == (RuntimeAction::Fail {
                        error: SFError::InvalidChecksum(ChecksumStage::Disk),
                        remove_temp: true,
                    }))
                    &&& (digest_matches(old(self).expected_digest(), bytes@)
                        ==> runtime_read_outcome(*old(self), *final(self), bytes@, r))
                },
            },
    {
        let bytes = match read {
            Err(m) => {
                self.state = RuntimeState::Failed;
                return RuntimeAction::Fail { error: SFError::Io(m), remove_temp: true };
            },
            Ok(bytes) => bytes,
        };
        let digest = crate::checksum::checksum_hex(&bytes);
        let expected = match &self.checksum {
            Some(c) => c.as_str(),
            None => "",
        };
        proof {
            crate::checksum::lemma_hex_of_lower(crate::checksum::sha256_of(bytes@));
        }
        if !digests_match(expected, digest.as_str()) {
            self.state = RuntimeState::Failed;
            return RuntimeAction::Fail {
                error: SFError::InvalidChecksum(ChecksumStage::Disk),
                remove_temp: true,
            };
        }
        let url = match &self.url {
            Some(u) => u.as_str(),
            None => "",
        };
        let kind = match crate::archive::archive_kind_for_url(url) {
            Err(e) => {
                self.state = RuntimeState::Failed;
                return RuntimeAction::Fail { error: e, remove_temp: true };
            },
            Ok(kind) => kind,
        };
        let entries = match extract_archive(kind, &bytes) {
            Err(e) => {
                self.state = RuntimeState::Failed;
                return RuntimeAction::Fail { error: e, remove_temp: true };
            },
            Ok(entries) => entries,
        };
        let release_name = match &self.release_name {
            Some(n) => n.as_str(),
            None => "",
        };
        match validate_runtime_shape(&entries, release_name, self.os) {
            Err(e) => {
                self.state = RuntimeState::Failed;
                return RuntimeAction::Fail { error: e, remove_temp: true };
            },
            Ok(()) => {},
        }
        proof {
            lemma_names_contain(
                entries@,
                runtime_exec_rel_path(self.release_name(), self.os),
            );
        }
        self.verified = Ghost(bytes@);
        self.state = RuntimeState::Storing;
        RuntimeAction::StoreEntries { entries }
    }

    /// Reports the outcome of writing the extracted tree out.
    pub fn on_stored(&mut self, store_error: Option<String>) -> (r: RuntimeAction)
        requires
            old(self).state() == RuntimeState::Storing,
            old(self).wf(),
        ensures
            final(self).wf(),
            runtime_step_rel(*old(self), *final(self), RuntimeEvent::Stored, r),
            match store_error {
                Option::Some(m) => final(self).state() == RuntimeState::Failed && (
                r matches RuntimeAction::Fail { error, remove_temp } && (error matches SFError::Io(
                    m2,
                ) && m2@ == m@) && remove_temp),
                Option::None => final(self).state() == RuntimeState::Promoting && r is Promote,
            },
    {
        match store_error {
            Some(m) => {
                self.state = RuntimeState::Failed;
                RuntimeAction::Fail { error: SFError::Io(m), remove_temp: true }
            },
            None => {
                self.state = RuntimeState::Promoting;
                RuntimeAction::Promote
            },
        }
    }

    /// Reports the outcome of the promote of the extracted tree.
    pub fn on_promoted(&mut self, promote_error: Option<String>) -> (r: RuntimeAction)
        requires
            old(self).state() == RuntimeState::Promoting,
            old(self).wf(),
        ensures
            final(self).wf(),
            runtime_step_rel(*old(self), *final(self), RuntimeEvent::Promoted, r),
            match promote_error {
                Option::Some(m) => final(self).state() == RuntimeState::Failed && (
                r matches RuntimeAction::Fail { error, remove_temp } && (error matches SFError::Io(
                    m2,
                ) && m2@ == m@) && remove_temp),
                Option::None => final(self).state() == RuntimeState::Completed && r is Finish,
            },
    {
        match promote_error {
            Some(m) => {
                self.state = RuntimeState::Failed;
                RuntimeAction::Fail { error: SFError::Io(m), remove_temp: true }
            },
            None => {
                self.state = RuntimeState::Completed;
                RuntimeAction::Finish
            },
        }
    }
}

/// What a successful disk-stage verification leads to: either a failure
/// whose cause lies in the archive itself, or the stored entries of a
/// well-shaped archive.
pub open spec fn runtime_read_outcome(
    pre: RuntimeAcquirer,
    post: RuntimeAcquirer,
    bytes: Seq<u8>,
    r: RuntimeAction,
) -> bool {
    match archive_kind_of(pre.download_url()) {
        Option::None => post.state() == RuntimeState::Failed && r == (RuntimeAction::Fail {
            error: SFError::InvalidArchiveType,
            remove_temp: true,
        }),
        Option::Some(kind) => {
            let parsed = if kind == ArchiveKind::TarGz {
                tar_gz_entries_of(bytes)
            } else {
                zip_entries_of(bytes)
            };
            match parsed {
                Option::None => post.state() == RuntimeState::Failed && (
                r matches RuntimeAction::Fail { error, remove_temp } && error is Io && remove_temp),
                Option::Some(v) => {
                    if kind == ArchiveKind::Zip && !all_names_safe(v) {
                        post.state() == RuntimeState::Failed && r == (RuntimeAction::Fail {
                            error: SFError::InvalidZipData,
                            remove_temp: true,
                        })
                    } else if !names_contain(
                        v,
                        runtime_exec_rel_path(pre.release_name(), pre.os()),
                    ) {
                        post.state() == RuntimeState::Failed && r == (RuntimeAction::Fail {
                            error: SFError::ExtractIncomplete,
                            remove_temp: true,
                        })
                    } else {
                        &&& post.state() == RuntimeState::Storing
                        &&& post.verified_bytes() == bytes
                        &&& (r matches RuntimeAction::StoreEntries { entries } && entries_view(
                            entries@,
                        ) == v)
                    }
                },
            }
        },
    }
}

/// Bridges an entry list and its mathematical content: the list holds a
/// path exactly when its content does.
proof fn lemma_names_contain(es: Seq<ArchiveEntry>, p: Seq<char>)
    ensures
        names_contain(entries_view(es), p) <==> exists|i: int|
            0 <= i < es.len() && (#[trigger] es[i].path@) == p,
{
    if names_contain(entries_view(es), p) {
        let i = choose|i: int| 0 <= i < entries_view(es).len() && (#[trigger] entries_view(es)[i].0)
            == p;
        assert(es[i].path@ == p);
    }
    if exists|i: int| 0 <= i < es.len() && (#[trigger] es[i].path@) == p {
        let i = choose|i: int| 0 <= i < es.len() && (#[trigger] es[i].path@) == p;
        assert(entries_view(es)[i].0 == p);
        assert(names_contain(entries_view(es), p));
    }
}

/// Corruption detection: an acquirer that has reached the storing or
/// promoting stage holds only bytes whose digest matches the expected
/// one, so a digest mutated before the disk-stage verification can
/// never lead to an install.
pub proof fn lemma_runtime_installs_only_verified(m: RuntimeAcquirer)
    requires
        m.wf(),
        m.state() == RuntimeState::Storing || m.state() == RuntimeState::Promoting,
    ensures
        digest_matches(m.expected_digest(), m.verified_bytes()),
{
}

/// The outcomes the embedding application can report to the runtime
/// acquirer, named by step; the abstract step relation below is stated
/// over these.
#[derive(Clone, Copy, PartialEq, Eq, Structural, Debug)]
pub enum RuntimeEvent {
    /// The existence probe of the runtime directory.
    Probe { dir_exists: bool },
    /// The metadata response arrived.
    Metadata,
    /// The download response head arrived.
    DownloadHead,
    /// The response body was streamed.
    Body,
    /// The temp write finished.
    TempWritten,
    /// The temp file was read back.
    TempRead,
    /// The extracted tree was written out.
    Stored,
    /// The promote finished.
    Promoted,
}

/// An action that reaches the network.
pub open spec fn runtime_action_is_network(a: RuntimeAction) -> bool {
    a is FetchMetadata || a is StartDownload || a is ReadBody
}

/// The abstract step relation of the runtime acquirer: which states
/// accept which events, where they lead, and what kind of action each
/// step commands. Every handler's contract implies it.
pub open spec fn runtime_step_rel(
    pre: RuntimeAcquirer,
    post: RuntimeAcquirer,
    e: RuntimeEvent,
    a: RuntimeAction,
) -> bool {
    match e {
        RuntimeEvent::Probe { dir_exists } => {
            &&& pre.state() == RuntimeState::Probing
            &&& if dir_exists {
                post.state() == RuntimeState::Completed && a is Finish
            } else {
                post.state() == RuntimeState::FetchingMetadata && a is FetchMetadata
            }
        },
        RuntimeEvent::Metadata => pre.state() == RuntimeState::FetchingMetadata && ((post.state()
            == RuntimeState::StartingDownload && a is StartDownload) || (post.state()
            == RuntimeState::Failed && a is Fail)),
        RuntimeEvent::DownloadHead => pre.state() == RuntimeState::StartingDownload && ((
        post.state() == RuntimeState::Downloading && a is ReadBody) || (post.state()
            == RuntimeState::Failed && a is Fail)),
        RuntimeEvent::Body => pre.state() == RuntimeState::Downloading && ((post.state()
            == RuntimeState::WritingTemp && a is WriteTemp) || (post.state()
            == RuntimeState::Failed && a is Fail)),
        RuntimeEvent::TempWritten => pre.state() == RuntimeState::WritingTemp && ((post.state()
            == RuntimeState::ReadingBack && a is ReadTemp) || (post.state() == RuntimeState::Failed
            && a is Fail)),
        RuntimeEvent::TempRead => pre.state() == RuntimeState::ReadingBack && ((post.state()
            == RuntimeState::Storing && a is StoreEntries) || (post.state()
            == RuntimeState::Failed && a is Fail)),
        RuntimeEvent::Stored => pre.state() == RuntimeState::Storing && ((post.state()
            == RuntimeState::Promoting && a is Promote) || (post.state() == RuntimeState::Failed
            && a is Fail)),
        RuntimeEvent::Promoted => pre.state() == RuntimeState::Promoting && ((post.state()
            == RuntimeState::Completed && a is Finish) || (post.state() == RuntimeState::Failed
            && a is Fail)),
    }
}

/// A run of the runtime acquirer: `states` visits one more state than
/// there are events, and each step obeys the abstract step relation.
pub open spec fn runtime_run(
    states: Seq<RuntimeAcquirer>,
    events: Seq<RuntimeEvent>,
    actions: Seq<RuntimeAction>,
) -> bool {
    &&& states.len() == events.len() + 1
    &&& actions.len() == events.len()
    &&& forall|i: int|
        0 <= i < events.len() ==> runtime_step_rel(
            states[i],
            states[i + 1],
            #[trigger] events[i],
            actions[i],
        )
}

/// Idempotence: a run of the runtime acquirer whose probe reports an
/// already-installed runtime ends right there — the run has exactly
/// that one step, and no network action is ever commanded.
pub proof fn lemma_runtime_idempotent(
    states: Seq<RuntimeAcquirer>,
    events: Seq<RuntimeEvent>,
    actions: Seq<RuntimeAction>,
)
    requires
        runtime_run(states, events, actions),
        events.len() >= 1,
        states[0].state() == RuntimeState::Probing,
        events[0] == (RuntimeEvent::Probe { dir_exists: true }),
    ensures
        events.len() == 1,
        forall|i: int| 0 <= i < actions.len() ==> !runtime_action_is_network(#[trigger] actions[i]),
{
    assert(runtime_step_rel(states[0], states[1], events[0], actions[0]));
    assert(states[1].state() == RuntimeState::Completed);
    if events.len() > 1 {
        assert(runtime_step_rel(states[1], states[2], events[1], actions[1]));
        assert(false);
    }
    assert(actions[0] is Finish);
}

/// File name of the application artifact for `version`.
pub open spec fn sf_jar_name_view(version: Seq<char>) -> Seq<char> {
    "SoulFireDedicated-"@ + version + ".jar"@
}

/// Download URL of the application artifact for `version`.
pub open spec fn sf_download_url_view(version: Seq<char>) -> Seq<char> {
    "https://github.com/AlexProgrammerDE/SoulFire/releases/download/"@ + version + "/"@
        + sf_jar_name_view(version)
}

/// Release metadata endpoint for `version`, which carries the expected
/// digest of the artifact.
pub open spec fn sf_release_meta_url_view(version: Seq<char>) -> Seq<char> {
    "https://api.github.com/repos/AlexProgrammerDE/SoulFire/releases/tags/"@ + version
}

/// Builds the artifact file name for `version`.
pub fn sf_jar_name(version: &str) -> (r: String)
    ensures
        r@ == sf_jar_name_view(version@),
{
    let r = "SoulFireDedicated-".to_owned().concat(version).concat(".jar");
    proof {
        assert(r@ =~= sf_jar_name_view(version@));
    }
    r
}

/// The digest field of the first asset named `name`, searching front to
/// back: `None` when no asset matches, `Some(None)` when the matching
/// asset has no digest field.
pub open spec fn find_asset_digest_view(
    v: Seq<(Option<Seq<char>>, Option<Seq<char>>)>,
    name: Seq<char>,
) -> Option<Option<Seq<char>>>
    decreases v.len(),
{
    if v.len() == 0 {
        Option::None
    } else if v[0].0 == Option::Some(name) {
        Option::Some(v[0].1)
    } else {
        find_asset_digest_view(v.drop_first(), name)
    }
}

/// Bridges the asset search over parsed records and the search over
/// their mathematical content.
proof fn lemma_find_asset_bridge(assets: Seq<crate::metadata::AssetMeta>, name: Seq<char>)
    ensures
        match crate::metadata::find_asset(assets, name) {
            Option::None => find_asset_digest_view(crate::metadata::assets_view(assets), name)
                is None,
            Option::Some(a) => find_asset_digest_view(crate::metadata::assets_view(assets), name)
                == Option::Some(crate::metadata::opt_str_view(a.digest)),
        },
    decreases assets.len(),
{
    let v = crate::metadata::assets_view(assets);
    if assets.len() > 0 {
        assert(v[0] == (
            crate::metadata::opt_str_view(assets[0].name),
            crate::metadata::opt_str_view(assets[0].digest),
        ));
        if crate::metadata::asset_matches(assets[0], name) {
            assert(v[0].0 == Option::Some(name));
        } else {
            assert(v[0].0 != Option::Some(name));
            assert(v.drop_first() =~= crate::metadata::assets_view(assets.drop_first()));
            lemma_find_asset_bridge(assets.drop_first(), name);
        }
    }
}

/// Where the application acquirer stands.
#[derive(Clone, Copy, PartialEq, Eq, Structural, Debug)]
pub enum AppState {
    /// Not started yet.
    Init,
    /// Waiting for the release metadata that carries the expected
    /// digest.
    FetchingDigest,
    /// Waiting for the probe of the locally present artifact file.
    CheckingLocal,
    /// Waiting for the download response head.
    StartingDownload,
    /// Waiting for the downloaded body.
    Downloading,
    /// Waiting for the artifact bytes to be written to the temp file.
    WritingTemp,
    /// Waiting for the temp file to be read back.
    ReadingBack,
    /// Waiting for the promote of the temp file.
    Promoting,
    /// A verified artifact file exists.
    Completed,
    /// The acquisition failed; the error was reported in the action.
    Failed,
}

/// What the application acquirer asks the embedding application to do
/// next.
pub enum AppAction {
    /// Fetch the release metadata at `url` and report status and body.
    FetchDigest { url: String },
    /// Read the local artifact file if it exists and hand its bytes
    /// over.
    CheckLocal,
    /// Begin the download of `url` and report status and content
    /// length.
    StartDownload { url: String },
    /// Stream the response body and hand the bytes back.
    ReadBody,
    /// Write `data` to the temporary file.
    WriteTemp { data: Vec<u8> },
    /// Read the temporary file back and hand the bytes over.
    ReadTemp,
    /// Promote the temporary file to the final artifact path.
    Promote,
    /// The artifact is in place; nothing further to do.
    Finish,
    /// The acquisition failed with `error`; remove the temporary file
    /// when `remove_temp` is set.
    Fail { error: SFError, remove_temp: bool },
}

/// The machine that acquires the application artifact. The expected
/// digest is always fetched fresh from the release metadata, so a
/// locally present file of the right name but wrong content is always
/// detected and re-downloaded.
pub struct AppAcquirer {
    state: AppState,
    jar_name: String,
    url: String,
    meta_url: String,
    expected: Option<String>,
    verified: Ghost<Seq<u8>>,
}

impl AppAcquirer {
    /// Which state the machine is in.
    pub closed spec fn state(self) -> AppState {
        self.state
    }

    /// The artifact's file name.
    pub closed spec fn jar_name(self) -> Seq<char> {
        self.jar_name@
    }

    /// The artifact's download URL.
    pub closed spec fn download_url(self) -> Seq<char> {
        self.url@
    }

    /// The expected digest, once the release metadata has been read.
    pub closed spec fn expected_digest(self) -> Seq<char> {
        match self.expected {
            Option::Some(c) => c@,
            Option::None => Seq::<char>::empty(),
        }
    }

    /// The bytes whose disk-stage digest check succeeded.
    pub closed spec fn verified_bytes(self) -> Seq<u8> {
        self.verified@
    }

    /// Well-formedness: states past the digest fetch know the expected
    /// digest, and the promoting state holds only bytes whose digest
    /// matched it.
    pub closed spec fn wf(self) -> bool {
        &&& (match self.state {
            AppState::CheckingLocal | AppState::StartingDownload | AppState::Downloading
                | AppState::WritingTemp | AppState::ReadingBack | AppState::Promoting => self.expected
                is Some,
            _ => true,
        })
        &&& (match self.state {
            AppState::Promoting => digest_matches(self.expected_digest(), self.verified@),
            _ => true,
        })
    }

    /// A fresh acquirer for the artifact of `version`.
    pub fn new(version: &str) -> (r: AppAcquirer)
        ensures
            r.state() == AppState::Init,
            r.jar_name() == sf_jar_name_view(version@),
            r.download_url() == sf_download_url_view(version@),
            r.wf(),
    {
        let jar_name = sf_jar_name(version);
        let url = "https://github.com/AlexProgrammerDE/SoulFire/releases/download/"
            .to_owned().concat(version).concat("/").concat(jar_name.as_str());
        let meta_url = "https://api.github.com/repos/AlexProgrammerDE/SoulFire/releases/tags/"
            .to_owned().concat(version);
        proof {
            assert(url@ =~= sf_download_url_view(version@));
        }
        AppAcquirer {
            state: AppState::Init,
            jar_name,
            url,
            meta_url,
            expected: None,
            verified: Ghost(Seq::empty()),
        }
    }

    /// Begins the acquisition: the expected digest is fetched first, and
    /// always fresh.
    pub fn start(&mut self) -> (r: AppAction)
        requires
            old(self).state() == AppState::Init,
            old(self).wf(),
        ensures
            final(self).wf(),
            final(self).jar_name() == old(self).jar_name(),
            final(self).download_url() == old(self).download_url(),
            final(self).state() == AppState::FetchingDigest,
            app_step_rel(*old(self), *final(self), AppEvent::Started, r),
            r matches AppAction::FetchDigest { url } && url@ == old(self).release_meta_url(),
    {
        self.state = AppState::FetchingDigest;
        AppAction::FetchDigest { url: self.meta_url.clone() }
    }

    /// The release metadata endpoint the expected digest comes from.
    pub closed spec fn release_meta_url(self) -> Seq<char> {
        self.meta_url@
    }

    /// Reports the release metadata response. The asset whose name
    /// matches the artifact file name supplies the expected digest; an
    /// optional `sha256:` prefix on it is accepted.
    pub fn on_digest_metadata(&mut self, status: u16, body: &str) -> (r: AppAction)
        requires
            old(self).state() == AppState::FetchingDigest,
            old(self).wf(),
        ensures
            final(self).wf(),
            app_step_rel(*old(self), *final(self), AppEvent::DigestMetadata, r),
            final(self).jar_name() == old(self).jar_name(),
            final(self).download_url() == old(self).download_url(),
            !status_success(status) ==> final(self).state() == AppState::Failed && r
                == (AppAction::Fail { error: SFError::DownloadFailed, remove_temp: false }),
            status_success(status) ==> match crate::metadata::release_assets_of(body@) {
                Option::None => final(self).state() == AppState::Failed && r == (AppAction::Fail {
                    error: SFError::MetadataUnparseable,
                    remove_temp: false,
                }),
                Option::Some(v) => match find_asset_digest_view(v, old(self).jar_name()) {
                    Option::None => final(self).state() == AppState::Failed && r
                        == (AppAction::Fail {
                        error: SFError::JsonFieldInvalid(MetaField::AssetEntry),
                        remove_temp: false,
                    }),
                    Option::Some(Option::None) => final(self).state() == AppState::Failed && r
                        == (AppAction::Fail {
                        error: SFError::JsonFieldInvalid(MetaField::AssetDigest),
                        remove_temp: false,
                    }),
                    Option::Some(Option::Some(d)) => final(self).state() == AppState::CheckingLocal
                        && final(self).expected_digest() == crate::metadata::strip_sha256_prefix(d)
                        && r is CheckLocal,
                },
            },
    {
        if !is_status_success(status) {
            self.state = AppState::Failed;
            return AppAction::Fail { error: SFError::DownloadFailed, remove_temp: false };
        }
        match crate::metadata::parse_release_assets(body) {
            None => {
                self.state = AppState::Failed;
                AppAction::Fail { error: SFError::MetadataUnparseable, remove_temp: false }
            },
            Some(assets) => {
                proof {
                    lemma_find_asset_bridge(assets@, self.jar_name@);
                }
                match crate::metadata::find_asset_digest(&assets, self.jar_name.as_str()) {
                    Err(e) => {
                        self.state = AppState::Failed;
                        AppAction::Fail { error: e, remove_temp: false }
                    },
                    Ok(digest) => {
                        self.expected = Some(digest);
                        self.state = AppState::CheckingLocal;
                        AppAction::CheckLocal
                    },
                }
            },
        }
    }

    /// Reports the locally present artifact bytes, or `None` when no
    /// file of that name exists. A present file matching the expected
    /// digest completes the acquisition at once: no download is ever
    /// commanded for it. A missing or mismatching file is
    /// (re-)downloaded.
    pub fn on_local(&mut self, local: Option<Vec<u8>>) -> (r: AppAction)
        requires
            old(self).state() == AppState::CheckingLocal,
            old(self).wf(),
        ensures
            final(self).wf(),
            app_step_rel(
                *old(self),
                *final(self),
                (AppEvent::Local {
                    matched: match local {
                        Option::Some(bytes) => digest_matches(
                            old(self).expected_digest(),
                            bytes@,
                        ),
                        Option::None => false,
                    },
                }),
                r,
            ),
            final(self).jar_name() == old(self).jar_name(),
            final(self).download_url() == old(self).download_url(),
            final(self).expected_digest() == old(self).expected_digest(),
            match local {
                Option::Some(bytes) => {
                    &&& (digest_matches(old(self).expected_digest(), bytes@)
                        ==> final(self).state() == AppState::Completed && r is Finish)
                    &&& (!digest_matches(old(self).expected_digest(), bytes@)
                        ==> final(self).state() == AppState::StartingDownload && (
                    r matches AppAction::StartDownload { url } && url@ == old(self).download_url()))
                },
                Option::None => final(self).state() == AppState::StartingDownload && (
                r matches AppAction::StartDownload { url } && url@ == old(self).download_url()),
            },
    {
        match local {
            Some(bytes) => {
                let digest = crate::checksum::checksum_hex(&bytes);
                let expected = match &self.expected {
                    Some(c) => c.as_str(),
                    None => "",
                };
                proof {
                    crate::checksum::lemma_hex_of_lower(crate::checksum::sha256_of(bytes@));
                }
                if digests_match(expected, digest.as_str()) {
                    self.state = AppState::Completed;
                    AppAction::Finish
                } else {
                    self.state = AppState::StartingDownload;
                    AppAction::StartDownload { url: self.url.clone() }
                }
            },
            None => {
                self.state = AppState::StartingDownload;
                AppAction::StartDownload { url: self.url.clone() }
            },
        }
    }

    /// Reports the download response head, as for the runtime.
    pub fn on_download_head(&mut self, status: u16, content_length: Option<u64>) -> (r: AppAction)
        requires
            old(self).state() == AppState::StartingDownload,
            old(self).wf(),
        ensures
            final(self).wf(),
            app_step_rel(*old(self), *final(self), AppEvent::DownloadHead, r),
            final(self).jar_name() == old(self).jar_name(),
            final(self).download_url() == old(self).download_url(),
            final(self).expected_digest() == old(self).expected_digest(),
            !status_success(status) ==> final(self).state() == AppState::Failed && r
                == (AppAction::Fail { error: SFError::DownloadFailed, remove_temp: false }),
            status_success(status) && content_length is None ==> final(self).state()
                == AppState::Failed && r == (AppAction::Fail {
                error: SFError::NoContentLengthHeader,
                remove_temp: false,
            }),
            status_success(status) && content_length is Some ==> final(self).state()
                == AppState::Downloading && r is ReadBody,
    {
        if !is_status_success(status) {
            self.state = AppState::Failed;
            return AppAction::Fail { error: SFError::DownloadFailed, remove_temp: false };
        }
        match content_length {
            None => {
                self.state = AppState::Failed;
                AppAction::Fail { error: SFError::NoContentLengthHeader, remove_temp: false }
            },
            Some(_) => {
                self.state = AppState::Downloading;
                AppAction::ReadBody
            },
        }
    }

    /// Reports the fully streamed body; the memory-stage digest check
    /// happens before anything touches the disk.
    pub fn on_download_body(&mut self, body: Vec<u8>) -> (r: AppAction)
        requires
            old(self).state() == AppState::Downloading,
            old(self).wf(),
        ensures
            final(self).wf(),
            app_step_rel(*old(self), *final(self), AppEvent::Body, r),
            final(self).jar_name() == old(self).jar_name(),
            final(self).download_url() == old(self).download_url(),
            final(self).expected_digest() == old(self).expected_digest(),
            !digest_matches(old(self).expected_digest(), body@) ==> final(self).state()
                == AppState::Failed && r == (AppAction::Fail {
                error: SFError::InvalidChecksum(ChecksumStage::Memory),
                remove_temp: false,
            }),
            digest_matches(old(self).expected_digest(), body@) ==> final(self).state()
                == AppState::WritingTemp && (r matches AppAction::WriteTemp { data } && data@
                == body@),
    {
        let digest = crate::checksum::checksum_hex(&body);
        let expected = match &self.expected {
            Some(c) => c.as_str(),
            None => "",
        };
        proof {
            crate::checksum::lemma_hex_of_lower(crate::checksum::sha256_of(body@));
        }
        if !digests_match(expected, digest.as_str()) {
            self.state = AppState::Failed;
            AppAction::Fail {
                error: SFError::InvalidChecksum(ChecksumStage::Memory),
                remove_temp: false,
            }
        } else {
            self.state = AppState::WritingTemp;
            AppAction::WriteTemp { data: body }
        }
    }

    /// Reports the outcome of writing the artifact to the temporary
    /// file.
    pub fn on_temp_written(&mut self, write_error: Option<String>) -> (r: AppAction)
        requires
            old(self).state() == AppState::WritingTemp,
            old(self).wf(),
        ensures
            final(self).wf(),
            app_step_rel(*old(self), *final(self), AppEvent::TempWritten, r),
            final(self).jar_name() == old(self).jar_name(),
            final(self).expected_digest() == old(self).expected_digest(),
            match write_error {
                Option::Some(m) => final(self).state() == AppState::Failed && (
                r matches AppAction::Fail { error, remove_temp } && (error matches SFError::Io(m2)
                    && m2@ == m@) && remove_temp),
                Option::None => final(self).state() == AppState::ReadingBack && r is ReadTemp,
            },
    {
        match write_error {
            Some(m) => {
                self.state = AppState::Failed;
                AppAction::Fail { error: SFError::Io(m), remove_temp: true }
            },
            None => {
                self.state = AppState::ReadingBack;
                AppAction::ReadTemp
            },
        }
    }

    /// Reports the bytes read back from the temporary file; the
    /// disk-stage digest check happens here, and only a matching file
    /// is ever promoted.
    pub fn on_temp_read(&mut self, read: Result<Vec<u8>, String>) -> (r: AppAction)
        requires
            old(self).state() == AppState::ReadingBack,
            old(self).wf(),
        ensures
            final(self).wf(),
            app_step_rel(*old(self), *final(self), AppEvent::TempRead, r),
            final(self).jar_name() == old(self).jar_name(),
            final(self).expected_digest() == old(self).expected_digest(),
            match read {
                Err(m) => final(self).state() == AppState::Failed && (
                r matches AppAction::Fail { error, remove_temp } && (error matches SFError::Io(m2)
                    && m2@ == m@) && remove_temp),
                Ok(bytes) => {
                    &&& (!digest_matches(old(self).expected_digest(), bytes@)
                        ==> final(self).state() == AppState::Failed && r == (AppAction::Fail {
                        error: SFError::InvalidChecksum(ChecksumStage::Disk),
                        remove_temp: true,
                    }))
                    &&& (digest_matches(old(self).expected_digest(), bytes@)
                        ==> final(self).state() == AppState::Promoting
                        && final(self).verified_bytes() == bytes@ && r is Promote)
                },
            },
    {
        let bytes = match read {
            Err(m) => {
                self.state = AppState::Failed;
                return AppAction::Fail { error: SFError::Io(m), remove_temp: true };
            },
            Ok(bytes) => bytes,
        };
        let digest = crate::checksum::checksum_hex(&bytes);
        let expected = match &self.expected {
            Some(c) => c.as_str(),
            None => "",
        };
        proof {
            crate::checksum::lemma_hex_of_lower(crate::checksum::sha256_of(bytes@));
        }
        if !digests_match(expected, digest.as_str()) {
            self.state = AppState::Failed;
            return AppAction::Fail {
                error: SFError::InvalidChecksum(ChecksumStage::Disk),
                remove_temp: true,
            };
        }
        self.verified = Ghost(bytes@);
        self.state = AppState::Promoting;
        AppAction::Promote
    }

    /// Reports the outcome of the promote of the artifact file.
    pub fn on_promoted(&mut self, promote_error: Option<String>) -> (r: AppAction)
        requires
            old(self).state() == AppState::Promoting,
            old(self).wf(),
        ensures
            final(self).wf(),
            app_step_rel(*old(self), *final(self), AppEvent::Promoted, r),
            final(self).jar_name() == old(self).jar_name(),
            match promote_error {
                Option::Some(m) => final(self).state() == AppState::Failed && (
                r matches AppAction::Fail { error, remove_temp } && (error matches SFError::Io(m2)
                    && m2@ == m@) && remove_temp),
                Option::None => final(self).state() == AppState::Completed && r is Finish,
            },
    {
        match promote_error {
            Some(m) => {
                self.state = AppState::Failed;
                AppAction::Fail { error: SFError::Io(m), remove_temp: true }
            },
            None => {
                self.state = AppState::Completed;
                AppAction::Finish
            },
        }
    }
}


/// The outcomes the embedding application can report to the
/// application acquirer, named by step; the abstract step relation
/// below is stated over these. The local check's outcome carries
/// whether the present file matched the expected digest.
#[derive(Clone, Copy, PartialEq, Eq, Structural, Debug)]
pub enum AppEvent {
    /// The acquisition was started.
    Started,
    /// The release metadata response arrived.
    DigestMetadata,
    /// The local artifact file was probed; `matched` says whether a
    /// file was present and hashed to the expected digest.
    Local { matched: bool },
    /// The download response head arrived.
    DownloadHead,
    /// The response body was streamed.
    Body,
    /// The temp write finished.
    TempWritten,
    /// The temp file was read back.
    TempRead,
    /// The promote finished.
    Promoted,
}

/// An action that downloads the artifact itself.
pub open spec fn app_action_downloads(a: AppAction) -> bool {
    a is StartDownload || a is ReadBody
}

/// The abstract step relation of the application acquirer: which
/// states accept which events, where they lead, and what kind of
/// action each step commands. Every handler's contract implies it.
pub open spec fn app_step_rel(pre: AppAcquirer, post: AppAcquirer, e: AppEvent, a: AppAction) -> bool {
    match e {
        AppEvent::Started => pre.state() == AppState::Init && post.state()
            == AppState::FetchingDigest && a is FetchDigest,
        AppEvent::DigestMetadata => pre.state() == AppState::FetchingDigest && ((post.state()
            == AppState::CheckingLocal && a is CheckLocal) || (post.state() == AppState::Failed
            && a is Fail)),
        AppEvent::Local { matched } => {
            &&& pre.state() == AppState::CheckingLocal
            &&& if matched {
                post.state() == AppState::Completed && a is Finish
            } else {
                post.state() == AppState::StartingDownload && a is StartDownload
            }
        },
        AppEvent::DownloadHead => pre.state() == AppState::StartingDownload && ((post.state()
            == AppState::Downloading && a is ReadBody) || (post.state() == AppState::Failed
            && a is Fail)),
        AppEvent::Body => pre.state() == AppState::Downloading && ((post.state()
            == AppState::WritingTemp && a is WriteTemp) || (post.state() == AppState::Failed
            && a is Fail)),
        AppEvent::TempWritten => pre.state() == AppState::WritingTemp && ((post.state()
            == AppState::ReadingBack && a is ReadTemp) || (post.state() == AppState::Failed
            && a is Fail)),
        AppEvent::TempRead => pre.state() == AppState::ReadingBack && ((post.state()
            == AppState::Promoting && a is Promote) || (post.state() == AppState::Failed
            && a is Fail)),
        AppEvent::Promoted => pre.state() == AppState::Promoting && ((post.state()
            == AppState::Completed && a is Finish) || (post.state() == AppState::Failed
            && a is Fail)),
    }
}

/// A run of the application acquirer: `states` visits one more state
/// than there are events, and each step obeys the abstract step
/// relation.
pub open spec fn app_run(
    states: Seq<AppAcquirer>,
    events: Seq<AppEvent>,
    actions: Seq<AppAction>,
) -> bool {
    &&& states.len() == events.len() + 1
    &&& actions.len() == events.len()
    &&& forall|i: int|
        0 <= i < events.len() ==> app_step_rel(states[i], states[i + 1], #[trigger] events[i], actions[i])
}

/// The states a run can visit while every local check finds a matching
/// file.
pub open spec fn app_state_no_download(s: AppAcquirer) -> bool {
    s.state() == AppState::Init || s.state() == AppState::FetchingDigest || s.state()
        == AppState::CheckingLocal || s.state() == AppState::Completed || s.state()
        == AppState::Failed
}

/// Helper: a run whose local checks all match never leaves the
/// non-downloading states.
proof fn lemma_app_run_states(
    states: Seq<AppAcquirer>,
    events: Seq<AppEvent>,
    actions: Seq<AppAction>,
    j: int,
)
    requires
        app_run(states, events, actions),
        states[0].state() == AppState::Init,
        forall|i: int|
            0 <= i < events.len() ==> ((#[trigger] events[i]) matches AppEvent::Local { matched }
                ==> matched),
        0 <= j < states.len(),
    ensures
        app_state_no_download(states[j]),
    decreases j,
{
    if j > 0 {
        lemma_app_run_states(states, events, actions, j - 1);
        assert(app_step_rel(states[j - 1], states[j], events[j - 1], actions[j - 1]));
    }
}

/// Idempotence for the application artifact: in a run of the acquirer
/// whose local check always finds a file matching the freshly fetched
/// digest, no artifact download is ever commanded. (The expected
/// digest itself is still fetched fresh on every acquisition, by
/// design.)
pub proof fn lemma_app_artifact_idempotent(
    states: Seq<AppAcquirer>,
    events: Seq<AppEvent>,
    actions: Seq<AppAction>,
)
    requires
        app_run(states, events, actions),
        states.len() >= 1,
        states[0].state() == AppState::Init,
        forall|i: int|
            0 <= i < events.len() ==> ((#[trigger] events[i]) matches AppEvent::Local { matched }
                ==> matched),
    ensures
        forall|i: int| 0 <= i < actions.len() ==> !app_action_downloads(#[trigger] actions[i]),
{
    assert forall|i: int| 0 <= i < actions.len() implies !app_action_downloads(
        #[trigger] actions[i],
    ) by {
        lemma_app_run_states(states, events, actions, i);
        assert(app_step_rel(states[i], states[i + 1], events[i], actions[i]));
    }
}

/// Corruption detection for the application artifact: an acquirer that
/// has reached the promoting stage holds only bytes whose digest
/// matches the freshly fetched expected one.
pub proof fn lemma_app_installs_only_verified(m: AppAcquirer)
    requires
        m.wf(),
        m.state() == AppState::Promoting,
    ensures
        digest_matches(m.expected_digest(), m.verified_bytes()),
{
}

} // verus!
