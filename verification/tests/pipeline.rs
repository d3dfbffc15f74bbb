//! End-to-end scenarios of the bootstrap pipeline: both acquirers driven
//! over real archive fixtures, the supervisor, and the produced result.

use soulfire_client::acquire::AppAcquirer;
use soulfire_client::acquire::AppAction;
use soulfire_client::acquire::RuntimeAcquirer;
use soulfire_client::acquire::RuntimeAction;
use soulfire_client::checksum::checksum_hex;
use soulfire_client::coordinator::format_result;
use soulfire_client::coordinator::BootstrapState;
use soulfire_client::coordinator::ManagedProcess;
use soulfire_client::install::PromoteMachine;
use soulfire_client::install::RenameOp;
use soulfire_client::launcher::Supervisor;
use soulfire_client::launcher::SupervisorAction;
use soulfire_client::platform::Arch;
use soulfire_client::platform::Os;

fn tar_gz_fixture() -> Vec<u8> {
    let mut tar_bytes = Vec::new();
    {
        let mut builder = tar::Builder::new(&mut tar_bytes);
        let data = b"java launcher bytes";
        let mut header = tar::Header::new_gnu();
        header.set_path("jre-9.0.0-jre/bin/java").unwrap();
        header.set_size(data.len() as u64);
        header.set_cksum();
        builder.append(&header, &data[..]).unwrap();
        builder.finish().unwrap();
    }
    let mut gz = flate2::write::GzEncoder::new(Vec::new(), flate2::Compression::default());
    std::io::Write::write_all(&mut gz, &tar_bytes).unwrap();
    gz.finish().unwrap()
}

#[test]
fn runtime_acquirer_full_run() {
    let archive = tar_gz_fixture();
    let digest = checksum_hex(&archive);
    let metadata = format!(
        "[{{\"binary\": {{\"package\": {{\"link\": \"https://x/jre.tar.gz\", \"checksum\": \"{}\"}}}}, \"release_name\": \"jre-9.0.0\"}}]",
        digest
    );

    let mut m = RuntimeAcquirer::new(Os::Linux, Arch::X64);
    let a = m.on_probe(false);
    match a {
        RuntimeAction::FetchMetadata { url } => {
            assert_eq!(
                url,
                "https://api.adoptium.net/v3/assets/latest/25/hotspot?architecture=x64&image_type=jre&os=linux&vendor=eclipse"
            );
        }
        _ => panic!("expected a metadata fetch"),
    }
    match m.on_metadata(200, &metadata) {
        RuntimeAction::StartDownload { url } => assert_eq!(url, "https://x/jre.tar.gz"),
        _ => panic!("expected the download to start"),
    }
    assert!(matches!(
        m.on_download_head(200, Some(archive.len() as u64)),
        RuntimeAction::ReadBody
    ));
    match m.on_download_body(archive.clone()) {
        RuntimeAction::WriteTemp { data } => assert_eq!(data, archive),
        _ => panic!("expected the temp write"),
    }
    assert!(matches!(m.on_temp_written(None), RuntimeAction::ReadTemp));
    match m.on_temp_read(Ok(archive.clone())) {
        RuntimeAction::StoreEntries { entries } => {
            assert_eq!(entries.len(), 1);
            assert_eq!(entries[0].path, "jre-9.0.0-jre/bin/java");
            assert_eq!(entries[0].data, b"java launcher bytes".to_vec());
            assert!(!entries[0].is_dir);
        }
        _ => panic!("expected the extracted entries"),
    }
    assert!(matches!(m.on_stored(None), RuntimeAction::Promote));

    let (mut promote, first) = PromoteMachine::start(false);
    assert!(matches!(first, RenameOp::TempToDest));
    assert!(promote.on_result(true).is_none());
    assert!(promote.is_complete());

    assert!(matches!(m.on_promoted(None), RuntimeAction::Finish));
}

#[test]
fn runtime_acquirer_installed_runtime_is_idempotent() {
    let mut m = RuntimeAcquirer::new(Os::Linux, Arch::X64);
    // An existing runtime directory finishes the machine at once: no
    // network action is ever commanded.
    assert!(matches!(m.on_probe(true), RuntimeAction::Finish));
}

#[test]
fn runtime_acquirer_rejects_memory_stage_corruption() {
    let archive = tar_gz_fixture();
    let metadata = format!(
        "[{{\"binary\": {{\"package\": {{\"link\": \"https://x/jre.tar.gz\", \"checksum\": \"{}\"}}}}, \"release_name\": \"jre-9.0.0\"}}]",
        "0".repeat(64)
    );
    let mut m = RuntimeAcquirer::new(Os::Linux, Arch::X64);
    m.on_probe(false);
    m.on_metadata(200, &metadata);
    m.on_download_head(200, Some(archive.len() as u64));
    match m.on_download_body(archive) {
        RuntimeAction::Fail { error, remove_temp } => {
            assert!(matches!(
                error,
                soulfire_client::errors::SFError::InvalidChecksum(
                    soulfire_client::errors::ChecksumStage::Memory
                )
            ));
            assert!(!remove_temp);
        }
        _ => panic!("corrupted bytes must be rejected before touching disk"),
    }
}

#[test]
fn runtime_acquirer_rejects_disk_stage_corruption() {
    let archive = tar_gz_fixture();
    let digest = checksum_hex(&archive);
    let metadata = format!(
        "[{{\"binary\": {{\"package\": {{\"link\": \"https://x/jre.tar.gz\", \"checksum\": \"{}\"}}}}, \"release_name\": \"jre-9.0.0\"}}]",
        digest
    );
    let mut m = RuntimeAcquirer::new(Os::Linux, Arch::X64);
    m.on_probe(false);
    m.on_metadata(200, &metadata);
    m.on_download_head(200, Some(archive.len() as u64));
    m.on_download_body(archive.clone());
    m.on_temp_written(None);
    let mut corrupted = archive.clone();
    corrupted[0] ^= 0xff;
    match m.on_temp_read(Ok(corrupted)) {
        RuntimeAction::Fail { error, remove_temp } => {
            assert!(matches!(
                error,
                soulfire_client::errors::SFError::InvalidChecksum(
                    soulfire_client::errors::ChecksumStage::Disk
                )
            ));
            // The temp file is deleted; no store and no promote was
            // ever commanded, so the final path is untouched.
            assert!(remove_temp);
        }
        _ => panic!("disk corruption must be rejected"),
    }
}

#[test]
fn runtime_acquirer_reports_bad_shape() {
    // An archive whose root directory does not match the release name.
    let mut tar_bytes = Vec::new();
    {
        let mut builder = tar::Builder::new(&mut tar_bytes);
        let data = b"stray";
        let mut header = tar::Header::new_gnu();
        header.set_path("elsewhere/file").unwrap();
        header.set_size(data.len() as u64);
        header.set_cksum();
        builder.append(&header, &data[..]).unwrap();
        builder.finish().unwrap();
    }
    let mut gz = flate2::write::GzEncoder::new(Vec::new(), flate2::Compression::default());
    std::io::Write::write_all(&mut gz, &tar_bytes).unwrap();
    let archive = gz.finish().unwrap();
    let digest = checksum_hex(&archive);
    let metadata = format!(
        "[{{\"binary\": {{\"package\": {{\"link\": \"https://x/jre.tar.gz\", \"checksum\": \"{}\"}}}}, \"release_name\": \"jre-9.0.0\"}}]",
        digest
    );
    let mut m = RuntimeAcquirer::new(Os::Linux, Arch::X64);
    m.on_probe(false);
    m.on_metadata(200, &metadata);
    m.on_download_head(200, Some(archive.len() as u64));
    m.on_download_body(archive.clone());
    m.on_temp_written(None);
    match m.on_temp_read(Ok(archive)) {
        RuntimeAction::Fail { error, .. } => {
            assert!(matches!(
                error,
                soulfire_client::errors::SFError::ExtractIncomplete
            ));
        }
        _ => panic!("a mis-shaped runtime must not be stored"),
    }
}

#[test]
fn app_acquirer_full_run_and_result_string() {
    let jar: Vec<u8> = b"PK...the server jar".to_vec();
    let digest = checksum_hex(&jar);
    let metadata = format!(
        "{{\"assets\": [{{\"name\": \"SoulFireDedicated-1.0.0.jar\", \"digest\": \"sha256:{}\"}}]}}",
        digest
    );

    let mut m = AppAcquirer::new("1.0.0");
    match m.start() {
        AppAction::FetchDigest { url } => {
            assert_eq!(
                url,
                "https://api.github.com/repos/AlexProgrammerDE/SoulFire/releases/tags/1.0.0"
            );
        }
        _ => panic!("expected the digest fetch"),
    }
    assert!(matches!(m.on_digest_metadata(200, &metadata), AppAction::CheckLocal));
    match m.on_local(None) {
        AppAction::StartDownload { url } => {
            assert_eq!(
                url,
                "https://github.com/AlexProgrammerDE/SoulFire/releases/download/1.0.0/SoulFireDedicated-1.0.0.jar"
            );
        }
        _ => panic!("a missing local file must be downloaded"),
    }
    assert!(matches!(m.on_download_head(200, Some(jar.len() as u64)), AppAction::ReadBody));
    match m.on_download_body(jar.clone()) {
        AppAction::WriteTemp { data } => assert_eq!(data, jar),
        _ => panic!("expected the temp write"),
    }
    assert!(matches!(m.on_temp_written(None), AppAction::ReadTemp));
    assert!(matches!(m.on_temp_read(Ok(jar.clone())), AppAction::Promote));
    assert!(matches!(m.on_promoted(None), AppAction::Finish));

    // Launch and supervise.
    let mut sup = Supervisor::new();
    match sup.on_line("\u{1b}[32mStarting up\u{1b}[m") {
        SupervisorAction::ForwardLog { line } => assert_eq!(line, "Starting up"),
        _ => panic!("expected the stripped line to be forwarded"),
    }
    assert!(matches!(sup.on_line("[INFO] Finished loading!"), SupervisorAction::RequestToken));
    assert!(matches!(sup.on_line("some chatter"), SupervisorAction::Ignore));
    let token = match sup.on_line("Generated JWT abc.def.ghi\n") {
        SupervisorAction::Deliver { token } => token,
        _ => panic!("expected the credential"),
    };
    assert_eq!(token, "abc.def.ghi");

    let mut state = BootstrapState::new();
    assert!(state.try_begin());
    let port = state.select_port(37645).unwrap();
    state.store_process(ManagedProcess { port, handle: 1 });
    state.finish();
    let result = format_result(port, &token);
    assert_eq!(result, "http://127.0.0.1:37645\nabc.def.ghi");
}

#[test]
fn app_acquirer_matching_local_file_downloads_nothing() {
    let jar: Vec<u8> = b"PK...the server jar".to_vec();
    let digest = checksum_hex(&jar);
    let metadata = format!(
        "{{\"assets\": [{{\"name\": \"SoulFireDedicated-1.0.0.jar\", \"digest\": \"{}\"}}]}}",
        digest
    );
    let mut m = AppAcquirer::new("1.0.0");
    m.start();
    m.on_digest_metadata(200, &metadata);
    // The digest matches the local file: the acquirer finishes without
    // commanding any download.
    assert!(matches!(m.on_local(Some(jar)), AppAction::Finish));
}

#[test]
fn app_acquirer_redownloads_stale_local_file() {
    let jar: Vec<u8> = b"fresh artifact".to_vec();
    let digest = checksum_hex(&jar);
    let metadata = format!(
        "{{\"assets\": [{{\"name\": \"SoulFireDedicated-1.0.0.jar\", \"digest\": \"{}\"}}]}}",
        digest
    );
    let mut m = AppAcquirer::new("1.0.0");
    m.start();
    m.on_digest_metadata(200, &metadata);
    let stale = b"half-written earlier install".to_vec();
    assert!(matches!(m.on_local(Some(stale)), AppAction::StartDownload { .. }));
}

#[test]
fn app_acquirer_rejects_wrong_metadata_digest() {
    // The digest in the metadata does not match the downloaded bytes:
    // the bootstrap fails with a checksum error and nothing is written
    // to the final application path.
    let jar: Vec<u8> = b"PK...the server jar".to_vec();
    let metadata = format!(
        "{{\"assets\": [{{\"name\": \"SoulFireDedicated-1.0.0.jar\", \"digest\": \"sha256:{}\"}}]}}",
        "ab".repeat(32)
    );
    let mut m = AppAcquirer::new("1.0.0");
    m.start();
    assert!(matches!(m.on_digest_metadata(200, &metadata), AppAction::CheckLocal));
    assert!(matches!(m.on_local(None), AppAction::StartDownload { .. }));
    assert!(matches!(m.on_download_head(200, Some(jar.len() as u64)), AppAction::ReadBody));
    match m.on_download_body(jar) {
        AppAction::Fail { error, remove_temp } => {
            assert!(matches!(
                error,
                soulfire_client::errors::SFError::InvalidChecksum(
                    soulfire_client::errors::ChecksumStage::Memory
                )
            ));
            assert!(!remove_temp);
        }
        _ => panic!("a wrong expected digest must fail the bootstrap"),
    }
}

#[test]
fn download_failures_are_reported() {
    let mut m = RuntimeAcquirer::new(Os::Linux, Arch::X64);
    m.on_probe(false);
    match m.on_metadata(503, "irrelevant") {
        RuntimeAction::Fail { error, .. } => {
            assert!(matches!(error, soulfire_client::errors::SFError::DownloadFailed));
        }
        _ => panic!("a non-success status must fail"),
    }

    let mut m2 = RuntimeAcquirer::new(Os::Linux, Arch::X64);
    m2.on_probe(false);
    let digest = "0".repeat(64);
    let metadata = format!(
        "[{{\"binary\": {{\"package\": {{\"link\": \"https://x/jre.tar.gz\", \"checksum\": \"{}\"}}}}, \"release_name\": \"jre-9.0.0\"}}]",
        digest
    );
    m2.on_metadata(200, &metadata);
    match m2.on_download_head(200, None) {
        RuntimeAction::Fail { error, .. } => {
            assert!(matches!(
                error,
                soulfire_client::errors::SFError::NoContentLengthHeader
            ));
        }
        _ => panic!("a missing content length must fail"),
    }
}

#[test]
fn supervisor_reports_early_exit() {
    let mut sup = Supervisor::new();
    sup.on_line("still starting...");
    match sup.on_exit() {
        SupervisorAction::Fail { error } => {
            assert!(matches!(
                error,
                soulfire_client::errors::SFError::ProcessExitedEarly
            ));
        }
        _ => panic!("an early exit must fail supervision"),
    }
}
