//! Unit tests of the pipeline's pure building blocks: platform
//! identifiers, checksums, text utilities, archives, metadata, progress
//! coalescing and Java version handling.

use soulfire_client::archive::archive_kind_for_url;
use soulfire_client::archive::entry_name_safe;
use soulfire_client::archive::extract_archive;
use soulfire_client::archive::validate_runtime_shape;
use soulfire_client::archive::ArchiveKind;
use soulfire_client::checksum::checksum_hex;
use soulfire_client::checksum::digests_match;
use soulfire_client::errors::ChecksumStage;
use soulfire_client::errors::MetaField;
use soulfire_client::errors::SFError;
use soulfire_client::java::detect_javas;
use soulfire_client::java::find_java_installations;
use soulfire_client::java::get_best_java;
use soulfire_client::java::parse_java_version;
use soulfire_client::java::JavaInstall;
use soulfire_client::launcher::build_jvm_args;
use soulfire_client::launcher::java_exec_path;
use soulfire_client::launcher::java_home_path;
use soulfire_client::launcher::library_path_value;
use soulfire_client::launcher::parse_token_line;
use soulfire_client::metadata::find_asset_digest;
use soulfire_client::metadata::runtime_release_from_json;
use soulfire_client::metadata::AssetMeta;
use soulfire_client::platform::detect_architecture;
use soulfire_client::platform::detect_os;
use soulfire_client::platform::get_java_exec_name;
use soulfire_client::platform::Arch;
use soulfire_client::platform::Os;
use soulfire_client::progress::DownloadProgress;
use soulfire_client::rave::get_sf_server_version;
use soulfire_client::rave::rave_response_kind;
use soulfire_client::rave::rave_user_agent;
use soulfire_client::rave::truncate_string;
use soulfire_client::rave::RaveResponse;
use soulfire_client::text::str_contains;
use soulfire_client::text::str_ends_with;
use soulfire_client::text::u64_to_dec;

#[test]
fn platform_identifiers() {
    assert_eq!(detect_os(Os::Linux), "linux");
    assert_eq!(detect_os(Os::LinuxMusl), "alpine-linux");
    assert_eq!(detect_os(Os::Windows), "windows");
    assert_eq!(detect_os(Os::Mac), "mac");
    assert_eq!(detect_os(Os::Solaris), "solaris");
    assert_eq!(detect_os(Os::Aix), "aix");
    assert_eq!(detect_os(Os::Android), "android");
    assert_eq!(detect_os(Os::Ios), "ios");
    assert_eq!(detect_os(Os::Unknown), "unknown");
    assert_eq!(detect_architecture(Arch::X64), "x64");
    assert_eq!(detect_architecture(Arch::X32), "x32");
    assert_eq!(detect_architecture(Arch::Aarch64), "aarch64");
    assert_eq!(detect_architecture(Arch::Arm), "arm");
    assert_eq!(detect_architecture(Arch::Ppc64), "ppc64");
    assert_eq!(detect_architecture(Arch::Ppc64le), "ppc64le");
    assert_eq!(detect_architecture(Arch::S390x), "s390x");
    assert_eq!(detect_architecture(Arch::Sparcv9), "sparcv9");
    assert_eq!(detect_architecture(Arch::Riscv64), "riscv64");
    assert_eq!(detect_architecture(Arch::Unknown), "unknown");
    assert_eq!(get_java_exec_name(Os::Windows), "javaw.exe");
    assert_eq!(get_java_exec_name(Os::Linux), "java");
}

#[test]
fn sha256_known_vector() {
    // SHA-256 of "abc", a published test vector.
    let data = b"abc".to_vec();
    assert_eq!(
        checksum_hex(&data),
        "ba7816bf8f01cfea414140de5dae2223b00361a396177a9cb410ff61f20015ad"
    );
    // SHA-256 of the empty input.
    let empty: Vec<u8> = Vec::new();
    assert_eq!(
        checksum_hex(&empty),
        "e3b0c44298fc1c149afbf4c8996fb92427ae41e4649b934ca495991b7852b855"
    );
}

#[test]
fn digest_comparison_is_case_insensitive() {
    assert!(digests_match("DEADBEEF", "deadbeef"));
    assert!(digests_match("deadbeef", "deadbeef"));
    assert!(!digests_match("deadbeef", "deadbeee"));
    assert!(!digests_match("deadbeef", "deadbee"));
}

#[test]
fn decimal_rendering() {
    assert_eq!(u64_to_dec(0), "0");
    assert_eq!(u64_to_dec(7), "7");
    assert_eq!(u64_to_dec(65535), "65535");
    assert_eq!(u64_to_dec(18446744073709551615), "18446744073709551615");
}

#[test]
fn text_search() {
    assert!(str_ends_with("file.tar.gz", ".tar.gz"));
    assert!(!str_ends_with("file.tgz", ".tar.gz"));
    assert!(str_contains("xxFinished loading!yy", "Finished loading!"));
    assert!(!str_contains("Finished load", "Finished loading!"));
    assert!(str_contains("anything", ""));
}

#[test]
fn archive_kind_selection() {
    assert!(matches!(archive_kind_for_url("https://x/jre.tar.gz"), Ok(ArchiveKind::TarGz)));
    assert!(matches!(archive_kind_for_url("https://x/jre.zip"), Ok(ArchiveKind::Zip)));
    assert!(matches!(
        archive_kind_for_url("https://x/jre.tar.xz"),
        Err(SFError::InvalidArchiveType)
    ));
}

#[test]
fn zip_round_trip_and_name_safety() {
    let mut cursor = std::io::Cursor::new(Vec::new());
    {
        let mut writer = zip::ZipWriter::new(&mut cursor);
        let options = zip::write::SimpleFileOptions::default();
        writer.start_file("dir/hello.txt", options).unwrap();
        std::io::Write::write_all(&mut writer, b"hello").unwrap();
        writer.finish().unwrap();
    }
    let bytes = cursor.into_inner();
    let entries = extract_archive(ArchiveKind::Zip, &bytes).unwrap();
    assert_eq!(entries.len(), 1);
    assert_eq!(entries[0].path, "dir/hello.txt");
    assert_eq!(entries[0].data, b"hello".to_vec());

    let mut cursor = std::io::Cursor::new(Vec::new());
    {
        let mut writer = zip::ZipWriter::new(&mut cursor);
        let options = zip::write::SimpleFileOptions::default();
        writer.start_file("../evil.txt", options).unwrap();
        std::io::Write::write_all(&mut writer, b"x").unwrap();
        writer.finish().unwrap();
    }
    let bytes = cursor.into_inner();
    assert!(matches!(
        extract_archive(ArchiveKind::Zip, &bytes),
        Err(SFError::InvalidZipData)
    ));
}

#[test]
fn entry_name_rules() {
    assert!(entry_name_safe("jre/bin/java"));
    assert!(entry_name_safe("a..b/c"));
    assert!(!entry_name_safe(""));
    assert!(!entry_name_safe("/etc/shadow"));
    assert!(!entry_name_safe("../escape"));
    assert!(!entry_name_safe("a/../b"));
    assert!(!entry_name_safe("a/.."));
    assert!(!entry_name_safe("c:\\windows"));
    assert!(!entry_name_safe("dir\\file"));
}

#[test]
fn shape_validation_honors_platform_nesting() {
    let entries = extract_tar(&[
        ("jre-9.0.0-jre/bin/java", b"x".as_slice()),
    ]);
    assert!(validate_runtime_shape(&entries, "jre-9.0.0", Os::Linux).is_ok());
    assert!(matches!(
        validate_runtime_shape(&entries, "jre-9.0.0", Os::Mac),
        Err(SFError::ExtractIncomplete)
    ));

    let mac_entries = extract_tar(&[
        ("jre-9.0.0-jre/Contents/Home/bin/java", b"x".as_slice()),
    ]);
    assert!(validate_runtime_shape(&mac_entries, "jre-9.0.0", Os::Mac).is_ok());

    let windows_entries = extract_tar(&[
        ("jre-9.0.0-jre/bin/javaw.exe", b"x".as_slice()),
    ]);
    assert!(validate_runtime_shape(&windows_entries, "jre-9.0.0", Os::Windows).is_ok());
}

fn extract_tar(files: &[(&str, &[u8])]) -> Vec<soulfire_client::archive::ArchiveEntry> {
    let mut tar_bytes = Vec::new();
    {
        let mut builder = tar::Builder::new(&mut tar_bytes);
        for (path, data) in files {
            let mut header = tar::Header::new_gnu();
            header.set_path(path).unwrap();
            header.set_size(data.len() as u64);
            header.set_cksum();
            builder.append(&header, *data).unwrap();
        }
        builder.finish().unwrap();
    }
    let mut gz = flate2::write::GzEncoder::new(Vec::new(), flate2::Compression::default());
    std::io::Write::write_all(&mut gz, &tar_bytes).unwrap();
    let archive = gz.finish().unwrap();
    extract_archive(ArchiveKind::TarGz, &archive).unwrap()
}

#[test]
fn unreadable_archives_are_io_errors() {
    let garbage = b"not an archive at all".to_vec();
    assert!(matches!(
        extract_archive(ArchiveKind::TarGz, &garbage),
        Err(SFError::Io(_))
    ));
    assert!(matches!(
        extract_archive(ArchiveKind::Zip, &garbage),
        Err(SFError::Io(_))
    ));
}

#[test]
fn runtime_metadata_fields() {
    let body = "[{\"binary\": {\"package\": {\"link\": \"https://x/jre.tar.gz\", \"checksum\": \"aa\"}}, \"release_name\": \"jre-9.0.0\"}]";
    let artifact = runtime_release_from_json(body).unwrap();
    assert_eq!(artifact.url, "https://x/jre.tar.gz");
    assert_eq!(artifact.checksum, "aa");
    assert_eq!(artifact.release_name, "jre-9.0.0");

    assert!(matches!(
        runtime_release_from_json("not json"),
        Err(SFError::MetadataUnparseable)
    ));
    assert!(matches!(
        runtime_release_from_json("[{}]"),
        Err(SFError::JsonFieldInvalid(MetaField::RuntimeChecksum))
    ));
    let no_link = "[{\"binary\": {\"package\": {\"checksum\": \"aa\"}}, \"release_name\": \"x\"}]";
    assert!(matches!(
        runtime_release_from_json(no_link),
        Err(SFError::JsonFieldInvalid(MetaField::RuntimeLink))
    ));
    let no_release = "[{\"binary\": {\"package\": {\"link\": \"u\", \"checksum\": \"aa\"}}}]";
    assert!(matches!(
        runtime_release_from_json(no_release),
        Err(SFError::JsonFieldInvalid(MetaField::ReleaseName))
    ));
}

#[test]
fn asset_digest_lookup() {
    let assets = vec![
        AssetMeta { name: Some("other.jar".to_string()), digest: Some("ff".to_string()) },
        AssetMeta { name: Some("app.jar".to_string()), digest: Some("sha256:ab".to_string()) },
        AssetMeta { name: Some("app.jar".to_string()), digest: Some("cd".to_string()) },
    ];
    // The first matching asset wins, and the tag prefix is stripped.
    assert_eq!(find_asset_digest(&assets, "app.jar").unwrap(), "ab");
    assert!(matches!(
        find_asset_digest(&assets, "absent.jar"),
        Err(SFError::JsonFieldInvalid(MetaField::AssetEntry))
    ));
    let nameless = vec![AssetMeta { name: Some("app.jar".to_string()), digest: None }];
    assert!(matches!(
        find_asset_digest(&nameless, "app.jar"),
        Err(SFError::JsonFieldInvalid(MetaField::AssetDigest))
    ));
}

#[test]
fn progress_reports_each_percent_once() {
    let mut p = DownloadProgress::new();
    // 0% equals the initial state and is suppressed.
    assert_eq!(p.update(0, 200), None);
    assert_eq!(p.update(2, 200), Some(1));
    // Same whole percentage again: suppressed.
    assert_eq!(p.update(3, 200), None);
    assert_eq!(p.update(100, 200), Some(50));
    assert_eq!(p.update(101, 200), None);
    assert_eq!(p.update(200, 200), Some(100));
}

#[test]
fn jvm_argument_vector() {
    let args = build_jvm_args(
        vec!["-Xmx2G".to_string()],
        38000,
        "/data/jars/SoulFireDedicated-1.0.0.jar".to_string(),
    );
    assert_eq!(
        args,
        vec![
            "-Xmx2G".to_string(),
            "-Dsf.grpc.port=38000".to_string(),
            "-jar".to_string(),
            "/data/jars/SoulFireDedicated-1.0.0.jar".to_string(),
        ]
    );
}

#[test]
fn launcher_paths() {
    assert_eq!(java_home_path("/data/jvm-25", Os::Linux), "/data/jvm-25");
    assert_eq!(java_home_path("/data/jvm-25", Os::Mac), "/data/jvm-25/Contents/Home");
    assert_eq!(java_exec_path("/data/jvm-25", Os::Linux), "/data/jvm-25/bin/java");
    assert_eq!(java_exec_path("/data/jvm-25", Os::Windows), "/data/jvm-25/bin/javaw.exe");
    assert_eq!(
        library_path_value("/data/jvm-25", "/usr/lib"),
        "/data/jvm-25/lib:/data/jvm-25/lib/server:/usr/lib"
    );
}

#[test]
fn token_lines() {
    assert_eq!(parse_token_line("Generated JWT abc.def.ghi").unwrap(), "abc.def.ghi");
    assert_eq!(parse_token_line("abc.def.ghi\n").unwrap(), "abc.def.ghi");
    assert_eq!(parse_token_line("one two\tthree ").unwrap(), "three");
    assert!(matches!(parse_token_line("   \t\n"), Err(SFError::JwtLineInvalid)));
    assert!(matches!(parse_token_line(""), Err(SFError::JwtLineInvalid)));
}

#[test]
fn java_version_lines() {
    assert_eq!(
        parse_java_version("openjdk version \"17.0.2\" 2022-01-18"),
        Some(17)
    );
    // The legacy scheme: a major of 1 means the minor carries the
    // version.
    assert_eq!(
        parse_java_version("java version \"1.8.0_292\""),
        Some(8)
    );
    assert_eq!(parse_java_version("21.0.1"), Some(21));
    assert_eq!(parse_java_version("no version here"), None);
    assert_eq!(parse_java_version("almost 17.02"), None);
    // Numbers that do not fit a byte report no version.
    assert_eq!(parse_java_version("999999999.1.1"), None);
    // The first mark decides.
    assert_eq!(parse_java_version("x 11.0.2 then 17.0.1"), Some(11));
}

#[test]
fn best_java_selection() {
    let javas = vec![
        JavaInstall { path: "/a".to_string(), major: 17 },
        JavaInstall { path: "/b".to_string(), major: 21 },
        JavaInstall { path: "/c".to_string(), major: 21 },
    ];
    // The first installation of the wanted version wins.
    assert_eq!(get_best_java(&javas).unwrap(), "/b");

    let javas = vec![
        JavaInstall { path: "/a".to_string(), major: 23 },
        JavaInstall { path: "/b".to_string(), major: 19 },
    ];
    // Distance two on both sides: the older one is preferred.
    assert_eq!(get_best_java(&javas).unwrap(), "/b");

    let javas = vec![
        JavaInstall { path: "/a".to_string(), major: 8 },
        JavaInstall { path: "/b".to_string(), major: 22 },
    ];
    assert_eq!(get_best_java(&javas).unwrap(), "/b");

    assert_eq!(get_best_java(&Vec::new()), None);
}

#[test]
fn java_detection_keeps_successes() {
    let detected = detect_javas(vec![
        ("/usr/bin/java".to_string(), Some(21)),
        ("/broken/java".to_string(), None),
        ("/old/java".to_string(), Some(8)),
    ]);
    assert_eq!(detected.len(), 2);
    assert_eq!(detected[0].path, "/usr/bin/java");
    assert_eq!(detected[0].major, 21);
    assert_eq!(detected[1].path, "/old/java");
    assert_eq!(detected[1].major, 8);

    assert!(find_java_installations().is_empty());
}

#[test]
fn rave_helpers() {
    assert_eq!(get_sf_server_version(), "1.0.0");
    assert_eq!(rave_user_agent(), "SoulFire/1.0.0");
    assert_eq!(truncate_string("short", 10), "short");
    assert_eq!(truncate_string("a longer text", 8), "a longer...");

    match rave_response_kind(200, "{\"status\": \"ok\"}".to_string()) {
        RaveResponse::Json(body) => assert_eq!(body, "{\"status\": \"ok\"}"),
        _ => panic!("a JSON body must pass through"),
    }
    match rave_response_kind(502, "<html>Bad Gateway</html>".to_string()) {
        RaveResponse::Fallback(message) => {
            assert_eq!(
                message,
                "Unexpected response from Rave Alts (HTTP 502): <html>Bad Gateway</html>"
            );
        }
        _ => panic!("a non-JSON body must be explained"),
    }

    // A long body is quoted only up to the excerpt length.
    let long_body = "x".repeat(600);
    match rave_response_kind(500, long_body.clone()) {
        RaveResponse::Fallback(message) => {
            let expected = format!(
                "Unexpected response from Rave Alts (HTTP 500): {}...",
                "x".repeat(500)
            );
            assert_eq!(message, expected);
        }
        _ => panic!("a non-JSON body must be explained"),
    }
}

#[test]
fn error_messages_name_the_field() {
    let e = SFError::JsonFieldInvalid(MetaField::RuntimeChecksum);
    assert_eq!(e.message(), "json field was invalid/not found: binary.package.checksum");
    assert_eq!(
        SFError::InvalidChecksum(ChecksumStage::Memory).message(),
        "checksum of downloaded data does not match"
    );
    assert_eq!(
        SFError::InvalidChecksum(ChecksumStage::Disk).message(),
        "checksum of data written to disk does not match"
    );
    assert_eq!(SFError::NoPortAvailable.message(), "no port available");
    assert_eq!(
        SFError::ServerAlreadyStarting.message(),
        "integrated server is already starting"
    );
    assert_eq!(
        SFError::PathCouldNotBeConverted.message(),
        "path could not be converted to string"
    );
    assert_eq!(SFError::Io("disk full".to_string()).message(), "i/o error: disk full");
}
