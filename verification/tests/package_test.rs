use std::io::Write;
use yh_extension_manager_v2::package::{
    plan_gzip_single, plan_plugin_zip_extraction, plan_tar_gz_targets, plan_zip_extraction_with_strip,
    read_manifest_text_from_zip_bytes, ExtractOp,
};

fn zip_of(entries: &[(&str, Option<&[u8]>, u32)]) -> Vec<u8> {
    let mut writer = zip::ZipWriter::new(std::io::Cursor::new(Vec::new()));
    for (name, data, mode) in entries {
        let options = zip::write::SimpleFileOptions::default().unix_permissions(*mode);
        match data {
            Some(bytes) => {
                writer.start_file(*name, options).unwrap();
                writer.write_all(bytes).unwrap();
            }
            None => {
                writer.add_directory(*name, options).unwrap();
            }
        }
    }
    writer.finish().unwrap().into_inner()
}

#[test]
fn manifest_text_is_read_from_the_package_root() {
    let bytes = zip_of(&[("plugin.json", Some(b"{\"id\":\"x\"}"), 0o644)]);
    assert_eq!(read_manifest_text_from_zip_bytes(&bytes), Ok("{\"id\":\"x\"}".to_string()));
}

#[test]
fn a_package_without_manifest_is_refused() {
    let bytes = zip_of(&[("other.txt", Some(b"x"), 0o644)]);
    let err = read_manifest_text_from_zip_bytes(&bytes).unwrap_err();
    assert!(err.starts_with("plugin.json is required in plugin package root: "), "{}", err);
    let nested = zip_of(&[("sub/plugin.json", Some(b"{}"), 0o644)]);
    assert!(read_manifest_text_from_zip_bytes(&nested).is_err());
}

#[test]
fn bytes_that_are_not_a_zip_are_refused() {
    let err = read_manifest_text_from_zip_bytes(b"not a zip").unwrap_err();
    assert!(err.starts_with("invalid plugin package: "), "{}", err);
    let err = plan_plugin_zip_extraction(b"not a zip", "/pkg").err().unwrap();
    assert!(err.starts_with("invalid plugin package: "), "{}", err);
}

#[test]
fn a_manifest_that_is_not_text_is_refused() {
    let bytes = zip_of(&[("plugin.json", Some(&[0xff, 0xfe, 0x00]), 0o644)]);
    let err = read_manifest_text_from_zip_bytes(&bytes).unwrap_err();
    assert!(err.starts_with("failed to read plugin.json: "), "{}", err);
}

#[test]
fn extraction_plan_in_entry_order_with_modes() {
    let bytes = zip_of(&[
        ("plugin.json", Some(b"{}"), 0o600),
        ("runtime/", None, 0o755),
        ("runtime/server", Some(b"#!/bin/sh"), 0o644),
        ("runtime/app.wasm", Some(b"\0asm"), 0o644),
    ]);
    let plan = plan_plugin_zip_extraction(&bytes, "/pkg/com.demo/1.0.0").unwrap();
    assert_eq!(plan.error, None);
    assert_eq!(plan.ops.len(), 4);
    match &plan.ops[0] {
        ExtractOp::WriteFile { path, parent, data, mode } => {
            assert_eq!(path, "/pkg/com.demo/1.0.0/plugin.json");
            assert_eq!(parent.as_deref(), Some("/pkg/com.demo/1.0.0"));
            assert_eq!(data, b"{}");
            assert_eq!(mode & 0o777, 0o600);
        }
        other => panic!("unexpected {:?}", other),
    }
    assert_eq!(plan.ops[1], ExtractOp::CreateDir { path: "/pkg/com.demo/1.0.0/runtime/".to_string() });
    match &plan.ops[2] {
        ExtractOp::WriteFile { path, mode, .. } => {
            assert_eq!(path, "/pkg/com.demo/1.0.0/runtime/server");
            assert_eq!(mode & 0o777, 0o755);
        }
        other => panic!("unexpected {:?}", other),
    }
    match &plan.ops[3] {
        ExtractOp::WriteFile { mode, .. } => assert_eq!(mode & 0o777, 0o644),
        other => panic!("unexpected {:?}", other),
    }
}

#[test]
fn extraction_stops_at_an_escaping_entry() {
    let bytes = zip_of(&[
        ("a.txt", Some(b"a"), 0o644),
        ("../evil.txt", Some(b"x"), 0o644),
        ("b.txt", Some(b"b"), 0o644),
    ]);
    let plan = plan_plugin_zip_extraction(&bytes, "/pkg").unwrap();
    assert_eq!(plan.ops.len(), 1);
    assert_eq!(plan.error, Some("zip entry cannot escape package root: ../evil.txt".to_string()));
}

#[test]
fn unpacked_paths_stay_inside_the_package_directory() {
    let bytes = zip_of(&[
        ("a/b/c.txt", Some(b"c"), 0o644),
        ("d/", None, 0o755),
        ("e.txt", Some(b"e"), 0o644),
    ]);
    for target in ["/pkg/x/1.0", "/pkg/x/1.0/", "rel"] {
        let plan = plan_plugin_zip_extraction(&bytes, target).unwrap();
        assert_eq!(plan.ops.len(), 3);
        for op in &plan.ops {
            let path = match op {
                ExtractOp::CreateDir { path } => path,
                ExtractOp::WriteFile { path, .. } => path,
                ExtractOp::WriteFileKeepMode { path, .. } => path,
            };
            assert!(path.starts_with(target), "{} not under {}", path, target);
        }
    }
}

#[test]
fn a_readable_manifest_is_always_returned() {
    let bytes = zip_of(&[
        ("runtime/", None, 0o755),
        ("plugin.json", Some(b"{}"), 0o600),
    ]);
    assert_eq!(read_manifest_text_from_zip_bytes(&bytes), Ok("{}".to_string()));
}

#[test]
fn unsafe_entry_names_are_refused_with_their_reason() {
    let bytes = zip_of(&[("ok.txt", Some(b"1"), 0o644), ("../evil.txt", Some(b"x"), 0o644)]);
    let plan = plan_plugin_zip_extraction(&bytes, "/pkg").unwrap();
    assert_eq!(plan.ops.len(), 1);
    assert_eq!(plan.error, Some("zip entry cannot escape package root: ../evil.txt".to_string()));
    let bytes = zip_of(&[("/abs.txt", Some(b"x"), 0o644)]);
    let plan = plan_plugin_zip_extraction(&bytes, "/pkg").unwrap();
    assert_eq!(plan.ops.len(), 0);
    assert_eq!(plan.error, Some("zip entry cannot be absolute: /abs.txt".to_string()));
}

#[test]
fn stripped_extraction_skips_short_paths() {
    let bytes = zip_of(&[
        ("top/", None, 0o755),
        ("top/bin/", None, 0o755),
        ("top/bin/tool", Some(b"#!"), 0o755),
        ("top/README", Some(b"r"), 0o644),
        ("../escape", Some(b"e"), 0o644),
    ]);
    let plan = plan_zip_extraction_with_strip(&bytes, "a.zip", "/dest", 1).unwrap();
    assert_eq!(plan.error, None);
    assert_eq!(plan.steps.len(), 5);
    assert_eq!(plan.steps[0], None);
    assert_eq!(plan.steps[1], Some(ExtractOp::CreateDir { path: "/dest/bin".to_string() }));
    match &plan.steps[2] {
        Some(ExtractOp::WriteFile { path, parent, data, mode }) => {
            assert_eq!(path, "/dest/bin/tool");
            assert_eq!(parent.as_deref(), Some("/dest/bin"));
            assert_eq!(data, &b"#!".to_vec());
            assert_eq!(mode & 0o777, 0o755);
        }
        other => panic!("unexpected step {:?}", other),
    }
    assert!(matches!(&plan.steps[3], Some(ExtractOp::WriteFile { path, .. }) if path == "/dest/README"));
    assert_eq!(plan.steps[4], None);
    let whole = plan_zip_extraction_with_strip(&bytes, "a.zip", "/dest", 0).unwrap();
    assert_eq!(whole.steps[0], Some(ExtractOp::CreateDir { path: "/dest/top/".to_string() }));
    assert!(plan_zip_extraction_with_strip(b"nope", "a.zip", "/dest", 0)
        .unwrap_err()
        .starts_with("invalid zip 'a.zip': "));
}

fn tar_gz_of(entries: &[(&str, Option<&[u8]>)]) -> Vec<u8> {
    let encoder = flate2::write::GzEncoder::new(Vec::new(), flate2::Compression::default());
    let mut builder = tar::Builder::new(encoder);
    for (name, data) in entries {
        let mut header = tar::Header::new_gnu();
        match data {
            Some(bytes) => {
                header.set_size(bytes.len() as u64);
                header.set_mode(0o644);
                header.set_entry_type(tar::EntryType::Regular);
                builder.append_data(&mut header, name, *bytes).unwrap();
            }
            None => {
                header.set_size(0);
                header.set_mode(0o755);
                header.set_entry_type(tar::EntryType::Directory);
                builder.append_data(&mut header, name, std::io::empty()).unwrap();
            }
        }
    }
    builder.into_inner().unwrap().finish().unwrap()
}

#[test]
fn tar_gz_targets_follow_the_entries() {
    let bytes = tar_gz_of(&[("pkg/", None), ("pkg/bin/tool", Some(b"x")), ("top.txt", Some(b"t"))]);
    let plan = plan_tar_gz_targets(&bytes, "a.tgz", "/dest", 1);
    assert_eq!(plan.error, None);
    assert_eq!(plan.targets, vec![None, Some("/dest/bin/tool".to_string()), None]);
    let whole = plan_tar_gz_targets(&bytes, "a.tgz", "/dest", 0);
    assert_eq!(whole.targets.len(), 3);
    assert!(whole.targets[0].as_deref().unwrap().starts_with("/dest/pkg"));
    assert_eq!(whole.targets[1], Some("/dest/pkg/bin/tool".to_string()));
    assert_eq!(whole.targets[2], Some("/dest/top.txt".to_string()));
    let bad = plan_tar_gz_targets(b"not gzip", "a.tgz", "/dest", 0);
    assert!(bad.targets.is_empty());
    assert!(bad.error.is_some());
}

#[test]
fn gzip_single_unpacks_to_the_stem() {
    let mut encoder = flate2::write::GzEncoder::new(Vec::new(), flate2::Compression::default());
    encoder.write_all(b"hello").unwrap();
    let bytes = encoder.finish().unwrap();
    assert_eq!(
        plan_gzip_single("/dl/tool.gz", "/bin", &bytes),
        Ok(("/bin/tool".to_string(), b"hello".to_vec()))
    );
    assert!(plan_gzip_single("/dl/tool.gz", "/bin", b"junk")
        .unwrap_err()
        .starts_with("failed to decompress '/dl/tool.gz': "));
    assert_eq!(
        plan_gzip_single("/", "/bin", &bytes),
        Err("cannot determine output name for '/'".to_string())
    );
}

#[test]
fn an_entry_whose_data_cannot_be_read_stops_with_its_name() {
    let mut writer = zip::ZipWriter::new(std::io::Cursor::new(Vec::new()));
    let options = zip::write::SimpleFileOptions::default().compression_method(zip::CompressionMethod::Stored);
    writer.start_file("ok.txt", options).unwrap();
    writer.write_all(b"fine").unwrap();
    writer.start_file("bad.txt", options).unwrap();
    writer.write_all(b"hello").unwrap();
    let mut bytes = writer.finish().unwrap().into_inner();
    let at = bytes.windows(5).position(|w| w == b"hello").unwrap();
    bytes[at] = b'j';
    let plan = plan_plugin_zip_extraction(&bytes, "/pkg").unwrap();
    assert_eq!(plan.ops.len(), 1);
    assert!(plan.error.unwrap().starts_with("failed to read zip entry 'bad.txt': "));
}
