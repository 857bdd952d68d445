use hdricalibrationtool::command::StdoutSpec;
use hdricalibrationtool::image_cache::{
    cache_converted, cache_probe, cached_artifact, conversion_command, dcraw_base_args,
    dcraw_context, fingerprint, CacheAction, Tool,
};

fn tool() -> Tool {
    Tool {
        program: "/opt/raw/dcraw_emu".to_string(),
        working_dir: Some("/opt/raw".to_string()),
    }
}

#[test]
fn context_names_converter_and_flags() {
    assert_eq!(dcraw_base_args().len(), 14);
    assert_eq!(dcraw_context(), "dcraw_emu|-T -o 1 -W -j -q 3 -g 2 0 -t 0 -b 1.1");
}

#[test]
fn fingerprint_is_hex_digest_of_content_and_context() {
    let a = fingerprint(b"raw bytes", "ctx");
    assert_eq!(a.len(), 64);
    assert!(a.chars().all(|c| c.is_ascii_hexdigit() && !c.is_ascii_uppercase()));
    assert_eq!(a, fingerprint(b"raw bytes", "ctx"));
    assert_ne!(a, fingerprint(b"raw bytez", "ctx"));
    assert_ne!(a, fingerprint(b"raw bytes", "ctz"));
    assert_ne!(a, "raw bytesctx");
}

#[test]
fn same_bytes_same_artifact() {
    let one = cached_artifact("/cache", b"abc");
    let two = cached_artifact("/cache", b"abc");
    assert_eq!(one, two);
    assert!(one.starts_with("/cache/") && one.ends_with(".tiff"));
    assert_ne!(one, cached_artifact("/cache", b"abd"));
}

#[test]
fn non_empty_artifact_is_a_hit() {
    let artifact = cached_artifact("/cache", b"abc");
    match cache_probe(&tool(), "/shots/a.CR2", &artifact, Some(10)) {
        CacheAction::Finish(Ok(p)) => assert_eq!(p, artifact),
        _ => panic!("expected a hit"),
    }
}

#[test]
fn missing_or_empty_artifact_is_converted() {
    let artifact = cached_artifact("/cache", b"abc");
    for size in [None, Some(0)] {
        match cache_probe(&tool(), "/shots/a.CR2", &artifact, size) {
            CacheAction::Convert(spec) => {
                assert_eq!(spec.program, "/opt/raw/dcraw_emu");
                assert_eq!(spec.working_dir, Some("/opt/raw".to_string()));
                let n = spec.args.len();
                assert_eq!(spec.args[n - 3..], ["-Z".to_string(), artifact.clone(), "/shots/a.CR2".to_string()]);
            }
            _ => panic!("expected a conversion"),
        }
    }
}

#[test]
fn failed_conversion_discards_artifact() {
    let artifact = cached_artifact("/cache", b"abc");
    match cache_converted(&artifact, false) {
        CacheAction::Discard { path, error } => {
            assert_eq!(path, artifact);
            assert_eq!(
                error,
                "Error, non-zero exit status. dcraw_emu command (converting to tiff images) failed."
            );
        }
        _ => panic!("expected a discard"),
    }
    assert!(matches!(cache_converted(&artifact, true), CacheAction::Finish(Ok(ref p)) if *p == artifact));
}

#[test]
fn conversion_command_is_exact() {
    let spec = conversion_command(&tool(), "/in.NEF", "/out.tiff");
    assert_eq!(
        spec.args,
        vec!["-T", "-o", "1", "-W", "-j", "-q", "3", "-g", "2", "0", "-t", "0", "-b", "1.1", "-Z", "/out.tiff", "/in.NEF"]
    );
    assert!(matches!(spec.stdout, StdoutSpec::Inherit));
}
