use std::io::{Cursor, Write};

use helix_lsp::catalog::{
    extract_registry, load_step, registry_asset_url, Asset, LoadAction, LoadError, LoadEvent,
    LoadPhase, Release, REGISTRY_ASSET, REGISTRY_FILE,
};
use zip::write::SimpleFileOptions;
use zip::{CompressionMethod, ZipWriter};

fn asset(name: &str, url: &str) -> Asset {
    Asset { name: name.to_string(), browser_download_url: url.to_string() }
}

fn archive(entries: &[(&str, &str)], method: CompressionMethod) -> Vec<u8> {
    let mut writer = ZipWriter::new(Cursor::new(Vec::new()));
    let options = SimpleFileOptions::default().compression_method(method);
    for (name, text) in entries {
        writer.start_file(*name, options).unwrap();
        writer.write_all(text.as_bytes()).unwrap();
    }
    writer.finish().unwrap().into_inner()
}

const DOC: &str = r#"[{"name":"rust-analyzer","description":"Rust language server"}]"#;

#[test]
fn asset_url_of_first_registry_asset() {
    let release = Release {
        tag_name: "2024-01-01".to_string(),
        assets: vec![
            asset("checksums.txt", "https://example.org/sums"),
            asset("registry.json.zip", "https://example.org/first"),
            asset("registry.json.zip", "https://example.org/second"),
        ],
    };
    assert_eq!(registry_asset_url(&release), Ok("https://example.org/first".to_string()));
    assert_eq!(REGISTRY_ASSET, "registry.json.zip");
}

#[test]
fn missing_asset_is_an_acquisition_error() {
    let release = Release {
        tag_name: "t".to_string(),
        assets: vec![asset("registry.json", "u"), asset("registry.json.zip.sig", "v")],
    };
    assert_eq!(registry_asset_url(&release), Err(LoadError::Acquisition));
    let empty = Release { tag_name: "t".to_string(), assets: Vec::new() };
    assert_eq!(registry_asset_url(&empty), Err(LoadError::Acquisition));
}

#[test]
fn extracts_registry_document() {
    let stored = archive(&[("other.txt", "x"), (REGISTRY_FILE, DOC)], CompressionMethod::Stored);
    assert_eq!(extract_registry(&stored), Ok(DOC.to_string()));
    let deflated = archive(&[(REGISTRY_FILE, DOC)], CompressionMethod::Deflated);
    assert_eq!(extract_registry(&deflated), Ok(DOC.to_string()));
}

#[test]
fn archive_without_document_is_an_acquisition_error() {
    let bytes = archive(&[("registry.yaml", "x")], CompressionMethod::Stored);
    assert_eq!(extract_registry(&bytes), Err(LoadError::Acquisition));
}

#[test]
fn malformed_archive_is_an_acquisition_error() {
    assert_eq!(extract_registry(&b"not a zip archive".to_vec()), Err(LoadError::Acquisition));
    assert_eq!(extract_registry(&Vec::new()), Err(LoadError::Acquisition));
}

#[test]
fn cache_present_reads_without_refresh() {
    let (phase, action) = load_step(LoadPhase::Start, LoadEvent::CacheChecked { exists: true });
    assert_eq!((phase, action), (LoadPhase::Reading, LoadAction::ReadCache));
    let (phase, action) = load_step(phase, LoadEvent::Parsed);
    assert_eq!((phase, action), (LoadPhase::Browsing, LoadAction::Browse));
}

#[test]
fn cache_missing_refreshes_once_and_aborts_on_failure() {
    let events = [
        LoadEvent::CacheChecked { exists: false },
        LoadEvent::Refreshed { ok: false },
        LoadEvent::CacheChecked { exists: false },
        LoadEvent::Parsed,
    ];
    let mut phase = LoadPhase::Start;
    let mut actions = Vec::new();
    for event in events {
        let (next, action) = load_step(phase, event);
        phase = next;
        actions.push(action);
    }
    let refreshes = actions.iter().filter(|a| **a == LoadAction::Refresh).count();
    assert_eq!(refreshes, 1);
    assert!(!actions.contains(&LoadAction::Browse));
    assert_eq!(actions[1], LoadAction::Abort(LoadError::Acquisition));
    assert_eq!(phase, LoadPhase::Aborted(LoadError::Acquisition));
}

#[test]
fn cache_missing_refresh_then_read() {
    let (p, a) = load_step(LoadPhase::Start, LoadEvent::CacheChecked { exists: false });
    assert_eq!((p, a), (LoadPhase::Refreshing, LoadAction::Refresh));
    let (p, a) = load_step(p, LoadEvent::Refreshed { ok: true });
    assert_eq!((p, a), (LoadPhase::Reading, LoadAction::ReadCache));
    let (p, a) = load_step(p, LoadEvent::Parsed);
    assert_eq!((p, a), (LoadPhase::Browsing, LoadAction::Browse));
}

#[test]
fn read_and_parse_failures_abort() {
    let (p, a) = load_step(LoadPhase::Reading, LoadEvent::CacheUnreadable);
    assert_eq!((p, a), (LoadPhase::Aborted(LoadError::CacheRead), LoadAction::Abort(LoadError::CacheRead)));
    let (p, a) = load_step(LoadPhase::Reading, LoadEvent::ParseFailed);
    assert_eq!((p, a), (LoadPhase::Aborted(LoadError::Parse), LoadAction::Abort(LoadError::Parse)));
    let (p, a) = load_step(LoadPhase::Browsing, LoadEvent::Refreshed { ok: true });
    assert_eq!((p, a), (LoadPhase::Browsing, LoadAction::Wait));
}
