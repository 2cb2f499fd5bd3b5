use std::path::PathBuf;

use starchart::backend::fs::{entry_file, filename, resolve_key, resolve_keys, table_directory};
use starchart::backend::{
    BincodeBackend, FsBackend, FsErrorType, JsonBackend, JsonPrettyBackend, QueryStringBackend,
    RonBackend, RonPrettyBackend, TomlBackend, TomlPrettyBackend, YamlBackend,
};
use starchart::backends::fs::transcoders::{
    BinaryFormat, BinaryTranscoder, JsonTranscoder, TomlTranscoder, TranscoderFormat,
    YamlTranscoder,
};
use starchart::backends::fs::{FsBackend as TableFiles, FsError as TableFileError, Transcoder};

#[test]
fn filename_and_keys() {
    assert_eq!(filename("id".to_owned(), "json"), "id.json");
    assert_eq!(resolve_key("json", "id.json").unwrap(), "id");
    assert_eq!(resolve_key("json", "a.b.json").unwrap(), "a.b");
    let err = resolve_key("json", "id.toml").unwrap_err();
    assert!(matches!(err.kind, FsErrorType::InvalidFile { ref path } if *path == PathBuf::from("id.toml")));
    assert!(resolve_key("json", "json").is_err());
    assert!(resolve_key("json", ".json").is_err());
    assert!(resolve_key("", "..").is_err());
    assert_eq!(resolve_key("json", &filename("x".to_owned(), "json")).unwrap(), "x");
}

#[test]
fn resolve_keys_stops_at_first_invalid() {
    let names = vec!["a.yaml".to_owned(), "b.yaml".to_owned()];
    assert_eq!(resolve_keys("yaml", &names).unwrap(), vec!["a".to_owned(), "b".to_owned()]);
    let names = vec!["a.yaml".to_owned(), "b.txt".to_owned(), "c".to_owned()];
    let err = resolve_keys("yaml", &names).unwrap_err();
    assert!(matches!(err.kind, FsErrorType::InvalidFile { ref path } if *path == PathBuf::from("b.txt")));
    assert!(resolve_keys("yaml", &[]).unwrap().is_empty());
}

#[test]
fn entry_paths() {
    let base = PathBuf::from("/data");
    assert_eq!(table_directory(base.clone(), "users"), PathBuf::from("/data/users"));
    assert_eq!(entry_file(base, "users", "7", "ron"), PathBuf::from("/data/users/7.ron"));
}

#[test]
fn directory_backends() {
    let path = PathBuf::from("/data/json");
    let backend = JsonBackend::new(path.clone(), false).unwrap();
    assert_eq!(backend.base_directory(), path);
    let err = JsonBackend::new(path.clone(), true).unwrap_err();
    assert!(matches!(err.kind, FsErrorType::PathNotDirectory { ref path } if *path == PathBuf::from("/data/json")));
    assert!(err.source.is_none());
    assert_eq!(err.to_string(), "path /data/json is not a directory");
    assert!(JsonPrettyBackend::new(path.clone(), false).is_ok());
    assert!(TomlBackend::new(path.clone(), true).is_err());
    assert!(TomlPrettyBackend::new(path.clone(), false).is_ok());
    assert!(RonBackend::new(path.clone(), false).is_ok());
    assert!(RonPrettyBackend::new(path.clone(), true).is_err());
    assert!(YamlBackend::new(path.clone(), false).is_ok());
    assert!(QueryStringBackend::new(path.clone(), false).is_ok());
    let bin = BincodeBackend::new(path.clone(), false).unwrap();
    assert_eq!(bin.base_directory(), path);
    assert!(BincodeBackend::with_options(path, bincode::DefaultOptions::new(), true).is_err());
    assert_eq!(<JsonBackend as FsBackend>::EXTENSION, "json");
    assert_eq!(<QueryStringBackend as FsBackend>::EXTENSION, "qs");
    assert_eq!(<BincodeBackend<bincode::DefaultOptions> as FsBackend>::EXTENSION, "bin");
}

#[test]
fn transcoders() {
    assert!(JsonTranscoder::pretty().is_pretty());
    assert!(JsonTranscoder::standard().is_standard());
    assert!(JsonTranscoder::default().is_standard());
    assert!(!JsonTranscoder::new(TranscoderFormat::Pretty).is_standard());
    assert_eq!(TranscoderFormat::default(), TranscoderFormat::Standard);
    assert!(TomlTranscoder::new(true).is_pretty());
    assert!(!TomlTranscoder::default().is_pretty());
    let bin = BinaryTranscoder::new(BinaryFormat::Cbor);
    assert!(bin.is_cbor());
    assert!(!bin.is_bincode());
    assert_eq!(bin.format(), BinaryFormat::Cbor);
    assert_eq!(JsonTranscoder::default().extension(), "json");
    assert_eq!(YamlTranscoder::new().extension(), "yaml");
    assert_eq!(TomlTranscoder::new(false).extension(), "toml");
    assert_eq!(bin.extension(), "bin");
}

#[test]
fn table_file_backend() {
    let base = PathBuf::from("/srv/db");
    let backend = TableFiles::new(YamlTranscoder::new(), base.clone(), false).unwrap();
    assert_eq!(backend.base_directory(), &base);
    assert_eq!(backend.extension(), "yaml");
    assert_eq!(backend.table_path("users"), PathBuf::from("/srv/db/users.yaml"));
    let err = TableFiles::new(JsonTranscoder::default(), base, true).unwrap_err();
    assert_eq!(err.to_string(), "path /srv/db is not a directory");
    let serde = TableFileError::serde(None);
    assert_eq!(serde.to_string(), "a (de)serialization error occurred");
    assert!(serde.into_source().is_none());
    let io = TableFileError::io("disk".to_owned());
    assert_eq!(io.to_string(), "an IO error occurred");
}
