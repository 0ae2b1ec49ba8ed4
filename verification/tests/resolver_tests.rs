use onewipe::paths::{
    coerce_to_json, default_output_sentinel, extension_dot, has_json_extension, join_dir,
    resolve_output_path, rfind_char, timestamp_log_name,
};

#[test]
fn rfind_finds_last_occurrence() {
    assert_eq!(rfind_char("a/b/c", '/'), Some(3));
    assert_eq!(rfind_char("abc", '/'), None);
    assert_eq!(rfind_char("a.b.c", '.'), Some(3));
    assert_eq!(rfind_char("", '.'), None);
}

#[test]
fn extension_detection() {
    assert_eq!(extension_dot("report.txt"), Some(6));
    assert_eq!(extension_dot("archive.tar.gz"), Some(11));
    assert_eq!(extension_dot("noext"), None);
    // A name beginning with its only dot has no extension.
    assert_eq!(extension_dot(".hidden"), None);
    assert_eq!(extension_dot("dir/.hidden"), None);
    // A dot in a directory component is not an extension.
    assert_eq!(extension_dot("a.b/c"), None);
    assert_eq!(extension_dot("logs/wipe_log.json"), Some(13));
}

#[test]
fn json_extension_detection() {
    assert!(has_json_extension("out/report.json"));
    assert!(!has_json_extension("out/report.txt"));
    assert!(!has_json_extension("report"));
    assert!(!has_json_extension(".json"));
    assert!(!has_json_extension("report.jso"));
    assert!(!has_json_extension("report.jsonx"));
}

#[test]
fn coercion_replaces_extension() {
    assert_eq!(coerce_to_json("report.txt"), "report.json");
    assert_eq!(coerce_to_json("a/b/report.tar.gz"), "a/b/report.tar.json");
    assert_eq!(coerce_to_json("x.j"), "x.json");
}

#[test]
fn join_dir_inserts_separator() {
    assert_eq!(join_dir("logs", "wipe_x.json"), "logs/wipe_x.json");
}

#[test]
fn resolver_is_idempotent_on_explicit_json_path() {
    // An explicit non-default, non-directory ".json" path resolves to
    // itself, so resolving it twice yields the same final path both times.
    let first = resolve_output_path("out/report.json", false);
    let second = resolve_output_path("out/report.json", false);
    assert_eq!(first.final_path, "out/report.json");
    assert_eq!(second.final_path, "out/report.json");
    assert_eq!(first.final_path, second.final_path);
    assert!(!first.coerced);
    assert!(first.create_dir.is_none());
}

#[test]
fn resolver_always_yields_json_path() {
    let cases: Vec<(&str, bool)> = vec![
        ("logs/wipe_log.json", false),
        ("somedir", false),
        ("somedir", true),
        ("existing.dir", true),
        ("report.txt", false),
        ("out/report.json", false),
    ];
    for (requested, is_dir) in cases {
        let r = resolve_output_path(requested, is_dir);
        assert!(
            r.final_path.ends_with(".json"),
            "resolution of {requested} was {}",
            r.final_path
        );
    }
}

#[test]
fn resolver_coerces_foreign_extension() {
    let r = resolve_output_path("out/report.txt", false);
    assert_eq!(r.final_path, "out/report.json");
    assert!(r.coerced);
    assert!(r.create_dir.is_none());
}

#[test]
fn resolver_treats_extensionless_path_as_directory() {
    let r = resolve_output_path("outdir", false);
    assert_eq!(r.create_dir.as_deref(), Some("outdir"));
    assert!(r.final_path.starts_with("outdir/wipe_"));
    assert!(r.final_path.ends_with(".json"));
    assert!(!r.coerced);

    let r = resolve_output_path("marked.dir", true);
    assert_eq!(r.create_dir.as_deref(), Some("marked.dir"));
    assert!(r.final_path.starts_with("marked.dir/wipe_"));
    assert!(r.final_path.ends_with(".json"));
}

#[test]
fn resolver_default_sentinel_gets_timestamped_name() {
    let sentinel = default_output_sentinel();
    assert_eq!(sentinel, "logs/wipe_log.json");
    let r = resolve_output_path(&sentinel, false);
    assert_eq!(r.create_dir.as_deref(), Some("logs"));
    assert!(r.final_path.starts_with("logs/wipe_"));
    assert!(r.final_path.ends_with(".json"));
    assert_ne!(r.final_path, "logs/wipe_log.json");
}

#[test]
fn default_sentinel_two_runs_use_timestamped_names() {
    // Two runs with the output path omitted each get a timestamp-based name
    // at seconds resolution. Two resolutions within the same second yield
    // the same name: that collision is a documented limitation of the
    // scheme, not a silent overwrite of an older log from a distinct second.
    let a = resolve_output_path("logs/wipe_log.json", false);
    let b = resolve_output_path("logs/wipe_log.json", false);
    assert!(a.final_path.starts_with("logs/wipe_"));
    assert!(b.final_path.starts_with("logs/wipe_"));
    assert!(a.final_path.ends_with(".json"));
    assert!(b.final_path.ends_with(".json"));
    // Neither run can land on the fixed sentinel name, so runs from
    // different seconds never collide with each other or with it.
    assert_ne!(a.final_path, "logs/wipe_log.json");
    assert_ne!(b.final_path, "logs/wipe_log.json");
}

#[test]
fn timestamp_name_is_wipe_prefixed_json() {
    let name = timestamp_log_name();
    assert!(name.starts_with("wipe_"));
    assert!(name.ends_with(".json"));
    assert!(name.len() >= 10);
    assert!(!name.contains('/'));
}
