use rkl::image_config::ImageConfig;
use rkl::ioprio::{ioprio_prio_class, ioprio_prio_data, ioprio_prio_value, ioprio_valid, IOPRIO_CLASS_BE};
use rkl::text::{parse_i32, path_base_name};
use rkl::upload::UploadSession;

#[test]
fn image_config_tables_replace_values() {
    let mut cfg = ImageConfig::new();
    cfg.add_label("a".to_string(), "1".to_string());
    cfg.add_label("b".to_string(), "2".to_string());
    cfg.add_label("a".to_string(), "3".to_string());
    assert_eq!(cfg.labels, vec![("a".to_string(), "3".to_string()), ("b".to_string(), "2".to_string())]);
    cfg.add_envp("PATH".to_string(), "/bin".to_string());
    cfg.add_envp("HOME".to_string(), "/root".to_string());
    assert_eq!(cfg.env_entries(), vec!["PATH=/bin".to_string(), "HOME=/root".to_string()]);
    cfg.set_entrypoint(vec!["/init".to_string()]);
    cfg.set_cmd(vec!["sh".to_string(), "-c".to_string()]);
    assert_eq!(cfg.entrypoint, Some(vec!["/init".to_string()]));
    assert_eq!(cfg.cmd.as_ref().map(|c| c.len()), Some(2));
}

#[test]
fn ioprio_encoding() {
    let v = ioprio_prio_value(IOPRIO_CLASS_BE, 4);
    assert_eq!(v, 16388);
    assert_eq!(ioprio_prio_class(v), 2);
    assert_eq!(ioprio_prio_data(v), 4);
    assert!(ioprio_valid(v));
    assert!(!ioprio_valid(8191));
}

#[test]
fn upload_progress() {
    let mut s = UploadSession::new();
    s.record_chunk(10);
    assert_eq!((s.length, s.uploaded), (10, 9));
    s.record_chunk(5);
    assert_eq!((s.length, s.uploaded), (15, 14));
}

#[test]
fn integer_text() {
    assert_eq!(parse_i32("0"), Some(0));
    assert_eq!(parse_i32("-17"), Some(-17));
    assert_eq!(parse_i32("+5"), Some(5));
    assert_eq!(parse_i32("007"), Some(7));
    assert_eq!(parse_i32(""), None);
    assert_eq!(parse_i32("-"), None);
    assert_eq!(parse_i32(" 1"), None);
    assert_eq!(parse_i32("1a"), None);
    assert_eq!(parse_i32("-2147483649"), None);
    for s in ["12", "-2147483648", "2147483647", "+0", "99999999999", "--1"] {
        assert_eq!(parse_i32(s), s.parse::<i32>().ok());
    }
}

#[test]
fn path_base_names_follow_file_name() {
    assert_eq!(path_base_name("/a/b"), "b");
    assert_eq!(path_base_name("/a/b/"), "b");
    assert_eq!(path_base_name("/a/b/./"), "b");
    assert_eq!(path_base_name("/a/b//."), "b");
    assert_eq!(path_base_name("/a/.."), "unknown");
    assert_eq!(path_base_name("/"), "unknown");
    assert_eq!(path_base_name(""), "unknown");
    for p in ["/x/y", "/x/y/", "/x/y/.", "rel/z//", "/x/.."] {
        let expected = std::path::Path::new(p).file_name().and_then(|s| s.to_str()).unwrap_or("unknown");
        assert_eq!(path_base_name(p), expected);
    }
}
