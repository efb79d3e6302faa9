use tars::errors::SiteError;
use tars::plugin::{
    digest_hex, exit_outcome, hex_string, next_hook, plugin_args, resolve_check, HookKind, Plugin,
};

fn plugin(hook: HookKind, name: &str, hash: &str, extra: &[(&str, &str)]) -> Plugin {
    Plugin {
        hook,
        name: String::from(name),
        hash: String::from(hash),
        extra: extra.iter().map(|(k, v)| (String::from(*k), String::from(*v))).collect(),
    }
}

#[test]
fn hex_encoding_is_two_lowercase_digits_per_byte() {
    assert_eq!(hex_string(&vec![]), "");
    assert_eq!(hex_string(&vec![0x00, 0x0f, 0xbe, 0xef]), "000fbeef");
    assert_eq!(hex_string(&vec![255]), "ff");
}

#[test]
fn sha256_digest_of_known_inputs() {
    assert_eq!(
        digest_hex(b"abc"),
        "ba7816bf8f01cfea414140de5dae2223b00361a396177a9cb410ff61f20015ad"
    );
    assert_eq!(
        digest_hex(b""),
        "e3b0c44298fc1c149afbf4c8996fb92427ae41e4649b934ca495991b7852b855"
    );
}

#[test]
fn resolve_check_matching_hash_succeeds() {
    let trusted = digest_hex(b"binary contents");
    assert!(resolve_check("gen", b"binary contents", &trusted, false).is_ok());
}

#[test]
fn resolve_check_mismatch_fails_with_integrity_error() {
    let trusted = digest_hex(b"binary contents");
    let r = resolve_check("gen", b"tampered contents", &trusted, false);
    match r {
        Err(SiteError::IntegrityMismatch { name }) => assert_eq!(name, "gen"),
        _ => panic!("expected an integrity mismatch"),
    }
}

#[test]
fn resolve_check_skip_ignores_hash() {
    assert!(resolve_check("gen", b"anything", "not-a-digest", true).is_ok());
}

#[test]
fn exit_outcome_cases() {
    assert!(exit_outcome("p", Some(0)).is_ok());
    match exit_outcome("p", Some(3)) {
        Err(SiteError::PluginExecutionFailed { code }) => assert_eq!(code, 3),
        _ => panic!("expected an execution failure"),
    }
    match exit_outcome("p", None) {
        Err(SiteError::PluginNoExitCode { name }) => assert_eq!(name, "p"),
        _ => panic!("expected a missing exit code"),
    }
}

#[test]
fn plugin_args_formats_key_value_tokens() {
    let p = plugin(HookKind::Pre, "gen", "h", &[("mode", "fast"), ("out", "x/y")]);
    assert_eq!(plugin_args(&p), vec![String::from("mode=fast"), String::from("out=x/y")]);
    let empty = plugin(HookKind::Pre, "gen", "h", &[]);
    assert!(plugin_args(&empty).is_empty());
}

#[test]
fn next_hook_finds_by_phase_in_order() {
    let plugins = vec![
        plugin(HookKind::Post, "p0", "h", &[]),
        plugin(HookKind::Pre, "p1", "h", &[]),
        plugin(HookKind::Post, "p2", "h", &[]),
    ];
    assert_eq!(next_hook(&plugins, 0, HookKind::Pre), 1);
    assert_eq!(next_hook(&plugins, 0, HookKind::Post), 0);
    assert_eq!(next_hook(&plugins, 1, HookKind::Post), 2);
    assert_eq!(next_hook(&plugins, 3, HookKind::Post), 3);
    assert_eq!(next_hook(&plugins, 2, HookKind::Pre), 3);
}
