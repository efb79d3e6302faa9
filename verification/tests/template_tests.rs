use tars::errors::SiteError;
use tars::template::TemplateEnvironment;

fn env_with(entries: &[(&str, &str)]) -> TemplateEnvironment {
    let mut env = TemplateEnvironment::new();
    env.load_templates(
        entries.iter().map(|(n, s)| (String::from(*n), String::from(*s))).collect(),
    );
    env
}

#[test]
fn empty_registry_has_nothing() {
    let env = TemplateEnvironment::new();
    assert!(!env.contains_template("default.html"));
    assert!(env.render_template("default.html").is_err());
}

#[test]
fn registered_templates_resolve() {
    let env = env_with(&[("default.html", "<body>{{ content }}</body>"), ("alt.html", "x")]);
    assert!(env.contains_template("default.html"));
    assert!(env.contains_template("alt.html"));
    assert!(!env.contains_template("other.html"));
    assert_eq!(env.render_template("default.html").unwrap(), "<body>{{ content }}</body>");
    assert_eq!(env.render_template("alt.html").unwrap(), "x");
}

#[test]
fn unknown_template_reports_its_name() {
    let env = env_with(&[("default.html", "d")]);
    match env.render_template("missing.html") {
        Err(SiteError::TemplateNotFound { name }) => assert_eq!(name, "missing.html"),
        _ => panic!("expected a missing template"),
    }
}

#[test]
fn reload_replaces_the_registry() {
    let mut env = env_with(&[("a.html", "a")]);
    assert!(env.contains_template("a.html"));
    env.load_templates(vec![(String::from("b.html"), String::from("b"))]);
    assert!(!env.contains_template("a.html"));
    assert!(env.contains_template("b.html"));
}

#[test]
fn error_kind_labels() {
    assert_eq!(SiteError::Io.kind_label(), "io");
    assert_eq!(SiteError::Config.kind_label(), "config");
    assert_eq!(SiteError::Watch.kind_label(), "watch");
    assert_eq!(SiteError::Network.kind_label(), "network");
    assert_eq!(
        SiteError::Conversion { name: String::from("f.md") }.kind_label(),
        "conversion"
    );
    assert_eq!(
        SiteError::IntegrityMismatch { name: String::from("p") }.kind_label(),
        "integrity_mismatch"
    );
}
