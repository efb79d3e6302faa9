use tars::page::{Page, TemplateContext};

#[test]
fn page_from_file_scenario() {
    let page = Page::from_file("content/a.md", "a.md", "---\ntitle: Hello\n---\n# Hi");
    assert_eq!(page.path, "content/a.md");
    assert_eq!(page.rel_path, "a.html");
    assert_eq!(page.meta.title.as_deref(), Some("Hello"));
    assert!(page.content.contains("<h1>Hi</h1>"));
}

#[test]
fn page_conversion_transforms_body() {
    let page = Page::from_file("b.md", "b.md", "*emphasis* text");
    assert_ne!(page.content, "*emphasis* text");
    assert!(page.content.contains("<em>emphasis</em>"));
}

#[test]
fn page_without_frontmatter_keeps_bare_metadata() {
    let page = Page::from_file("c.md", "sub/c.md", "plain body");
    assert_eq!(page.rel_path, "sub/c.html");
    assert!(page.meta.title.is_none());
    assert!(page.meta.template.is_none());
    assert!(!page.meta.draft);
}

#[test]
fn empty_body_converts_to_empty() {
    let page = Page::from_file("d.md", "d.md", "---\ntitle: T\n---");
    assert_eq!(page.content, "");
}

#[test]
fn template_context_merges_default() {
    let pages = vec![Page::from_file("a.md", "a.md", "---\ntitle: A\n---\nbody")];
    let ctx = TemplateContext::new(&pages, &pages[0], "default.html");
    assert_eq!(ctx.meta.template.as_deref(), Some("default.html"));
    assert_eq!(ctx.meta.title.as_deref(), Some("A"));
    assert_eq!(ctx.path, "a.html");
    assert_eq!(ctx.content, &pages[0].content);
    assert_eq!(ctx.pages.len(), 1);
}
