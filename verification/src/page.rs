//! Pages: one record per content file, with parsed metadata and the
//! converted body. Conversion from markup to HTML is the outside
//! converter's work; everything around it is exact.

use vstd::prelude::*;

use crate::frontmatter::FrontMatter;
use crate::frontmatter::FrontMatterV;
use crate::frontmatter::spec_bare_frontmatter;
use crate::frontmatter::spec_frontmatter_of;
use crate::frontmatter::spec_split_frontmatter;
use crate::frontmatter::split_frontmatter;
use crate::frontmatter::frontmatter_from_yaml;
use crate::strings::spec_swap_extension;
use crate::strings::swap_extension_html;

verus! {

/// What the outside converter renders a piece of markup to, as a function
/// of the text alone.
pub uninterp spec fn html_of(s: Seq<char>) -> Seq<char>;

/// Relies on pulldown_cmark's parser and HTML renderer: the output depends
/// on the input text alone, and an empty input renders to empty output.
#[verifier::external_body]
fn markdown_to_html(s: &str) -> (r: String)
    ensures
        r@ == html_of(s@),
        s@.len() == 0 ==> r@.len() == 0,
{
    let mut options = pulldown_cmark::Options::empty();
    options.insert(pulldown_cmark::Options::ENABLE_YAML_STYLE_METADATA_BLOCKS);
    let parser = pulldown_cmark::Parser::new_ext(s, options);
    let mut out = String::new();
    pulldown_cmark::html::push_html(&mut out, parser);
    out
}

/// One content file, loaded: its source path, its output-relative path
/// (extension swapped to the output extension), its metadata, and its
/// converted body. Pages are created once per build pass and discarded at
/// the start of every rebuild.
pub struct Page {
    pub path: String,
    pub rel_path: String,
    pub meta: FrontMatter,
    pub content: String,
}

/// Spec-level shape of a [`Page`].
pub struct PageV {
    pub path: Seq<char>,
    pub rel_path: Seq<char>,
    pub meta: FrontMatterV,
    pub content: Seq<char>,
}

impl View for Page {
    type V = PageV;

    open spec fn view(&self) -> PageV {
        PageV { path: self.path@, rel_path: self.rel_path@, meta: self.meta@, content: self.content@ }
    }
}

impl DeepView for Page {
    type V = PageV;

    open spec fn deep_view(&self) -> PageV {
        self.view()
    }
}

impl Page {
    /// The stored metadata obeys its invariants.
    pub open spec fn wf(&self) -> bool {
        self.meta.wf()
    }

    /// Turns one content file into a `Page`: splits the frontmatter block
    /// from the body, reads the metadata, converts the body, and swaps the
    /// relative path's extension for the output extension. `text` is the
    /// file's contents; `rel_path` is its path relative to the content root.
    pub fn from_file(path: &str, rel_path: &str, text: &str) -> (r: Page)
        ensures
            r.path@ == path@,
            r.rel_path@ == spec_swap_extension(rel_path@),
            r.content@ == html_of(spec_split_frontmatter(text@).1),
            r.meta@ == match spec_split_frontmatter(text@).0 {
                Some(block) => spec_frontmatter_of(block),
                None => spec_bare_frontmatter(),
            },
            r.meta.wf(),
    {
        let (fm_block, body) = split_frontmatter(text);
        let meta = match fm_block {
            Some(block) => frontmatter_from_yaml(block.as_str()),
            None => FrontMatter::default(),
        };
        let content = markdown_to_html(body.as_str());
        Page {
            path: String::from_str(path),
            rel_path: swap_extension_html(rel_path),
            meta,
            content,
        }
    }
}

/// The rendering context of one page: the full page list (for cross-page
/// links and indexes), the page's metadata with defaults applied, its
/// converted body, and its output-relative path.
pub struct TemplateContext<'a> {
    pub pages: &'a Vec<Page>,
    pub meta: FrontMatter,
    pub content: &'a String,
    pub path: &'a String,
}

impl<'a> TemplateContext<'a> {
    /// Builds the context in which `page` renders: the whole page list plus
    /// the page's own fields, its template defaulted to the site's.
    pub fn new(pages: &'a Vec<Page>, page: &'a Page, default_template: &str) -> (r: Self)
        ensures
            r.pages == pages,
            r.meta@ == (FrontMatterV {
                template: match page@.meta.template {
                    Some(t) => Some(t),
                    None => Some(default_template@),
                },
                ..page@.meta
            }),
            r.content@ == page@.content,
            r.path@ == page@.rel_path,
    {
        TemplateContext {
            pages,
            meta: page.meta.merge_with_default(default_template),
            content: &page.content,
            path: &page.rel_path,
        }
    }
}

} // verus!
