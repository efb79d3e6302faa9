//! Frontmatter: the structured metadata block at the start of a content
//! file. Splitting the block from the body is exact character work; reading
//! its fields goes through the YAML value tree of an outside parser.

use vstd::prelude::*;

use crate::strings::spec_trim_start;
use crate::strings::trim_start;

verus! {

/// A calendar date as plain values. What only a date library can decide
/// (parsing) happens behind a wrapper; the stored fields obey the ranges
/// the wrapper guarantees.
#[derive(Clone, Copy, PartialEq, Eq, Structural, Debug)]
pub struct PageDate {
    pub year: i32,
    pub month: u32,
    pub day: u32,
}

impl PageDate {
    /// Month and day are in calendar range.
    pub open spec fn valid(&self) -> bool {
        1 <= self.month <= 12 && 1 <= self.day <= 31
    }
}

/// Page metadata parsed from the frontmatter block. Every field except
/// `draft` is optional; `draft` defaults to false. The template is the one
/// the frontmatter names, or `None` when it names none — the site default
/// is applied at render time.
pub struct FrontMatter {
    pub title: Option<String>,
    pub date: Option<PageDate>,
    pub author: Option<String>,
    pub page_type: Option<String>,
    pub draft: bool,
    pub template: Option<String>,
    pub tags: Option<Vec<String>>,
    pub slug: Option<String>,
    pub summary: Option<String>,
    pub cover_image: Option<String>,
}

/// Spec-level shape of [`FrontMatter`].
pub struct FrontMatterV {
    pub title: Option<Seq<char>>,
    pub date: Option<PageDate>,
    pub author: Option<Seq<char>>,
    pub page_type: Option<Seq<char>>,
    pub draft: bool,
    pub template: Option<Seq<char>>,
    pub tags: Option<Seq<Seq<char>>>,
    pub slug: Option<Seq<char>>,
    pub summary: Option<Seq<char>>,
    pub cover_image: Option<Seq<char>>,
}

impl View for FrontMatter {
    type V = FrontMatterV;

    open spec fn view(&self) -> FrontMatterV {
        FrontMatterV {
            title: self.title.deep_view(),
            date: self.date,
            author: self.author.deep_view(),
            page_type: self.page_type.deep_view(),
            draft: self.draft,
            template: self.template.deep_view(),
            tags: self.tags.deep_view(),
            slug: self.slug.deep_view(),
            summary: self.summary.deep_view(),
            cover_image: self.cover_image.deep_view(),
        }
    }
}

/// The all-unset metadata value.
pub open spec fn spec_bare_frontmatter() -> FrontMatterV {
    FrontMatterV {
        title: None,
        date: None,
        author: None,
        page_type: None,
        draft: false,
        template: None,
        tags: None,
        slug: None,
        summary: None,
        cover_image: None,
    }
}

impl FrontMatter {
    /// Whether the stored metadata obeys its invariants.
    pub open spec fn wf(&self) -> bool {
        self.date matches Some(d) ==> d.valid()
    }

    /// Fills unset fields with their defaults; the template falls back to
    /// the given name — the site's configured default template.
    pub fn merge_with_default(&self, default_template: &str) -> (r: FrontMatter)
        ensures
            r@ == (FrontMatterV {
                template: match self@.template {
                    Some(t) => Some(t),
                    None => Some(default_template@),
                },
                ..self@
            }),
    {
        FrontMatter {
            title: clone_opt_string(&self.title),
            date: self.date,
            author: clone_opt_string(&self.author),
            page_type: clone_opt_string(&self.page_type),
            draft: self.draft,
            template: match &self.template {
                Some(t) => Some(t.clone()),
                None => Some(String::from_str(default_template)),
            },
            tags: clone_opt_tags(&self.tags),
            slug: clone_opt_string(&self.slug),
            summary: clone_opt_string(&self.summary),
            cover_image: clone_opt_string(&self.cover_image),
        }
    }
}

impl Default for FrontMatter {
    fn default() -> (r: Self)
        ensures
            r@ == spec_bare_frontmatter(),
    {
        FrontMatter {
            title: None,
            date: None,
            author: None,
            page_type: None,
            draft: false,
            template: None,
            tags: None,
            slug: None,
            summary: None,
            cover_image: None,
        }
    }
}

fn clone_opt_string(o: &Option<String>) -> (r: Option<String>)
    ensures
        r.deep_view() == o.deep_view(),
{
    match o {
        Some(s) => Some(s.clone()),
        None => None,
    }
}

fn clone_opt_tags(o: &Option<Vec<String>>) -> (r: Option<Vec<String>>)
    ensures
        r.deep_view() == o.deep_view(),
{
    match o {
        Some(v) => {
            let mut out: Vec<String> = Vec::new();
            let mut i: usize = 0;
            proof {
                assert(out@ =~= v@.take(0));
            }
            while i < v.len()
                invariant
                    i <= v@.len(),
                    out@ == v@.take(i as int),
                decreases v@.len() - i,
            {
                out.push(v[i].clone());
                proof {
                    assert(out@ =~= v@.take(i as int + 1));
                }
                i += 1;
            }
            proof {
                assert(v@.take(v@.len() as int) =~= v@);
            }
            Some(out)
        },
        None => None,
    }
}

/// The frontmatter delimiter `---` starts at position `i`.
pub open spec fn has_marker_at(t: Seq<char>, i: int) -> bool {
    &&& 0 <= i
    &&& i + 3 <= t.len()
    &&& t[i] == '-'
    &&& t[i + 1] == '-'
    &&& t[i + 2] == '-'
}

/// The first delimiter position at or after `i`, if any.
pub open spec fn first_marker_from(t: Seq<char>, i: int) -> Option<int>
    decreases t.len() - i,
{
    if i + 3 > t.len() {
        None
    } else if has_marker_at(t, i) {
        Some(i)
    } else {
        first_marker_from(t, i + 1)
    }
}

/// How a content file splits: the frontmatter block between the leading
/// `---` delimiters (if both are present), and the remaining body.
pub open spec fn spec_split_frontmatter(s: Seq<char>) -> (Option<Seq<char>>, Seq<char>) {
    let t = spec_trim_start(s);
    if has_marker_at(t, 0) {
        match first_marker_from(t, 3) {
            Some(e) => (Some(t.subrange(3, e)), t.skip(e + 3)),
            None => (None, t),
        }
    } else {
        (None, t)
    }
}

fn marker_at(s: &str, i: usize) -> (r: bool)
    requires
        i + 3 <= s@.len(),
        s@.len() <= usize::MAX,
    ensures
        r == has_marker_at(s@, i as int),
{
    s.get_char(i) == '-' && s.get_char(i + 1) == '-' && s.get_char(i + 2) == '-'
}

/// Splits the frontmatter block from the body of a content file. The text
/// is trimmed of leading whitespace first; without a complete pair of
/// `---` delimiters the whole text is the body.
pub fn split_frontmatter(content: &str) -> (r: (Option<String>, String))
    ensures
        r.0.deep_view() == spec_split_frontmatter(content@).0,
        r.1@ == spec_split_frontmatter(content@).1,
{
    let t = trim_start(content);
    let ts = t.as_str();
    let n = ts.unicode_len();
    if n >= 3 && marker_at(ts, 0) {
        let mut i: usize = 3;
        while i <= n - 3
            invariant
                3 <= i,
                i <= n,
                n == ts@.len(),
                n >= 3,
                ts@ == spec_trim_start(content@),
                has_marker_at(ts@, 0),
                first_marker_from(ts@, 3) == first_marker_from(ts@, i as int),
            decreases n - i,
        {
            if marker_at(ts, i) {
                let fm = String::from_str(ts.substring_char(3, i));
                let body = String::from_str(ts.substring_char(i + 3, n));
                proof {
                    assert(has_marker_at(ts@, i as int));
                    assert(first_marker_from(ts@, i as int) == Some(i as int));
                    assert(spec_split_frontmatter(content@).0 == Some(
                        ts@.subrange(3, i as int),
                    ));
                    assert(spec_split_frontmatter(content@).1 == ts@.skip(i as int + 3));
                    assert(fm@ =~= ts@.subrange(3, i as int));
                    assert(body@ =~= ts@.skip(i as int + 3));
                }
                return (Some(fm), body);
            }
            i += 1;
        }
        proof {
            assert(first_marker_from(ts@, i as int) is None);
        }
        (None, t)
    } else {
        proof {
            if n < 3 {
                assert(!has_marker_at(ts@, 0));
            }
        }
        (None, t)
    }
}

/// What a date string parses to, as chrono parses it.
pub uninterp spec fn date_of(s: Seq<char>) -> Option<(i32, u32, u32)>;

/// Relies on chrono's `NaiveDate` string parse (ISO 8601 calendar dates):
/// the result is a function of the characters alone, and `Datelike`
/// documents months in 1..=12 and days in 1..=31.
#[verifier::external_body]
fn parse_date(s: &str) -> (r: Option<(i32, u32, u32)>)
    ensures
        r == date_of(s@),
        r matches Some(d) ==> 1 <= d.1 <= 12 && 1 <= d.2 <= 31,
{
    match s.parse::<chrono::NaiveDate>() {
        Ok(d) => Some((
            chrono::Datelike::year(&d),
            chrono::Datelike::month(&d),
            chrono::Datelike::day(&d),
        )),
        Err(_) => None,
    }
}

/// The calendar date a frontmatter date string yields, if it parses.
pub open spec fn spec_page_date_of(s: Seq<char>) -> Option<PageDate> {
    match date_of(s) {
        Some(t) => Some(PageDate { year: t.0, month: t.1, day: t.2 }),
        None => None,
    }
}

/// Parses a frontmatter date field into plain calendar values.
pub fn parse_page_date(s: &str) -> (r: Option<PageDate>)
    ensures
        r == spec_page_date_of(s@),
        r matches Some(d) ==> d.valid(),
{
    match parse_date(s) {
        Some(ymd) => Some(PageDate { year: ymd.0, month: ymd.1, day: ymd.2 }),
        None => None,
    }
}

/// The string value at `key` of the YAML mapping in `doc`, as serde_yaml
/// reads it; unset when the document does not parse, the key is absent, or
/// the value is not a string.
pub uninterp spec fn yaml_string_field_of(doc: Seq<char>, key: Seq<char>) -> Option<Seq<char>>;

/// The boolean value at `key` of the YAML mapping in `doc`, as serde_yaml
/// reads it.
pub uninterp spec fn yaml_bool_field_of(doc: Seq<char>, key: Seq<char>) -> Option<bool>;

/// The list of strings at `key` of the YAML mapping in `doc`, as serde_yaml
/// reads it; unset when the value is not a sequence of strings.
pub uninterp spec fn yaml_string_list_field_of(doc: Seq<char>, key: Seq<char>) -> Option<
    Seq<Seq<char>>,
>;

/// Relies on serde_yaml's `from_str`, `Value::get` and `Value::as_str`:
/// the extracted field is a function of the document text and the key
/// alone.
#[verifier::external_body]
fn yaml_string_field(doc: &str, key: &str) -> (r: Option<String>)
    ensures
        r.deep_view() == yaml_string_field_of(doc@, key@),
{
    let v: serde_yaml::Value = serde_yaml::from_str(doc).ok()?;
    Some(v.get(key)?.as_str()?.to_string())
}

/// Relies on serde_yaml's `from_str`, `Value::get` and `Value::as_bool`:
/// the extracted field is a function of the document text and the key
/// alone.
#[verifier::external_body]
fn yaml_bool_field(doc: &str, key: &str) -> (r: Option<bool>)
    ensures
        r == yaml_bool_field_of(doc@, key@),
{
    let v: serde_yaml::Value = serde_yaml::from_str(doc).ok()?;
    v.get(key)?.as_bool()
}

/// Relies on serde_yaml's `from_str`, `Value::get`, `Value::as_sequence`
/// and `Value::as_str`: the extracted field is a function of the document
/// text and the key alone.
#[verifier::external_body]
fn yaml_string_list_field(doc: &str, key: &str) -> (r: Option<Vec<String>>)
    ensures
        r.deep_view() == yaml_string_list_field_of(doc@, key@),
{
    let v: serde_yaml::Value = serde_yaml::from_str(doc).ok()?;
    let items = v.get(key)?.as_sequence()?;
    items.iter().map(|e| e.as_str().map(str::to_string)).collect()
}

/// The metadata a frontmatter block yields: every field exactly as
/// serde_yaml reads it out of the block, the draft flag defaulting to
/// false, the date kept only when it parses as a calendar date.
pub open spec fn spec_frontmatter_of(doc: Seq<char>) -> FrontMatterV {
    FrontMatterV {
        title: yaml_string_field_of(doc, "title"@),
        date: match yaml_string_field_of(doc, "date"@) {
            Some(d) => spec_page_date_of(d),
            None => None,
        },
        author: yaml_string_field_of(doc, "author"@),
        page_type: yaml_string_field_of(doc, "type"@),
        draft: match yaml_bool_field_of(doc, "draft"@) {
            Some(b) => b,
            None => false,
        },
        template: yaml_string_field_of(doc, "template"@),
        tags: yaml_string_list_field_of(doc, "tags"@),
        slug: yaml_string_field_of(doc, "slug"@),
        summary: yaml_string_field_of(doc, "summary"@),
        cover_image: yaml_string_field_of(doc, "cover_image"@),
    }
}

/// Reads the metadata fields out of a frontmatter block, exactly as
/// [`spec_frontmatter_of`] states them. A block that is not a YAML
/// mapping, and any field of an unexpected type, falls back to the field's
/// default. The date field must parse as a calendar date to be kept, so
/// the result always obeys the metadata invariants.
pub fn frontmatter_from_yaml(src: &str) -> (r: FrontMatter)
    ensures
        r@ == spec_frontmatter_of(src@),
        r.wf(),
{
    let date = match yaml_string_field(src, "date") {
        Some(d) => parse_page_date(d.as_str()),
        None => None,
    };
    let draft = match yaml_bool_field(src, "draft") {
        Some(b) => b,
        None => false,
    };
    FrontMatter {
        title: yaml_string_field(src, "title"),
        date,
        author: yaml_string_field(src, "author"),
        page_type: yaml_string_field(src, "type"),
        draft,
        template: yaml_string_field(src, "template"),
        tags: yaml_string_list_field(src, "tags"),
        slug: yaml_string_field(src, "slug"),
        summary: yaml_string_field(src, "summary"),
        cover_image: yaml_string_field(src, "cover_image"),
    }
}

} // verus!
