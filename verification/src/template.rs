//! The template registry: every file of the template tree under its
//! relative path. Template expansion itself is the outside engine's work;
//! the registry decides exactly which names resolve.

use vstd::prelude::*;

use crate::errors::ErrV;
use crate::errors::SiteError;
use crate::strings::str_eq;

verus! {

/// A registry holds a name.
pub open spec fn reg_contains(reg: Seq<(Seq<char>, Seq<char>)>, name: Seq<char>) -> bool {
    exists|i: int| 0 <= i < reg.len() && reg[i].0 == name
}

/// The source of the first template registered under `name`.
pub open spec fn reg_lookup(reg: Seq<(Seq<char>, Seq<char>)>, name: Seq<char>) -> Option<
    Seq<char>,
>
    decreases reg.len(),
{
    if reg.len() == 0 {
        None
    } else if reg[0].0 == name {
        Some(reg[0].1)
    } else {
        reg_lookup(reg.drop_first(), name)
    }
}

/// A name resolves exactly when the registry holds it.
pub proof fn lemma_reg_lookup_some(reg: Seq<(Seq<char>, Seq<char>)>, name: Seq<char>)
    ensures
        reg_lookup(reg, name) is Some <==> reg_contains(reg, name),
    decreases reg.len(),
{
    if reg.len() > 0 {
        lemma_reg_lookup_some(reg.drop_first(), name);
        if reg[0].0 == name {
        } else {
            assert forall|i: int|
                0 <= i < reg.len() && reg[i].0 == name implies reg_contains(
                reg.drop_first(),
                name,
            ) by {
                assert(reg.drop_first()[i - 1] == reg[i]);
            }
        }
    }
}

proof fn lemma_reg_lookup_at(reg: Seq<(Seq<char>, Seq<char>)>, name: Seq<char>, i: int)
    requires
        0 <= i < reg.len(),
        reg[i].0 == name,
        forall|k: int| 0 <= k < i ==> reg[k].0 != name,
    ensures
        reg_lookup(reg, name) == Some(reg[i].1),
    decreases reg.len(),
{
    if i == 0 {
    } else {
        assert(reg[0].0 != name);
        assert(reg.drop_first()[i - 1] == reg[i]);
        assert(forall|k: int| 0 <= k < i - 1 ==> #[trigger] reg.drop_first()[k].0 != name);
        lemma_reg_lookup_at(reg.drop_first(), name, i - 1);
    }
}

proof fn lemma_reg_lookup_none(reg: Seq<(Seq<char>, Seq<char>)>, name: Seq<char>)
    requires
        forall|k: int| 0 <= k < reg.len() ==> reg[k].0 != name,
    ensures
        reg_lookup(reg, name) is None,
    decreases reg.len(),
{
    if reg.len() > 0 {
        assert(forall|k: int|
            0 <= k < reg.len() - 1 ==> #[trigger] reg.drop_first()[k].0 != name);
        lemma_reg_lookup_none(reg.drop_first(), name);
    }
}

/// The named-template registry of one build. Registration order is the
/// order the template tree was walked in; lookup takes the first match.
pub struct TemplateEnvironment {
    templates: Vec<(String, String)>,
}

impl View for TemplateEnvironment {
    type V = Seq<(Seq<char>, Seq<char>)>;

    closed spec fn view(&self) -> Seq<(Seq<char>, Seq<char>)> {
        self.templates.deep_view()
    }
}

impl TemplateEnvironment {
    /// An empty registry.
    pub fn new() -> (r: Self)
        ensures
            r@ == Seq::<(Seq<char>, Seq<char>)>::empty(),
    {
        let r = TemplateEnvironment { templates: Vec::new() };
        proof {
            assert(r@ =~= Seq::<(Seq<char>, Seq<char>)>::empty());
        }
        r
    }

    /// Replaces the registry with the given `(name, source)` entries — every
    /// file of the template tree under its tree-relative path. An absent
    /// template tree simply hands an empty list in: templating is optional.
    pub fn load_templates(&mut self, entries: Vec<(String, String)>)
        ensures
            final(self)@ == entries.deep_view(),
    {
        self.templates = entries;
    }

    /// Whether a template of this name is registered.
    pub fn contains_template(&self, name: &str) -> (r: bool)
        ensures
            r == reg_contains(self@, name@),
    {
        let mut i: usize = 0;
        while i < self.templates.len()
            invariant
                i <= self.templates@.len(),
                forall|k: int| 0 <= k < i ==> (#[trigger] self.templates.deep_view()[k]).0
                    != name@,
            decreases self.templates@.len() - i,
        {
            let hit = str_eq(self.templates[i].0.as_str(), name);
            proof {
                assert(self@[i as int].0 == self.templates@[i as int].0@);
            }
            if hit {
                assert(reg_contains(self@, name@));
                return true;
            }
            i += 1;
        }
        false
    }

    /// Resolves the named template for expansion: the registered source, or
    /// the error a build aborts with when a page names an unknown template.
    pub fn render_template(&self, name: &str) -> (r: Result<&String, SiteError>)
        ensures
            r is Ok <==> reg_contains(self@, name@),
            r matches Ok(src) ==> reg_lookup(self@, name@) == Some(src@),
            r matches Err(e) ==> e@ == (ErrV::TemplateNotFound { name: name@ }),
    {
        let mut i: usize = 0;
        while i < self.templates.len()
            invariant
                i <= self.templates@.len(),
                forall|k: int| 0 <= k < i ==> (#[trigger] self.templates.deep_view()[k]).0
                    != name@,
            decreases self.templates@.len() - i,
        {
            let hit = str_eq(self.templates[i].0.as_str(), name);
            proof {
                assert(self@[i as int].0 == self.templates@[i as int].0@);
                assert(self@[i as int].1 == self.templates@[i as int].1@);
            }
            if hit {
                proof {
                    assert(reg_contains(self@, name@));
                    lemma_reg_lookup_at(self@, name@, i as int);
                }
                return Ok(&self.templates[i].1);
            }
            i += 1;
        }
        proof {
            lemma_reg_lookup_none(self@, name@);
            lemma_reg_lookup_some(self@, name@);
        }
        Err(SiteError::TemplateNotFound { name: String::from_str(name) })
    }
}

} // verus!
