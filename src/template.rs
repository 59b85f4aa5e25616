//! Templates and the closed mapping from template to builder image.
use vstd::prelude::*;
use crate::text::equals;

verus! {

/// What `str::to_lowercase` returns for a string; it depends on the
/// characters alone.
pub uninterp spec fn lower_of(s: Seq<char>) -> Seq<char>;

/// Relies on `str::to_lowercase`: the lower-case form of `s`.
#[verifier::external_body]
fn lowercase(s: &str) -> (r: String)
    ensures
        r@ == lower_of(s@),
{
    s.to_lowercase()
}

/// Language or runtime category of a function.
#[derive(Clone, Copy, Debug, PartialEq, Eq, Structural)]
pub enum Template {
    Rust,
    Node,
    Go,
}

/// The template a lower-case name denotes, if any.
pub open spec fn template_named(s: Seq<char>) -> Option<Template> {
    if s == seq!['r', 'u', 's', 't'] {
        Some(Template::Rust)
    } else if s == seq!['n', 'o', 'd', 'e'] {
        Some(Template::Node)
    } else if s == seq!['g', 'o'] {
        Some(Template::Go)
    } else {
        None
    }
}

/// Builder image reference of each template.
pub open spec fn image_ref(t: Template) -> Seq<char> {
    match t {
        Template::Rust => "ghcr.io/fisirc/rust-builder:latest"@,
        Template::Node => "nur/node-builder"@,
        Template::Go => "nur/go-builder"@,
    }
}

impl Template {
    /// The template denoted by an already lower-cased name.
    pub fn from_lowered(s: &str) -> (r: Option<Template>)
        ensures
            r == template_named(s@),
    {
        proof {
            reveal_strlit("rust");
            reveal_strlit("node");
            reveal_strlit("go");
        }
        if equals(s, "rust") {
            assert("rust"@ =~= seq!['r', 'u', 's', 't']);
            Some(Template::Rust)
        } else if equals(s, "node") {
            assert("node"@ =~= seq!['n', 'o', 'd', 'e']);
            assert("rust"@ =~= seq!['r', 'u', 's', 't']);
            Some(Template::Node)
        } else if equals(s, "go") {
            assert("go"@ =~= seq!['g', 'o']);
            assert("node"@ =~= seq!['n', 'o', 'd', 'e']);
            assert("rust"@ =~= seq!['r', 'u', 's', 't']);
            Some(Template::Go)
        } else {
            assert("go"@ =~= seq!['g', 'o']);
            assert("node"@ =~= seq!['n', 'o', 'd', 'e']);
            assert("rust"@ =~= seq!['r', 'u', 's', 't']);
            None
        }
    }

    /// The template a manifest names, matched case-insensitively.
    pub fn parse(name: &str) -> (r: Option<Template>)
        ensures
            r == template_named(lower_of(name@)),
    {
        let lowered = lowercase(name);
        Template::from_lowered(lowered.as_str())
    }

    /// Builder image of this template.
    pub fn image(&self) -> (r: &'static str)
        ensures
            r@ == image_ref(*self),
    {
        match self {
            Template::Rust => "ghcr.io/fisirc/rust-builder:latest",
            Template::Node => "nur/node-builder",
            Template::Go => "nur/go-builder",
        }
    }
}

} // verus!
