use vstd::prelude::*;

verus! {

/// The HTML that the markdown converter makes of a document.
pub uninterp spec fn html_of(doc: Seq<char>) -> Seq<char>;

/// Relies on markdown::to_html: CommonMark with default options, which has
/// no syntax errors, so the conversion never fails; the HTML depends on the
/// document alone.
#[verifier::external_body]
fn to_html(doc: &str) -> (r: String)
    ensures
        r@ == html_of(doc@),
{
    markdown::to_html(doc)
}

/// Converts a markdown document into HTML. Every string is a markdown
/// document, so this never fails.
pub fn markdown_to_html(doc: &str) -> (r: String)
    ensures
        r@ == html_of(doc@),
{
    to_html(doc)
}

/// Conversion is deterministic: two conversions of one document give the
/// same HTML.
pub proof fn lemma_conversion_deterministic(d1: Seq<char>, d2: Seq<char>, h1: Seq<char>, h2: Seq<char>)
    requires
        d1 == d2,
        h1 == html_of(d1),
        h2 == html_of(d2),
    ensures
        h1 == h2,
{
}

} // verus!
