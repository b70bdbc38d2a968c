use vstd::prelude::*;
use vstd::string::*;

verus! {

/// What a read path answers with: an HTTP status and an HTML body.
pub struct Page {
    pub status: u16,
    pub body: String,
}

pub open spec fn not_found_body() -> Seq<char> {
    "<p>Could not find post, sorry!</p>"@
}

pub open spec fn template_trouble_body() -> Seq<char> {
    "<p>I'm struggling with the templates \u{1F4A9}</p>"@
}

pub open spec fn index_trouble_body() -> Seq<char> {
    "<p>Template not found</p>"@
}

pub open spec fn listing_trouble_body() -> Seq<char> {
    "<p>Could not read the article list</p>"@
}

/// The answer for an article that could not be fetched: its identifier is
/// unsafe, a file is missing or unreadable, or its metadata does not parse.
pub fn not_found_page() -> (r: Page)
    ensures
        r.status == 404,
        r.body@ == not_found_body(),
{
    Page { status: 404, body: String::from_str("<p>Could not find post, sorry!</p>") }
}

/// The answer for a fetched article, given what rendering its template gave
/// (`None`: the template failed).
pub fn article_page(rendered: Option<String>) -> (r: Page)
    ensures
        match rendered {
            Some(s) => r.status == 200 && r.body@ == s@,
            None => r.status == 404 && r.body@ == template_trouble_body(),
        },
{
    match rendered {
        Some(s) => Page { status: 200, body: s },
        None => Page {
            status: 404,
            body: String::from_str("<p>I'm struggling with the templates \u{1F4A9}</p>"),
        },
    }
}

/// The answer for the listing, given what rendering the index template gave
/// (`None`: the template failed).
pub fn index_page(rendered: Option<String>) -> (r: Page)
    ensures
        match rendered {
            Some(s) => r.status == 200 && r.body@ == s@,
            None => r.status == 500 && r.body@ == index_trouble_body(),
        },
{
    match rendered {
        Some(s) => Page { status: 200, body: s },
        None => Page { status: 500, body: String::from_str("<p>Template not found</p>") },
    }
}

/// The answer for a listing whose metadata files could not be read.
pub fn listing_failed_page() -> (r: Page)
    ensures
        r.status == 500,
        r.body@ == listing_trouble_body(),
{
    Page { status: 500, body: String::from_str("<p>Could not read the article list</p>") }
}

} // verus!
