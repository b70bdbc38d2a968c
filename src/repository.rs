use vstd::prelude::*;
use vstd::string::*;

use crate::metadata::{parse_article_data, parse_spec, ArticleData, ArticleView, ParseError};

verus! {

/// Whether `id` names one directory directly under the content root: it is
/// not empty, holds no path separator or NUL, and is neither `.` nor `..`.
pub open spec fn safe_id(id: Seq<char>) -> bool {
    &&& id.len() > 0
    &&& id != seq!['.']
    &&& id != seq!['.', '.']
    &&& forall|i: int| 0 <= i < id.len() ==> id[i] != '/' && id[i] != '\\' && id[i] != '\0'
}

pub open spec fn article_dir_spec(id: Seq<char>) -> Seq<char> {
    "blog/"@ + id
}

fn is_safe_id(id: &str) -> (r: bool)
    ensures
        r == safe_id(id@),
{
    let n = id.unicode_len();
    if n == 0 {
        return false;
    }
    let mut i: usize = 0;
    while i < n
        invariant
            n == id@.len(),
            i <= n,
            forall|j: int| 0 <= j < i ==> id@[j] != '/' && id@[j] != '\\' && id@[j] != '\0',
        decreases n - i,
    {
        let c = id.get_char(i);
        if c == '/' || c == '\\' || c == '\0' {
            return false;
        }
        i = i + 1;
    }
    if n <= 2 {
        let c0 = id.get_char(0);
        if n == 1 && c0 == '.' {
            assert(id@ =~= seq!['.']);
            return false;
        }
        if n == 2 && c0 == '.' && id.get_char(1) == '.' {
            assert(id@ =~= seq!['.', '.']);
            return false;
        }
        assert(id@ != seq!['.'] && id@ != seq!['.', '.']) by {
            if n == 1 {
                assert(seq!['.'][0] == '.');
            }
            if n == 2 {
                assert(seq!['.', '.'][0] == '.' && seq!['.', '.'][1] == '.');
            }
        }
    }
    true
}

/// The directory of the article `id`, or `None` where `id` would leave the
/// content root or name the root itself.
pub fn article_dir(id: &str) -> (r: Option<String>)
    ensures
        r is Some <==> safe_id(id@),
        r matches Some(p) ==> p@ == article_dir_spec(id@),
{
    if !is_safe_id(id) {
        return None;
    }
    let mut p = String::from_str("blog/");
    p.append(id);
    Some(p)
}

/// The markdown file of the article `id`, or `None` for an unsafe `id`.
pub fn markdown_path(id: &str) -> (r: Option<String>)
    ensures
        r is Some <==> safe_id(id@),
        r matches Some(p) ==> p@ == article_dir_spec(id@) + "/post.md"@,
{
    match article_dir(id) {
        None => None,
        Some(mut p) => {
            p.append("/post.md");
            Some(p)
        },
    }
}

/// The metadata file of the article `id`, or `None` for an unsafe `id`.
pub fn metadata_path(id: &str) -> (r: Option<String>)
    ensures
        r is Some <==> safe_id(id@),
        r matches Some(p) ==> p@ == article_dir_spec(id@) + "/data.json"@,
{
    match article_dir(id) {
        None => None,
        Some(mut p) => {
            p.append("/data.json");
            Some(p)
        },
    }
}

/// An article: its markdown body and its metadata record.
pub struct Article {
    pub body: String,
    pub data: ArticleData,
}

/// Why an article could not be fetched.
#[derive(Clone, Copy, Debug, PartialEq, Eq, Structural)]
pub enum FetchError {
    /// The markdown file or the metadata file is absent or unreadable.
    NotFound,
    /// The metadata file does not hold a record.
    Invalid(ParseError),
}

/// The outcome of fetching an article whose markdown file read as `body` and
/// whose metadata file read as `meta` (`None`: absent or unreadable).
pub open spec fn fetch_spec(body: Option<Seq<char>>, meta: Option<Seq<char>>) -> Result<(Seq<char>, ArticleView), FetchError> {
    match (body, meta) {
        (Some(b), Some(m)) => match parse_spec(m) {
            Ok(a) => Ok((b, a)),
            Err(e) => Err(FetchError::Invalid(e)),
        },
        _ => Err(FetchError::NotFound),
    }
}

pub open spec fn read_view(t: Option<String>) -> Option<Seq<char>> {
    match t {
        Some(s) => Some(s@),
        None => None,
    }
}

/// Puts an article together from what its two files read as. Both must be
/// there and the metadata must parse; there is no partial success.
pub fn assemble_article(body: Option<String>, meta: Option<String>) -> (r: Result<Article, FetchError>)
    ensures
        match r {
            Ok(a) => fetch_spec(read_view(body), read_view(meta)) == Ok::<(Seq<char>, ArticleView), FetchError>((a.body@, a.data@)),
            Err(e) => fetch_spec(read_view(body), read_view(meta)) == Err::<(Seq<char>, ArticleView), FetchError>(e),
        },
{
    match (body, meta) {
        (Some(b), Some(m)) => match parse_article_data(m.as_str()) {
            Ok(data) => Ok(Article { body: b, data }),
            Err(e) => Err(FetchError::Invalid(e)),
        },
        _ => Err(FetchError::NotFound),
    }
}

/// An article whose directory or either of whose files is missing is not
/// found.
pub proof fn lemma_missing_file_not_found(body: Option<Seq<char>>, meta: Option<Seq<char>>)
    requires
        body is None || meta is None,
    ensures
        fetch_spec(body, meta) == Err::<(Seq<char>, ArticleView), FetchError>(FetchError::NotFound),
{
}

/// Whether the listing shows a record, given whether hidden ones are shown.
pub open spec fn shown(a: ArticleView, show_hidden: bool) -> bool {
    show_hidden || !a.hidden
}

/// The records that a listing over metadata texts `texts` holds, in the
/// order of the texts: one per text that parses and is shown; a text that
/// does not parse is passed over.
pub open spec fn listing(texts: Seq<Seq<char>>, show_hidden: bool) -> Seq<ArticleView>
    decreases texts.len(),
{
    if texts.len() == 0 {
        Seq::empty()
    } else {
        let rest = listing(texts.drop_last(), show_hidden);
        match parse_spec(texts.last()) {
            Ok(a) => if shown(a, show_hidden) {
                rest.push(a)
            } else {
                rest
            },
            Err(_) => rest,
        }
    }
}

pub open spec fn texts_view(v: Seq<String>) -> Seq<Seq<char>> {
    v.map_values(|t: String| t@)
}

pub open spec fn records_view(v: Seq<ArticleData>) -> Seq<ArticleView> {
    v.map_values(|a: ArticleData| a@)
}

/// Lists the records of the metadata files whose texts are `texts`, in their
/// order. A file that does not parse is skipped, and the rest are still
/// listed; hidden records are listed only where `show_hidden` holds.
pub fn collect_articles(texts: &Vec<String>, show_hidden: bool) -> (r: Vec<ArticleData>)
    ensures
        records_view(r@) == listing(texts_view(texts@), show_hidden),
{
    let mut r: Vec<ArticleData> = Vec::new();
    let mut i: usize = 0;
    while i < texts.len()
        invariant
            i <= texts@.len(),
            records_view(r@) == listing(texts_view(texts@.subrange(0, i as int)), show_hidden),
        decreases texts@.len() - i,
    {
        let ghost before = r@;
        let parsed = parse_article_data(texts[i].as_str());
        proof {
            let pre = texts_view(texts@.subrange(0, i as int));
            let cur = texts_view(texts@.subrange(0, i + 1));
            assert(cur.drop_last() =~= pre);
            assert(cur.last() == texts@[i as int]@);
        }
        match parsed {
            Ok(a) => {
                if show_hidden || !a.hidden {
                    r.push(a);
                    assert(records_view(r@) =~= records_view(before).push(a@));
                }
            },
            Err(_) => {},
        }
        i = i + 1;
    }
    assert(texts@.subrange(0, texts@.len() as int) =~= texts@);
    r
}

/// Listing is per entry: the listing of two runs of texts one after the
/// other is the listing of the first followed by that of the second.
pub proof fn lemma_listing_concat(a: Seq<Seq<char>>, b: Seq<Seq<char>>, show_hidden: bool)
    ensures
        listing(a + b, show_hidden) == listing(a, show_hidden) + listing(b, show_hidden),
    decreases b.len(),
{
    if b.len() == 0 {
        assert(a + b =~= a);
        assert(listing(a, show_hidden) + listing(b, show_hidden) =~= listing(a, show_hidden));
    } else {
        lemma_listing_concat(a, b.drop_last(), show_hidden);
        assert((a + b).drop_last() =~= a + b.drop_last());
        assert((a + b).last() == b.last());
        let la = listing(a, show_hidden);
        let lb = listing(b.drop_last(), show_hidden);
        match parse_spec(b.last()) {
            Ok(x) => if shown(x, show_hidden) {
                assert((la + lb).push(x) =~= la + lb.push(x));
            },
            Err(_) => {},
        }
    }
}

/// A metadata text that does not parse does not change the listing,
/// wherever it stands among the others.
pub proof fn lemma_listing_skips_malformed(a: Seq<Seq<char>>, bad: Seq<char>, b: Seq<Seq<char>>, show_hidden: bool)
    requires
        parse_spec(bad) is Err,
    ensures
        listing(a + seq![bad] + b, show_hidden) == listing(a + b, show_hidden),
{
    lemma_listing_concat(a + seq![bad], b, show_hidden);
    lemma_listing_concat(a, seq![bad], show_hidden);
    lemma_listing_concat(a, b, show_hidden);
    assert(seq![bad].drop_last() =~= Seq::<Seq<char>>::empty());
    assert(seq![bad].last() == bad);
    assert(listing(Seq::<Seq<char>>::empty(), show_hidden) =~= Seq::<ArticleView>::empty());
    assert(listing(seq![bad], show_hidden) =~= Seq::<ArticleView>::empty());
    assert(listing(a, show_hidden) + Seq::<ArticleView>::empty() =~= listing(a, show_hidden));
}

/// The records listed do not depend on the order in which two runs of
/// entries are visited: swapping them gives the same records, counted with
/// their multiplicity.
pub proof fn lemma_listing_order_free(a: Seq<Seq<char>>, b: Seq<Seq<char>>, show_hidden: bool)
    ensures
        listing(a + b, show_hidden).to_multiset() == listing(b + a, show_hidden).to_multiset(),
{
    lemma_listing_concat(a, b, show_hidden);
    lemma_listing_concat(b, a, show_hidden);
    let la = listing(a, show_hidden);
    let lb = listing(b, show_hidden);
    vstd::seq_lib::lemma_multiset_commutative(la, lb);
    vstd::seq_lib::lemma_multiset_commutative(lb, la);
}

/// Each text that parses into a shown record gives exactly one record.
pub proof fn lemma_listing_one_per_valid(t: Seq<char>, show_hidden: bool)
    requires
        parse_spec(t) is Ok,
        shown(parse_spec(t)->Ok_0, show_hidden),
    ensures
        listing(seq![t], show_hidden) == seq![parse_spec(t)->Ok_0],
{
    assert(seq![t].drop_last() =~= Seq::<Seq<char>>::empty());
    assert(seq![t].last() == t);
    assert(listing(Seq::<Seq<char>>::empty(), show_hidden) =~= Seq::<ArticleView>::empty());
    assert(Seq::<ArticleView>::empty().push(parse_spec(t)->Ok_0) =~= seq![parse_spec(t)->Ok_0]);
}

} // verus!
