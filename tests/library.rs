use blogsite::markdown::markdown_to_html;
use blogsite::metadata::{parse_article_data, ArticleData, ParseError};
use blogsite::pages::{article_page, index_page, listing_failed_page, not_found_page};
use blogsite::repository::{
    article_dir, assemble_article, collect_articles, markdown_path, metadata_path, FetchError,
};

const HELLO: &str =
    r#"{"title":"Hi","file_name":"hello","posted":"2024-01-01","hidden":false}"#;

fn record(title: &str, name: &str, hidden: bool) -> String {
    format!(
        r#"{{"title":"{}","file_name":"{}","posted":"2024-01-01","hidden":{}}}"#,
        title, name, hidden
    )
}

#[test]
fn parses_all_four_fields() {
    let a = parse_article_data(HELLO).ok().unwrap();
    assert_eq!(a.title, "Hi");
    assert_eq!(a.file_name, "hello");
    assert_eq!(a.posted, "2024-01-01");
    assert!(!a.hidden);
}

#[test]
fn extra_members_are_ignored() {
    let t = r#"{"hidden":true,"extra":1,"posted":"p","file_name":"f","title":"t"}"#;
    let a = parse_article_data(t).ok().unwrap();
    assert_eq!(a.title, "t");
    assert!(a.hidden);
}

#[test]
fn malformed_text_is_rejected() {
    assert_eq!(parse_article_data("not json").err(), Some(ParseError::Malformed));
    assert_eq!(parse_article_data("[1, 2]").err(), Some(ParseError::Malformed));
    assert_eq!(parse_article_data("").err(), Some(ParseError::Malformed));
}

#[test]
fn missing_field_is_rejected() {
    let t = r#"{"file_name":"f","posted":"p","hidden":false}"#;
    assert_eq!(parse_article_data(t).err(), Some(ParseError::MissingField));
    let t = r#"{"title":"t","file_name":"f","posted":"p"}"#;
    assert_eq!(parse_article_data(t).err(), Some(ParseError::MissingField));
}

#[test]
fn wrong_type_is_rejected() {
    let t = r#"{"title":3,"file_name":"f","posted":"p","hidden":false}"#;
    assert_eq!(parse_article_data(t).err(), Some(ParseError::WrongType));
    let t = r#"{"title":"t","file_name":"f","posted":"p","hidden":"no"}"#;
    assert_eq!(parse_article_data(t).err(), Some(ParseError::WrongType));
}

#[test]
fn record_round_trips_through_members() {
    let a = parse_article_data(HELLO).ok().unwrap();
    let ms = a.to_members();
    assert_eq!(ms.len(), 4);
    assert_eq!(ms[0].key, "title");
    assert_eq!(ms[0].text.as_deref(), Some("Hi"));
    assert_eq!(ms[1].key, "file_name");
    assert_eq!(ms[1].text.as_deref(), Some("hello"));
    assert_eq!(ms[2].key, "posted");
    assert_eq!(ms[2].text.as_deref(), Some("2024-01-01"));
    assert_eq!(ms[3].key, "hidden");
    assert_eq!(ms[3].flag, Some(false));
    let b = ArticleData::new("T".to_string(), "n".to_string(), "d".to_string(), true);
    let ms = b.to_members();
    assert_eq!(ms[3].flag, Some(true));
    assert_eq!(ms[3].text, None);
}

#[test]
fn markdown_heading_becomes_h1() {
    let html = markdown_to_html("# Hi");
    assert!(html.contains("<h1>Hi</h1>"));
    assert_ne!(html, "# Hi");
}

#[test]
fn markdown_is_deterministic_and_total() {
    for doc in ["", "*a*", "<<<", "# x\n\n- y", "\u{0}"] {
        assert_eq!(markdown_to_html(doc), markdown_to_html(doc));
    }
}

#[test]
fn paths_of_a_plain_identifier() {
    assert_eq!(article_dir("hello").as_deref(), Some("blog/hello"));
    assert_eq!(markdown_path("hello").as_deref(), Some("blog/hello/post.md"));
    assert_eq!(metadata_path("hello").as_deref(), Some("blog/hello/data.json"));
    assert_eq!(markdown_path("..x").as_deref(), Some("blog/..x/post.md"));
}

#[test]
fn traversal_identifiers_are_refused() {
    for id in ["../../etc/passwd", "..", ".", "", "a/b", "a\\b", "/etc", "x\u{0}"] {
        assert_eq!(markdown_path(id), None);
        assert_eq!(metadata_path(id), None);
        assert_eq!(article_dir(id), None);
    }
}

#[test]
fn hello_article_is_served() {
    let a = assemble_article(Some("# Hi".to_string()), Some(HELLO.to_string()))
        .ok()
        .unwrap();
    assert_eq!(a.body, "# Hi");
    assert_eq!(a.data.title, "Hi");
    let html = markdown_to_html(&a.body);
    assert!(html.contains("<h1>Hi</h1>"));
    let page = article_page(Some(format!("<title>{}</title>{}", a.data.title, html)));
    assert_eq!(page.status, 200);
    assert!(page.body.contains("<h1>Hi</h1>"));
    assert!(page.body.contains("Hi"));
}

#[test]
fn missing_article_is_not_found() {
    assert!(matches!(assemble_article(None, None), Err(FetchError::NotFound)));
    let page = not_found_page();
    assert_eq!(page.status, 404);
    assert_eq!(page.body, "<p>Could not find post, sorry!</p>");
}

#[test]
fn article_missing_one_file_is_not_found() {
    assert!(matches!(
        assemble_article(Some("# Hi".to_string()), None),
        Err(FetchError::NotFound)
    ));
    assert!(matches!(
        assemble_article(None, Some(HELLO.to_string())),
        Err(FetchError::NotFound)
    ));
}

#[test]
fn article_with_bad_metadata_is_invalid() {
    let r = assemble_article(Some("x".to_string()), Some("{}".to_string()));
    assert!(matches!(r, Err(FetchError::Invalid(ParseError::MissingField))));
}

#[test]
fn listing_skips_a_malformed_entry() {
    let texts = vec![
        record("One", "one", false),
        r#"{"file_name":"bad","posted":"2024-01-01","hidden":false}"#.to_string(),
        record("Two", "two", false),
    ];
    let list = collect_articles(&texts, false);
    assert_eq!(list.len(), 2);
    assert_eq!(list[0].file_name, "one");
    assert_eq!(list[1].file_name, "two");
}

#[test]
fn listing_hides_hidden_records_by_choice() {
    let texts = vec![record("One", "one", true), record("Two", "two", false)];
    let list = collect_articles(&texts, false);
    assert_eq!(list.len(), 1);
    assert_eq!(list[0].file_name, "two");
    let all = collect_articles(&texts, true);
    assert_eq!(all.len(), 2);
    assert_eq!(all[0].file_name, "one");
}

#[test]
fn listing_is_per_entry() {
    let a = vec![record("A", "a", false), "nope".to_string()];
    let b = vec![record("B", "b", false)];
    let mut ab = a.clone();
    ab.extend(b.clone());
    let mut ba = b.clone();
    ba.extend(a.clone());
    let names = |v: Vec<ArticleData>| v.into_iter().map(|x| x.file_name).collect::<Vec<_>>();
    assert_eq!(names(collect_articles(&ab, true)), vec!["a", "b"]);
    assert_eq!(names(collect_articles(&ba, true)), vec!["b", "a"]);
    assert!(collect_articles(&Vec::new(), true).is_empty());
}

#[test]
fn pages_for_each_outcome() {
    let p = article_page(None);
    assert_eq!(p.status, 404);
    assert_eq!(p.body, "<p>I'm struggling with the templates \u{1F4A9}</p>");
    let p = index_page(Some("<ul></ul>".to_string()));
    assert_eq!(p.status, 200);
    assert_eq!(p.body, "<ul></ul>");
    let p = index_page(None);
    assert_eq!(p.status, 500);
    assert_eq!(p.body, "<p>Template not found</p>");
    let p = listing_failed_page();
    assert_eq!(p.status, 500);
}
