use vstd::prelude::*;
use vstd::string::*;

verus! {

/// One member of a JSON object, as the metadata parser reads it: its key,
/// its value where that is a string, and its value where that is a boolean.
pub type MemberView = (Seq<char>, Option<Seq<char>>, Option<bool>);

/// The members of the JSON object written in `text`, or `None` where `text`
/// is not a JSON document whose top level is an object.
pub uninterp spec fn json_members(text: Seq<char>) -> Option<Seq<MemberView>>;

/// A member of a JSON object, keeping what a metadata record can hold.
pub struct JsonMember {
    pub key: String,
    pub text: Option<String>,
    pub flag: Option<bool>,
}

pub open spec fn opt_text_view(t: Option<String>) -> Option<Seq<char>> {
    match t {
        Some(s) => Some(s@),
        None => None,
    }
}

impl View for JsonMember {
    type V = MemberView;

    open spec fn view(&self) -> MemberView {
        (self.key@, opt_text_view(self.text), self.flag)
    }
}

pub open spec fn members_view(v: Seq<JsonMember>) -> Seq<MemberView> {
    v.map_values(|m: JsonMember| m@)
}

/// Relies on serde_json::from_str (into serde_json::Value): the result
/// depends on the text alone; an object's members are handed out with their
/// string or boolean values.
#[verifier::external_body]
fn read_json_members(text: &str) -> (r: Option<Vec<JsonMember>>)
    ensures
        match r {
            Some(v) => json_members(text@) == Some(members_view(v@)),
            None => json_members(text@) is None,
        },
{
    match serde_json::from_str::<serde_json::Value>(text) {
        Ok(serde_json::Value::Object(m)) => Some(m.into_iter().map(|(k, v)| JsonMember {
            key: k,
            text: v.as_str().map(|s| s.to_string()),
            flag: v.as_bool(),
        }).collect()),
        _ => None,
    }
}

/// Why a metadata file could not be read as a record.
#[derive(Clone, Copy, Debug, PartialEq, Eq, Structural)]
pub enum ParseError {
    /// The text is not a JSON object.
    Malformed,
    /// A required field is absent.
    MissingField,
    /// A required field holds a value of the wrong type.
    WrongType,
}

/// The metadata record of one article.
pub struct ArticleData {
    pub title: String,
    pub file_name: String,
    pub posted: String,
    pub hidden: bool,
}

pub struct ArticleView {
    pub title: Seq<char>,
    pub file_name: Seq<char>,
    pub posted: Seq<char>,
    pub hidden: bool,
}

impl View for ArticleData {
    type V = ArticleView;

    open spec fn view(&self) -> ArticleView {
        ArticleView {
            title: self.title@,
            file_name: self.file_name@,
            posted: self.posted@,
            hidden: self.hidden,
        }
    }
}

/// The first member of `ms` at or after `i` whose key is `key`.
pub open spec fn member_from(ms: Seq<MemberView>, key: Seq<char>, i: int) -> Option<MemberView>
    decreases ms.len() - i,
{
    if i < 0 || i >= ms.len() {
        None
    } else if ms[i].0 == key {
        Some(ms[i])
    } else {
        member_from(ms, key, i + 1)
    }
}

/// The string held by the first member keyed `key`.
pub open spec fn text_field(ms: Seq<MemberView>, key: Seq<char>) -> Result<Seq<char>, ParseError> {
    match member_from(ms, key, 0) {
        None => Err(ParseError::MissingField),
        Some(m) => match m.1 {
            Some(t) => Ok(t),
            None => Err(ParseError::WrongType),
        },
    }
}

/// The boolean held by the first member keyed `key`.
pub open spec fn flag_field(ms: Seq<MemberView>, key: Seq<char>) -> Result<bool, ParseError> {
    match member_from(ms, key, 0) {
        None => Err(ParseError::MissingField),
        Some(m) => match m.2 {
            Some(b) => Ok(b),
            None => Err(ParseError::WrongType),
        },
    }
}

/// The record that an object's members describe; the fields are read in the
/// order title, file_name, posted, hidden, and the first bad one decides the
/// error. Other members are ignored.
pub open spec fn record_of(ms: Seq<MemberView>) -> Result<ArticleView, ParseError> {
    match text_field(ms, "title"@) {
        Err(e) => Err(e),
        Ok(title) => match text_field(ms, "file_name"@) {
            Err(e) => Err(e),
            Ok(file_name) => match text_field(ms, "posted"@) {
                Err(e) => Err(e),
                Ok(posted) => match flag_field(ms, "hidden"@) {
                    Err(e) => Err(e),
                    Ok(hidden) => Ok(ArticleView { title, file_name, posted, hidden }),
                },
            },
        },
    }
}

/// The record written in a metadata file's text.
pub open spec fn parse_spec(text: Seq<char>) -> Result<ArticleView, ParseError> {
    match json_members(text) {
        None => Err(ParseError::Malformed),
        Some(ms) => record_of(ms),
    }
}

/// The members that a record is written out as.
pub open spec fn record_members(a: ArticleView) -> Seq<MemberView> {
    seq![
        ("title"@, Some(a.title), None),
        ("file_name"@, Some(a.file_name), None),
        ("posted"@, Some(a.posted), None),
        ("hidden"@, None, Some(a.hidden)),
    ]
}

fn find_member(ms: &Vec<JsonMember>, key: &str) -> (r: Option<usize>)
    ensures
        match r {
            Some(i) => i < ms@.len() && member_from(members_view(ms@), key@, 0) == Some(ms@[i as int]@),
            None => member_from(members_view(ms@), key@, 0) is None,
        },
{
    let k = String::from_str(key);
    let ghost mv = members_view(ms@);
    let mut i: usize = 0;
    while i < ms.len()
        invariant
            i <= ms@.len(),
            k@ == key@,
            mv == members_view(ms@),
            member_from(mv, key@, 0) == member_from(mv, key@, i as int),
        decreases ms@.len() - i,
    {
        if ms[i].key == k {
            return Some(i);
        }
        i = i + 1;
    }
    None
}

fn read_text_field(ms: &Vec<JsonMember>, key: &str) -> (r: Result<String, ParseError>)
    ensures
        match r {
            Ok(s) => text_field(members_view(ms@), key@) == Ok::<Seq<char>, ParseError>(s@),
            Err(e) => text_field(members_view(ms@), key@) == Err::<Seq<char>, ParseError>(e),
        },
{
    match find_member(ms, key) {
        None => Err(ParseError::MissingField),
        Some(i) => match &ms[i].text {
            Some(t) => Ok(t.clone()),
            None => Err(ParseError::WrongType),
        },
    }
}

fn read_flag_field(ms: &Vec<JsonMember>, key: &str) -> (r: Result<bool, ParseError>)
    ensures
        r == flag_field(members_view(ms@), key@),
{
    match find_member(ms, key) {
        None => Err(ParseError::MissingField),
        Some(i) => match ms[i].flag {
            Some(b) => Ok(b),
            None => Err(ParseError::WrongType),
        },
    }
}

/// Reads an article's metadata record from the text of its metadata file.
/// Every field is required; members other than the four are ignored.
pub fn parse_article_data(text: &str) -> (r: Result<ArticleData, ParseError>)
    ensures
        match r {
            Ok(a) => parse_spec(text@) == Ok::<ArticleView, ParseError>(a@),
            Err(e) => parse_spec(text@) == Err::<ArticleView, ParseError>(e),
        },
{
    let ms = match read_json_members(text) {
        None => return Err(ParseError::Malformed),
        Some(ms) => ms,
    };
    let title = match read_text_field(&ms, "title") {
        Err(e) => return Err(e),
        Ok(t) => t,
    };
    let file_name = match read_text_field(&ms, "file_name") {
        Err(e) => return Err(e),
        Ok(t) => t,
    };
    let posted = match read_text_field(&ms, "posted") {
        Err(e) => return Err(e),
        Ok(t) => t,
    };
    let hidden = match read_flag_field(&ms, "hidden") {
        Err(e) => return Err(e),
        Ok(b) => b,
    };
    let a = ArticleData { title, file_name, posted, hidden };
    Ok(a)
}

impl ArticleData {
    pub fn new(title: String, file_name: String, posted: String, hidden: bool) -> (r: ArticleData)
        ensures
            r@ == (ArticleView { title: title@, file_name: file_name@, posted: posted@, hidden }),
    {
        ArticleData { title, file_name, posted, hidden }
    }

    /// The members that this record is written out as, one per field.
    pub fn to_members(&self) -> (r: Vec<JsonMember>)
        ensures
            members_view(r@) == record_members(self@),
    {
        let mut r: Vec<JsonMember> = Vec::new();
        r.push(JsonMember { key: String::from_str("title"), text: Some(self.title.clone()), flag: None });
        r.push(JsonMember { key: String::from_str("file_name"), text: Some(self.file_name.clone()), flag: None });
        r.push(JsonMember { key: String::from_str("posted"), text: Some(self.posted.clone()), flag: None });
        r.push(JsonMember { key: String::from_str("hidden"), text: None, flag: Some(self.hidden) });
        assert(members_view(r@) =~= record_members(self@));
        r
    }
}

/// Writing a record out as members and reading those members back gives the
/// same record, all four fields included.
pub proof fn lemma_record_round_trip(a: ArticleView)
    ensures
        record_of(record_members(a)) == Ok::<ArticleView, ParseError>(a),
{
    reveal_strlit("title");
    reveal_strlit("file_name");
    reveal_strlit("posted");
    reveal_strlit("hidden");
    let ms = record_members(a);
    assert("title"@.len() == 5);
    assert("file_name"@.len() == 9);
    assert("posted"@.len() == 6 && "posted"@[0] == 'p');
    assert("hidden"@.len() == 6 && "hidden"@[0] == 'h');
    assert(member_from(ms, "title"@, 0) == Some(ms[0]));
    assert(member_from(ms, "file_name"@, 1) == Some(ms[1]));
    assert(member_from(ms, "posted"@, 2) == Some(ms[2]));
    assert(member_from(ms, "posted"@, 1) == Some(ms[2]));
    assert(member_from(ms, "hidden"@, 3) == Some(ms[3]));
    assert(member_from(ms, "hidden"@, 2) == Some(ms[3]));
    assert(member_from(ms, "hidden"@, 1) == Some(ms[3]));
}

/// A metadata text that reads as a record holds members that, rewritten from
/// that record and read again, give the same four fields.
pub proof fn lemma_parse_then_write_keeps_fields(text: Seq<char>)
    requires
        parse_spec(text) is Ok,
    ensures
        record_of(record_members(parse_spec(text)->Ok_0)) == parse_spec(text),
{
    lemma_record_round_trip(parse_spec(text)->Ok_0);
}

} // verus!
