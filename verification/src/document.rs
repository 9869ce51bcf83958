//! JSON documents: the tree that the persisted format is written in, and the
//! text form that `serde_json` reads and writes.

use vstd::prelude::*;

verus! {

/// A JSON document.
#[derive(Debug, PartialEq, Eq)]
pub enum Json {
    Null,
    Bool(bool),
    /// A number: the integer, or `None` for a number that is not an integer
    /// of 64 bits.
    Number(Option<i64>),
    Text(String),
    List(Vec<Json>),
    /// An object: its members in order.
    Record(Vec<(String, Json)>),
}

/// The mathematical content of a JSON document.
pub enum JsonModel {
    Null,
    Bool(bool),
    Number(Option<i64>),
    Text(Seq<char>),
    List(Seq<JsonModel>),
    Record(Seq<(Seq<char>, JsonModel)>),
}

impl Json {
    /// The content of the document.
    pub open spec fn model(&self) -> JsonModel
        decreases self,
    {
        match self {
            Json::Null => JsonModel::Null,
            Json::Bool(b) => JsonModel::Bool(*b),
            Json::Number(n) => JsonModel::Number(*n),
            Json::Text(s) => JsonModel::Text(s@),
            Json::List(items) => JsonModel::List(
                Seq::new(
                    items@.len(),
                    |i: int|
                        if 0 <= i < items@.len() {
                            items@[i].model()
                        } else {
                            JsonModel::Null
                        },
                ),
            ),
            Json::Record(members) => JsonModel::Record(
                Seq::new(
                    members@.len(),
                    |i: int|
                        if 0 <= i < members@.len() {
                            (members@[i].0@, members@[i].1.model())
                        } else {
                            (Seq::empty(), JsonModel::Null)
                        },
                ),
            ),
        }
    }
}

impl View for Json {
    type V = JsonModel;

    open spec fn view(&self) -> JsonModel {
        self.model()
    }
}

/// The contents of a list of documents.
pub open spec fn list_model(items: Seq<Json>) -> Seq<JsonModel> {
    Seq::new(items.len(), |i: int| items[i]@)
}

/// The contents of the members of an object.
pub open spec fn members_model(members: Seq<(String, Json)>) -> Seq<(Seq<char>, JsonModel)> {
    Seq::new(members.len(), |i: int| (members[i].0@, members[i].1@))
}

/// The content of a list is the contents of its items.
proof fn lemma_list_model(items: Vec<Json>)
    ensures
        Json::List(items)@ == JsonModel::List(list_model(items@)),
{
    assert(Json::List(items).model()->List_0 =~= list_model(items@));
}

/// The content of an object is the contents of its members.
proof fn lemma_record_model(members: Vec<(String, Json)>)
    ensures
        Json::Record(members)@ == JsonModel::Record(members_model(members@)),
{
    assert(Json::Record(members).model()->Record_0 =~= members_model(members@));
}

/// The value of the first member named `name` among those from index `from`
/// on.
pub open spec fn member_from(
    members: Seq<(Seq<char>, JsonModel)>,
    name: Seq<char>,
    from: int,
) -> Option<JsonModel>
    decreases members.len() - from,
{
    if from < 0 || from >= members.len() {
        None
    } else if members[from].0 == name {
        Some(members[from].1)
    } else {
        member_from(members, name, from + 1)
    }
}

/// The deepest nesting of lists and objects that is written as text.
pub const MAX_NESTING: usize = 64;

impl JsonModel {
    /// Whether lists and objects are nested at most `k` deep.
    pub open spec fn within_depth(self, k: nat) -> bool
        decreases k,
    {
        match self {
            JsonModel::List(items) => k > 0 && forall|i: int|
                0 <= i < items.len() ==> (#[trigger] items[i]).within_depth((k - 1) as nat),
            JsonModel::Record(members) => k > 0 && forall|i: int|
                0 <= i < members.len() ==> (#[trigger] members[i]).1.within_depth(
                    (k - 1) as nat,
                ),
            _ => true,
        }
    }

    /// A document that is nested at most `k` deep is nested at most `m` deep
    /// for every greater `m`.
    pub proof fn lemma_depth_monotonic(self, k: nat, m: nat)
        requires
            self.within_depth(k),
            k <= m,
        ensures
            self.within_depth(m),
        decreases k,
    {
        match self {
            JsonModel::List(items) => {
                assert forall|i: int| 0 <= i < items.len() implies (#[trigger] items[i]).within_depth(
                    (m - 1) as nat,
                ) by {
                    items[i].lemma_depth_monotonic((k - 1) as nat, (m - 1) as nat);
                }
            },
            JsonModel::Record(members) => {
                assert forall|i: int| 0 <= i < members.len() implies (#[trigger] members[i]).1.within_depth(
                (m - 1) as nat) by {
                    members[i].1.lemma_depth_monotonic((k - 1) as nat, (m - 1) as nat);
                }
            },
            _ => {},
        }
    }

    /// The value of the first member named `name`, where the document is an
    /// object that has one.
    pub open spec fn member(self, name: Seq<char>) -> Option<JsonModel> {
        match self {
            JsonModel::Record(members) => member_from(members, name, 0),
            _ => None,
        }
    }

    /// The integer, where the document is a number that is one.
    pub open spec fn integer(self) -> Option<i64> {
        match self {
            JsonModel::Number(n) => n,
            _ => None,
        }
    }

    /// The text, where the document is a string.
    pub open spec fn text(self) -> Option<Seq<char>> {
        match self {
            JsonModel::Text(s) => Some(s),
            _ => None,
        }
    }

    /// The items, where the document is a list.
    pub open spec fn items(self) -> Option<Seq<JsonModel>> {
        match self {
            JsonModel::List(items) => Some(items),
            _ => None,
        }
    }
}

impl Json {
    /// The value of the first member named `name`, where the document is an
    /// object that has one.
    pub fn member(&self, name: &str) -> (r: Option<&Json>)
        ensures
            match r {
                Some(j) => self@.member(name@) == Some(j@),
                None => self@.member(name@) is None,
            },
    {
        match self {
            Json::Record(members) => {
                proof {
                    lemma_record_model(*members);
                }
                let ghost all = members_model(members@);
                let key: String = name.to_owned();
                let n: usize = members.len();
                let mut i: usize = 0;
                while i < n
                    invariant
                        n == members@.len(),
                        i <= n,
                        key@ == name@,
                        all == members_model(members@),
                        self@.member(name@) == member_from(all, name@, i as int),
                    decreases n - i,
                {
                    if members[i].0 == key {
                        return Some(&members[i].1);
                    }
                    assert(member_from(all, name@, i as int) == member_from(
                        all,
                        name@,
                        i as int + 1,
                    ));
                    i = i + 1;
                }
                None
            },
            _ => None,
        }
    }

    /// The integer, where the document is a number that is one.
    pub fn integer(&self) -> (r: Option<i64>)
        ensures
            r == self@.integer(),
    {
        match self {
            Json::Number(n) => *n,
            _ => None,
        }
    }

    /// The text, where the document is a string.
    pub fn text(&self) -> (r: Option<&String>)
        ensures
            match r {
                Some(s) => self@.text() == Some(s@),
                None => self@.text() is None,
            },
    {
        match self {
            Json::Text(s) => Some(s),
            _ => None,
        }
    }

    /// The items, where the document is a list.
    pub fn items(&self) -> (r: Option<&Vec<Json>>)
        ensures
            match r {
                Some(items) => self@.items() == Some(list_model(items@)),
                None => self@.items() is None,
            },
    {
        match self {
            Json::List(items) => {
                proof {
                    lemma_list_model(*items);
                }
                Some(items)
            },
            _ => None,
        }
    }

    /// A number that is an integer.
    pub fn from_integer(n: i64) -> (r: Self)
        ensures
            r@ == JsonModel::Number(Some(n)),
    {
        Json::Number(Some(n))
    }

    /// A string.
    pub fn from_text(s: String) -> (r: Self)
        ensures
            r@ == JsonModel::Text(s@),
    {
        Json::Text(s)
    }

    /// A list of the given items.
    pub fn from_items(items: Vec<Json>) -> (r: Self)
        ensures
            r@ == JsonModel::List(list_model(items@)),
    {
        proof {
            lemma_list_model(items);
        }
        Json::List(items)
    }

    /// An object of the given members.
    pub fn from_members(members: Vec<(String, Json)>) -> (r: Self)
        ensures
            r@ == JsonModel::Record(members_model(members@)),
    {
        proof {
            lemma_record_model(members);
        }
        Json::Record(members)
    }
}

/// Makes `serde_json::Value` known as an opaque type.
#[verifier::external_type_specification]
#[verifier::external_body]
pub struct ExValue(serde_json::Value);

/// What `serde_json::from_str` makes of `text`, read as a
/// `serde_json::Value`: the content of the document, or `None` where the
/// text is not JSON.
pub uninterp spec fn parsed_text(text: Seq<char>) -> Option<JsonModel>;

/// What `serde_json::to_string_pretty` writes for a document of the given
/// content, or `None` where it fails.
pub uninterp spec fn rendered_text(content: JsonModel) -> Option<Seq<char>>;

/// Changes a `serde_json::Value` into a document, variant by variant; of a
/// number it keeps what `Number::as_i64` returns, of an object its members in
/// the order in which the map hands them out.
#[verifier::external_body]
fn from_value(value: serde_json::Value) -> Json {
    match value {
        serde_json::Value::Null => Json::Null,
        serde_json::Value::Bool(b) => Json::Bool(b),
        serde_json::Value::Number(n) => Json::Number(n.as_i64()),
        serde_json::Value::String(s) => Json::Text(s),
        serde_json::Value::Array(items) => Json::List(items.into_iter().map(from_value).collect()),
        serde_json::Value::Object(map) => Json::Record(
            map.into_iter().map(|(k, v)| (k, from_value(v))).collect(),
        ),
    }
}

/// Changes a document into a `serde_json::Value`, variant by variant; a
/// number goes through `Value::from`, which makes `null` of `None`.
#[verifier::external_body]
fn to_value(doc: &Json) -> serde_json::Value {
    match doc {
        Json::Null => serde_json::Value::Null,
        Json::Bool(b) => serde_json::Value::Bool(*b),
        Json::Number(n) => serde_json::Value::from(*n),
        Json::Text(s) => serde_json::Value::String(s.clone()),
        Json::List(items) => serde_json::Value::Array(items.iter().map(to_value).collect()),
        Json::Record(members) => serde_json::Value::Object(
            members.iter().map(|(k, v)| (k.clone(), to_value(v))).collect(),
        ),
    }
}

/// Calls `serde_json::from_str` for a `serde_json::Value`. The contract
/// claims only that the outcome depends on the text alone: the document's
/// content on success, a failure with the parser's message otherwise.
#[verifier::external_body]
pub(crate) fn parse_text(text: &str) -> (r: Result<Json, String>)
    ensures
        r matches Ok(doc) ==> parsed_text(text@) == Some(doc@),
        r is Err ==> parsed_text(text@) is None,
{
    match serde_json::from_str::<serde_json::Value>(text) {
        Ok(value) => Ok(from_value(value)),
        Err(e) => Err(e.to_string()),
    }
}

/// Calls `serde_json::to_string_pretty` on the document as a
/// `serde_json::Value`. The serializer descends once for each level of
/// nesting, so the document must not be nested deeper than `MAX_NESTING`.
/// The contract claims only that the outcome depends on the document's
/// content alone: the text on success, a failure with the serializer's
/// message otherwise.
#[verifier::external_body]
pub(crate) fn render_text(doc: &Json) -> (r: Result<String, String>)
    requires
        doc@.within_depth(MAX_NESTING as nat),
    ensures
        r matches Ok(text) ==> rendered_text(doc@) == Some(text@),
        r is Err ==> rendered_text(doc@) is None,
{
    match serde_json::to_string_pretty(&to_value(doc)) {
        Ok(text) => Ok(text),
        Err(e) => Err(e.to_string()),
    }
}

} // verus!
