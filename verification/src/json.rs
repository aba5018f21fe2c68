//! JSON documents as plain values.
use vstd::prelude::*;
use crate::text;

verus! {

/// A JSON document. A number is kept as the text that `serde_json` writes for it.
#[derive(Debug, PartialEq)]
pub enum Json {
    Null,
    Bool(bool),
    Number(String),
    Text(String),
    Array(Vec<Json>),
    Object(Vec<(String, Json)>),
}

/// The contents of a [`Json`] document.
#[verifier::ext_equal]
pub enum JsonView {
    Null,
    Bool(bool),
    Number(Seq<char>),
    Text(Seq<char>),
    Array(Seq<JsonView>),
    Object(Seq<(Seq<char>, JsonView)>),
}

impl Json {
    /// The contents of a document.
    pub open spec fn contents(self) -> JsonView
        decreases self,
    {
        match self {
            Json::Null => JsonView::Null,
            Json::Bool(value) => JsonView::Bool(value),
            Json::Number(number) => JsonView::Number(number@),
            Json::Text(text) => JsonView::Text(text@),
            Json::Array(items) => JsonView::Array(
                Seq::new(
                    items@.len(),
                    |i: int|
                        if 0 <= i < items@.len() {
                            items@[i].contents()
                        } else {
                            JsonView::Null
                        },
                ),
            ),
            Json::Object(entries) => JsonView::Object(
                Seq::new(
                    entries@.len(),
                    |i: int|
                        if 0 <= i < entries@.len() {
                            (entries@[i].0@, entries@[i].1.contents())
                        } else {
                            (seq![], JsonView::Null)
                        },
                ),
            ),
        }
    }
}

impl View for Json {
    type V = JsonView;

    open spec fn view(&self) -> JsonView {
        self.contents()
    }
}

impl DeepView for Json {
    type V = JsonView;

    open spec fn deep_view(&self) -> JsonView {
        self.contents()
    }
}

impl Clone for Json {
    fn clone(&self) -> (copy: Self)
        ensures
            copy@ == self@,
        decreases self,
    {
        match self {
            Json::Null => Json::Null,
            Json::Bool(value) => Json::Bool(*value),
            Json::Number(number) => Json::Number(number.clone()),
            Json::Text(text) => Json::Text(text.clone()),
            Json::Array(items) => {
                let mut copied: Vec<Json> = Vec::new();
                let mut i: usize = 0;
                while i < items.len()
                    invariant
                        i <= items.len(),
                        *self == Json::Array(*items),
                        copied@.len() == i,
                        forall|k: int| 0 <= k < i ==> (#[trigger] copied@[k])@ == items@[k]@,
                    decreases items.len() - i,
                {
                    assert(decreases_to!(*self => self->Array_0@[i as int]));
                    copied.push(items[i].clone());
                    i = i + 1;
                }
                let copy = Json::Array(copied);
                assert(copy@->Array_0 =~= self@->Array_0);
                copy
            },
            Json::Object(entries) => {
                let mut copied: Vec<(String, Json)> = Vec::new();
                let mut i: usize = 0;
                while i < entries.len()
                    invariant
                        i <= entries.len(),
                        *self == Json::Object(*entries),
                        copied@.len() == i,
                        forall|k: int|
                            0 <= k < i ==> (#[trigger] copied@[k]).0@ == entries@[k].0@
                                && copied@[k].1@ == entries@[k].1@,
                    decreases entries.len() - i,
                {
                    assert(decreases_to!(*self => self->Object_0@[i as int].1));
                    copied.push((entries[i].0.clone(), entries[i].1.clone()));
                    i = i + 1;
                }
                let copy = Json::Object(copied);
                assert(copy@->Object_0 =~= self@->Object_0);
                copy
            },
        }
    }
}

/// The value of the first entry with a key.
pub open spec fn lookup(entries: Seq<(Seq<char>, JsonView)>, key: Seq<char>) -> Option<JsonView>
    decreases entries.len(),
{
    if entries.len() == 0 {
        None
    } else if entries[0].0 == key {
        Some(entries[0].1)
    } else {
        lookup(entries.skip(1), key)
    }
}

impl JsonView {
    /// The value under a key of an object.
    pub open spec fn field(self, key: Seq<char>) -> Option<JsonView> {
        match self {
            JsonView::Object(entries) => lookup(entries, key),
            _ => None,
        }
    }

    /// The text of a string.
    pub open spec fn text(self) -> Option<Seq<char>> {
        match self {
            JsonView::Text(text) => Some(text),
            _ => None,
        }
    }

    /// The text under a key of an object.
    pub open spec fn text_field(self, key: Seq<char>) -> Option<Seq<char>> {
        match self.field(key) {
            Some(value) => value.text(),
            None => None,
        }
    }
}

impl Json {
    /// A string.
    pub fn from_text(text: &str) -> (json: Json)
        ensures
            json@ == JsonView::Text(text@),
    {
        Json::Text(text.to_owned())
    }

    /// An object with entries in the given order.
    pub fn from_entries(entries: Vec<(String, Json)>) -> (json: Json)
        ensures
            json@ == JsonView::Object(entries.deep_view()),
    {
        let json = Json::Object(entries);
        assert(json@->Object_0 =~= entries.deep_view());
        json
    }

    /// The value under a key of an object.
    pub fn get(&self, key: &str) -> (value: Option<&Json>)
        ensures
            value.deep_view() == self@.field(key@),
    {
        match self {
            Json::Object(entries) => {
                let mut i: usize = 0;
                let ghost all = self@->Object_0;
                assert(all.skip(0) =~= all);
                while i < entries.len()
                    invariant
                        i <= entries@.len(),
                        all.len() == entries@.len(),
                        self@.field(key@) == lookup(all.skip(i as int), key@),
                        forall|k: int|
                            0 <= k < all.len() ==> #[trigger] all[k] == (
                                entries@[k].0@,
                                entries@[k].1@,
                            ),
                    decreases entries.len() - i,
                {
                    assert(all.skip(i as int)[0] == all[i as int]);
                    assert(all.skip(i as int).skip(1) =~= all.skip(i + 1));
                    if text::same_text(&entries[i].0, key) {
                        return Some(&entries[i].1);
                    }
                    i = i + 1;
                }
                None
            },
            _ => None,
        }
    }

    /// The text of a string.
    pub fn as_text(&self) -> (text: Option<&String>)
        ensures
            text.deep_view() == self@.text(),
    {
        match self {
            Json::Text(text) => Some(text),
            _ => None,
        }
    }

    /// The text under a key of an object.
    pub fn text_at(&self, key: &str) -> (text: Option<&String>)
        ensures
            text.deep_view() == self@.text_field(key@),
    {
        match self.get(key) {
            Some(value) => value.as_text(),
            None => None,
        }
    }

    /// Whether this is the value `true`.
    pub fn is_true(&self) -> (b: bool)
        ensures
            b == (self@ == JsonView::Bool(true)),
    {
        match self {
            Json::Bool(b) => *b,
            _ => false,
        }
    }

    /// Whether this is the value `null`.
    pub fn is_null(&self) -> (b: bool)
        ensures
            b == (self@ == JsonView::Null),
    {
        matches!(self, Json::Null)
    }
}

/// One level of a JSON document: arrays and objects hold the text of what is
/// inside them.
pub enum JsonLevel {
    Null,
    Bool(bool),
    Number(String),
    Text(String),
    Array(Vec<String>),
    Object(Vec<(String, String)>),
}

/// The contents of a [`JsonLevel`].
#[verifier::ext_equal]
pub enum JsonLevelView {
    Null,
    Bool(bool),
    Number(Seq<char>),
    Text(Seq<char>),
    Array(Seq<Seq<char>>),
    Object(Seq<(Seq<char>, Seq<char>)>),
}

impl DeepView for JsonLevel {
    type V = JsonLevelView;

    open spec fn deep_view(&self) -> JsonLevelView {
        match *self {
            JsonLevel::Null => JsonLevelView::Null,
            JsonLevel::Bool(value) => JsonLevelView::Bool(value),
            JsonLevel::Number(number) => JsonLevelView::Number(number@),
            JsonLevel::Text(text) => JsonLevelView::Text(text@),
            JsonLevel::Array(items) => JsonLevelView::Array(items.deep_view()),
            JsonLevel::Object(entries) => JsonLevelView::Object(entries.deep_view()),
        }
    }
}

/// The outermost level of the value that `serde_json` reads from a text, or
/// `None` where it reports an error.
pub uninterp spec fn json_level(text: Seq<char>) -> Option<JsonLevelView>;

/// The JSON string literal that `serde_json` writes for a text.
pub uninterp spec fn json_string(text: Seq<char>) -> Seq<char>;

/// Reads a JSON value with `serde_json::from_str` and takes it apart one level
/// deep.
///
/// What is inside an array or an object is written out again as JSON text. The
/// result depends on the text alone.
#[verifier::external_body]
fn read_level(text: &str) -> (level: Option<JsonLevel>)
    ensures
        level.deep_view() == json_level(text@),
{
    Some(match serde_json::from_str::<serde_json::Value>(text).ok()? {
        serde_json::Value::Null => JsonLevel::Null,
        serde_json::Value::Bool(value) => JsonLevel::Bool(value),
        serde_json::Value::Number(number) => JsonLevel::Number(number.to_string()),
        serde_json::Value::String(text) => JsonLevel::Text(text),
        serde_json::Value::Array(items) => {
            JsonLevel::Array(items.iter().map(|item| item.to_string()).collect())
        }
        serde_json::Value::Object(entries) => JsonLevel::Object(
            entries.iter().map(|(key, value)| (key.clone(), value.to_string())).collect(),
        ),
    })
}

/// Writes a text as a JSON string literal with `serde_json::to_string`.
///
/// The result depends on the text alone, and reading it back gives the text.
#[verifier::external_body]
fn write_string(text: &str) -> (literal: String)
    ensures
        literal@ == json_string(text@),
        json_level(literal@) == Some(JsonLevelView::Text(text@)),
{
    serde_json::to_string(text).expect("String serialization is infallible")
}

/// How deeply arrays and objects may be nested.
pub const MAX_DEPTH: usize = 128;

/// The document in a text whose arrays and objects are nested less deep than
/// `depth`.
pub open spec fn document(text: Seq<char>, depth: nat) -> Option<JsonView>
    decreases depth,
{
    match json_level(text) {
        None => None,
        Some(JsonLevelView::Null) => Some(JsonView::Null),
        Some(JsonLevelView::Bool(value)) => Some(JsonView::Bool(value)),
        Some(JsonLevelView::Number(number)) => Some(JsonView::Number(number)),
        Some(JsonLevelView::Text(text)) => Some(JsonView::Text(text)),
        Some(JsonLevelView::Array(items)) => if depth > 0 && (forall|i: int|
            0 <= i < items.len() ==> document(#[trigger] items[i], (depth - 1) as nat) is Some) {
            Some(
                JsonView::Array(
                    Seq::new(items.len(), |i: int| document(items[i], (depth - 1) as nat)->0),
                ),
            )
        } else {
            None
        },
        Some(JsonLevelView::Object(entries)) => if depth > 0 && (forall|i: int|
            0 <= i < entries.len() ==> document((#[trigger] entries[i]).1, (depth - 1) as nat)
                is Some) {
            Some(
                JsonView::Object(
                    Seq::new(
                        entries.len(),
                        |i: int| (entries[i].0, document(entries[i].1, (depth - 1) as nat)->0),
                    ),
                ),
            )
        } else {
            None
        },
    }
}

/// Parses a JSON document.
pub fn parse_json(text: &str) -> (json: Option<Json>)
    ensures
        json.deep_view() == document(text@, MAX_DEPTH as nat),
{
    parse_nested(text, MAX_DEPTH)
}

/// Parses a JSON document that is nested less deep than `depth`.
fn parse_nested(text: &str, depth: usize) -> (json: Option<Json>)
    ensures
        json.deep_view() == document(text@, depth as nat),
    decreases depth,
{
    match read_level(text)? {
        JsonLevel::Null => Some(Json::Null),
        JsonLevel::Bool(value) => Some(Json::Bool(value)),
        JsonLevel::Number(number) => Some(Json::Number(number)),
        JsonLevel::Text(text) => Some(Json::Text(text)),
        JsonLevel::Array(items) => {
            if depth == 0 {
                return None;
            }
            let mut parsed: Vec<Json> = Vec::new();
            let ghost texts = items.deep_view();
            let mut i: usize = 0;
            while i < items.len()
                invariant
                    i <= items.len(),
                    depth > 0,
                    texts == items.deep_view(),
                    json_level(text@) == Some(JsonLevelView::Array(texts)),
                    parsed@.len() == i,
                    forall|k: int|
                        0 <= k < i ==> document(#[trigger] texts[k], (depth - 1) as nat) == Some(
                            parsed@[k]@,
                        ),
                decreases items.len() - i,
            {
                assert(texts[i as int] == items@[i as int]@);
                match parse_nested(&items[i], depth - 1) {
                    Some(item) => parsed.push(item),
                    None => return None,
                }
                i = i + 1;
            }
            let json = Json::Array(parsed);
            assert(json@->Array_0 =~= document(text@, depth as nat)->0->Array_0);
            Some(json)
        },
        JsonLevel::Object(entries) => {
            if depth == 0 {
                return None;
            }
            let mut parsed: Vec<(String, Json)> = Vec::new();
            let ghost texts = entries.deep_view();
            let mut i: usize = 0;
            while i < entries.len()
                invariant
                    i <= entries.len(),
                    depth > 0,
                    texts == entries.deep_view(),
                    json_level(text@) == Some(JsonLevelView::Object(texts)),
                    parsed@.len() == i,
                    forall|k: int|
                        0 <= k < i ==> document((#[trigger] texts[k]).1, (depth - 1) as nat)
                            == Some(parsed@[k].1@) && texts[k].0 == parsed@[k].0@,
                decreases entries.len() - i,
            {
                assert(texts[i as int] == (entries@[i as int].0@, entries@[i as int].1@));
                match parse_nested(&entries[i].1, depth - 1) {
                    Some(value) => parsed.push((entries[i].0.clone(), value)),
                    None => return None,
                }
                i = i + 1;
            }
            let json = Json::Object(parsed);
            assert(json@->Object_0 =~= document(text@, depth as nat)->0->Object_0);
            Some(json)
        },
    }
}

/// Writes a text as a JSON string literal, which is also a JavaScript one.
pub fn quoted(text: &str) -> (literal: String)
    ensures
        literal@ == json_string(text@),
        document(literal@, MAX_DEPTH as nat) == Some(JsonView::Text(text@)),
{
    write_string(text)
}

/// The value under a key is that of the first entry with the key, and there is none
/// where no entry has it, or in what is no object.
pub proof fn law_first_entry_counts(
    entries: Seq<(Seq<char>, JsonView)>,
    key: Seq<char>,
    i: int,
)
    ensures
        0 <= i < entries.len() && entries[i].0 == key && (forall|j: int|
            0 <= j < i ==> (#[trigger] entries[j]).0 != key) ==> JsonView::Object(entries).field(
            key,
        ) == Some(entries[i].1),
        (forall|j: int| 0 <= j < entries.len() ==> (#[trigger] entries[j]).0 != key)
            ==> JsonView::Object(entries).field(key) is None,
        forall|json: JsonView| json !is Object ==> (#[trigger] json.field(key)) is None,
    decreases entries.len(),
{
    if entries.len() > 0 && entries[0].0 != key {
        let rest = entries.skip(1);
        law_first_entry_counts(rest, key, i - 1);
        assert forall|j: int| 0 <= j < rest.len() implies rest[j] == entries[j + 1] by {}
        assert(JsonView::Object(entries).field(key) == JsonView::Object(rest).field(key));
    }
}

/// The text under a key is there exactly when the value under it is a string.
pub proof fn law_text_fields_are_strings(json: JsonView, key: Seq<char>, text: Seq<char>)
    ensures
        json.text_field(key) == Some(text) <==> json.field(key) == Some(JsonView::Text(text)),
{
}

/// A deeper limit on nesting only ever reads more, and reads the same.
pub proof fn law_deeper_reads_the_same(text: Seq<char>, depth: nat)
    requires
        document(text, depth) is Some,
    ensures
        document(text, depth + 1) == document(text, depth),
    decreases depth,
{
    match json_level(text) {
        Some(JsonLevelView::Array(items)) => {
            assert forall|i: int| 0 <= i < items.len() implies document(
                #[trigger] items[i],
                depth,
            ) == document(items[i], (depth - 1) as nat) && document(items[i], depth) is Some by {
                law_deeper_reads_the_same(items[i], (depth - 1) as nat);
            }
            assert(document(text, depth + 1)->0->Array_0 =~= document(text, depth)->0->Array_0);
        },
        Some(JsonLevelView::Object(entries)) => {
            assert forall|i: int| 0 <= i < entries.len() implies document(
                (#[trigger] entries[i]).1,
                depth,
            ) == document(entries[i].1, (depth - 1) as nat) && document(
                entries[i].1,
                depth,
            ) is Some by {
                law_deeper_reads_the_same(entries[i].1, (depth - 1) as nat);
            }
            assert(document(text, depth + 1)->0->Object_0 =~= document(text, depth)->0->Object_0);
        },
        _ => {},
    }
}

} // verus!
