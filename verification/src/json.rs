use crate::text::{opt_text, same_text};
use vstd::prelude::*;
use vstd::string::StringExecFns;

verus! {

/// `serde_json::Number`: a JSON number, carried through as it was parsed.
#[verifier::external_type_specification]
#[verifier::external_body]
pub struct ExNumber(serde_json::Number);

/// `serde_json::Value`: what the outside parser hands back.
#[verifier::external_type_specification]
#[verifier::external_body]
pub struct ExValue(serde_json::Value);

/// `<serde_json::Number as Clone>::clone` returns a number equal to its argument.
pub assume_specification[ <serde_json::Number as Clone>::clone ](n: &serde_json::Number) -> (r:
    serde_json::Number)
    ensures
        r == *n,
;

/// One member of a JSON object.
#[derive(Debug, PartialEq)]
pub struct Member {
    pub key: String,
    pub value: Json,
}

/// A JSON value.
#[derive(Debug, PartialEq)]
pub enum Json {
    Null,
    Bool(bool),
    Number(serde_json::Number),
    Str(String),
    Array(Vec<Json>),
    Object(Vec<Member>),
}

/// The mathematical value that a `Json` stands for.
pub enum JsonModel {
    Null,
    Bool(bool),
    Number(serde_json::Number),
    Str(Seq<char>),
    Array(Seq<JsonModel>),
    Object(Seq<(Seq<char>, JsonModel)>),
}

impl Json {
    /// The mathematical value that `self` stands for.
    pub open spec fn model(self) -> JsonModel
        decreases self,
    {
        match self {
            Json::Null => JsonModel::Null,
            Json::Bool(b) => JsonModel::Bool(b),
            Json::Number(n) => JsonModel::Number(n),
            Json::Str(s) => JsonModel::Str(s@),
            Json::Array(items) => JsonModel::Array(
                Seq::new(
                    items@.len(),
                    |i: int|
                        if 0 <= i < items@.len() {
                            items@[i].model()
                        } else {
                            JsonModel::Null
                        },
                ),
            ),
            Json::Object(members) => JsonModel::Object(
                Seq::new(
                    members@.len(),
                    |i: int|
                        if 0 <= i < members@.len() {
                            (members@[i].key@, members@[i].value.model())
                        } else {
                            (Seq::empty(), JsonModel::Null)
                        },
                ),
            ),
        }
    }
}

impl View for Json {
    type V = JsonModel;

    open spec fn view(&self) -> JsonModel {
        self.model()
    }
}

/// What `serde_json::from_str::<serde_json::Value>` makes of a text: the value
/// it parses to, or the message of the error it reports.
pub uninterp spec fn json_decode(text: Seq<char>) -> Result<JsonModel, Seq<char>>;

/// The compact text that `serde_json::Value`'s `Display` writes for a value.
pub uninterp spec fn json_encode(value: JsonModel) -> Seq<char>;

/// The model of a result that holds a value or the text of a failure.
pub open spec fn value_result(r: Result<Json, String>) -> Result<JsonModel, Seq<char>> {
    match r {
        Ok(j) => Ok(j@),
        Err(e) => Err(e@),
    }
}

/// The value under the first member of `entries`, from index `at` on, whose key is `key`.
pub open spec fn lookup_from(entries: Seq<(Seq<char>, JsonModel)>, key: Seq<char>, at: int) -> Option<
    JsonModel,
>
    decreases entries.len() - at,
{
    if at < 0 || at >= entries.len() {
        None
    } else if entries[at].0 == key {
        Some(entries[at].1)
    } else {
        lookup_from(entries, key, at + 1)
    }
}

impl JsonModel {
    /// The member `key` of an object; `None` for a missing key and for any
    /// value that is no object.
    pub open spec fn member(self, key: Seq<char>) -> Option<JsonModel> {
        match self {
            JsonModel::Object(entries) => lookup_from(entries, key, 0),
            _ => None,
        }
    }

    /// The text of a string value; `None` for any other value.
    pub open spec fn text(self) -> Option<Seq<char>> {
        match self {
            JsonModel::Str(s) => Some(s),
            _ => None,
        }
    }

    /// The text of the string member `key`, if the value is an object that
    /// has such a member.
    pub open spec fn member_text(self, key: Seq<char>) -> Option<Seq<char>> {
        match self.member(key) {
            Some(v) => v.text(),
            None => None,
        }
    }
}

/// The model of an optional reference to a value.
pub open spec fn opt_model(o: Option<&Json>) -> Option<JsonModel> {
    match o {
        Some(j) => Some(j@),
        None => None,
    }
}

/// Moves a `serde_json::Value` into a `Json`, variant by variant; an object's
/// members come in the order in which `serde_json::Map` hands them out.
#[verifier::external_body]
fn json_from_serde(v: serde_json::Value) -> Json {
    match v {
        serde_json::Value::Null => Json::Null,
        serde_json::Value::Bool(b) => Json::Bool(b),
        serde_json::Value::Number(n) => Json::Number(n),
        serde_json::Value::String(s) => Json::Str(s),
        serde_json::Value::Array(a) => Json::Array(a.into_iter().map(json_from_serde).collect()),
        serde_json::Value::Object(m) => Json::Object(
            m.into_iter().map(|(k, x)| Member { key: k, value: json_from_serde(x) }).collect(),
        ),
    }
}

/// Copies a `Json` into a `serde_json::Value`, variant by variant.
#[verifier::external_body]
fn json_to_serde(j: &Json) -> serde_json::Value {
    match j {
        Json::Null => serde_json::Value::Null,
        Json::Bool(b) => serde_json::Value::Bool(*b),
        Json::Number(n) => serde_json::Value::Number(n.clone()),
        Json::Str(s) => serde_json::Value::String(s.clone()),
        Json::Array(a) => serde_json::Value::Array(a.iter().map(json_to_serde).collect()),
        Json::Object(m) => serde_json::Value::Object(
            m.iter().map(|e| (e.key.clone(), json_to_serde(&e.value))).collect(),
        ),
    }
}

/// Parses `text` with `serde_json::from_str`. The result is a function of the
/// text alone: the parsed value, or the error's message.
#[verifier::external_body]
pub(crate) fn decode_json(text: &str) -> (r: Result<Json, String>)
    ensures
        value_result(r) == json_decode(text@),
{
    match serde_json::from_str::<serde_json::Value>(text) {
        Ok(v) => Ok(json_from_serde(v)),
        Err(e) => Err(e.to_string()),
    }
}

/// Writes `value` as compact JSON text with `serde_json::Value`'s `Display`.
/// The text is a function of the value alone.
#[verifier::external_body]
pub(crate) fn encode_json(value: &Json) -> (r: String)
    ensures
        r@ == json_encode(value@),
{
    json_to_serde(value).to_string()
}

impl Json {
    /// The member `key` of an object.
    pub fn get(&self, key: &str) -> (r: Option<&Json>)
        ensures
            opt_model(r) == self@.member(key@),
    {
        match self {
            Json::Object(members) => {
                let mut i: usize = 0;
                while i < members.len()
                    invariant
                        i <= members.len(),
                        self@ is Object,
                        self@->Object_0.len() == members@.len(),
                        forall|k: int|
                            0 <= k < members@.len() ==> self@->Object_0[k] == (
                                members@[k].key@,
                                members@[k].value@,
                            ),
                        self@.member(key@) == lookup_from(self@->Object_0, key@, i as int),
                    decreases members.len() - i,
                {
                    if same_text(members[i].key.as_str(), key) {
                        return Some(&members[i].value);
                    }
                    i = i + 1;
                }
                None
            },
            _ => None,
        }
    }

    /// The text of a string value.
    pub fn as_str(&self) -> (r: Option<&String>)
        ensures
            opt_text(r) == self@.text(),
    {
        match self {
            Json::Str(s) => Some(s),
            _ => None,
        }
    }

    /// The text of the string member `key`.
    pub fn get_str(&self, key: &str) -> (r: Option<&String>)
        ensures
            opt_text(r) == self@.member_text(key@),
    {
        match self.get(key) {
            Some(v) => v.as_str(),
            None => None,
        }
    }

    /// The object with the one member `key`.
    pub fn object1(key: &str, value: Json) -> (r: Json)
        ensures
            r@ == JsonModel::Object(seq![(key@, value@)]),
    {
        let mut members: Vec<Member> = Vec::new();
        members.push(Member { key: String::from_str(key), value });
        let r = Json::Object(members);
        assert(r@->Object_0 =~= seq![(key@, value@)]);
        r
    }

    /// The object with the members `first` and `second`, in this order.
    pub fn object2(first: &str, a: Json, second: &str, b: Json) -> (r: Json)
        ensures
            r@ == JsonModel::Object(seq![(first@, a@), (second@, b@)]),
    {
        let mut members: Vec<Member> = Vec::new();
        members.push(Member { key: String::from_str(first), value: a });
        members.push(Member { key: String::from_str(second), value: b });
        let r = Json::Object(members);
        assert(r@->Object_0 =~= seq![(first@, a@), (second@, b@)]);
        r
    }

    /// The string value that holds `text`.
    pub fn string(text: &str) -> (r: Json)
        ensures
            r@ == JsonModel::Str(text@),
    {
        Json::Str(String::from_str(text))
    }

    /// Whether the value is `null`.
    pub fn is_null(&self) -> (r: bool)
        ensures
            r == (self@ is Null),
    {
        match self {
            Json::Null => true,
            _ => false,
        }
    }
}

impl Clone for Json {
    #[verifier::loop_isolation(false)]
    fn clone(&self) -> (r: Json)
        ensures
            r@ == self@,
        decreases self,
    {
        match self {
            Json::Null => Json::Null,
            Json::Bool(b) => Json::Bool(*b),
            Json::Number(n) => Json::Number(n.clone()),
            Json::Str(s) => Json::Str(s.clone()),
            Json::Array(items) => {
                let mut out: Vec<Json> = Vec::new();
                let mut i: usize = 0;
                while i < items.len()
                    invariant
                        *self == Json::Array(*items),
                        i <= items.len(),
                        out.len() == i,
                        forall|k: int| 0 <= k < i ==> out@[k]@ == items@[k]@,
                    decreases items.len() - i,
                {
                    proof {
                        vstd::std_specs::vec::axiom_vec_index_decreases(*items, i as int);
                    }
                    let item = items[i].clone();
                    out.push(item);
                    i = i + 1;
                }
                let r = Json::Array(out);
                assert(r@->Array_0 =~= self@->Array_0);
                r
            },
            Json::Object(members) => {
                let mut out: Vec<Member> = Vec::new();
                let mut i: usize = 0;
                while i < members.len()
                    invariant
                        *self == Json::Object(*members),
                        i <= members.len(),
                        out.len() == i,
                        forall|k: int|
                            0 <= k < i ==> out@[k].key@ == members@[k].key@ && out@[k].value@
                                == members@[k].value@,
                    decreases members.len() - i,
                {
                    let key = members[i].key.clone();
                    proof {
                        vstd::std_specs::vec::axiom_vec_index_decreases(*members, i as int);
                    }
                    let value = members[i].value.clone();
                    out.push(Member { key, value });
                    i = i + 1;
                }
                let r = Json::Object(out);
                assert(r@->Object_0 =~= self@->Object_0);
                r
            },
        }
    }
}

impl Clone for Member {
    fn clone(&self) -> (r: Member)
        ensures
            r.key@ == self.key@,
            r.value@ == self.value@,
    {
        Member { key: self.key.clone(), value: self.value.clone() }
    }
}

} // verus!
