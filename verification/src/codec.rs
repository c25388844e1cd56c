//! JSON values from and to `serde_json`, and their text.

use crate::json::{
    json_view, lemma_item_smaller, lemma_member_smaller, members_view, Float, Json, JsonView,
};
use vstd::prelude::*;

verus! {

/// Declares `serde_json::Value`; what it holds goes by `value_content`.
#[verifier::external_type_specification]
#[verifier::external_body]
pub struct ExValue(serde_json::Value);

/// Declares `serde_json::Map`; what it holds goes by `map_content`.
#[verifier::external_type_specification]
#[verifier::external_body]
#[verifier::reject_recursive_types(K)]
#[verifier::reject_recursive_types(V)]
pub struct ExMap<K, V>(serde_json::Map<K, V>);

/// Declares `serde_json::Error`, which is only handed on.
#[verifier::external_type_specification]
#[verifier::external_body]
pub struct ExError(serde_json::Error);

/// What a `serde_json::Value` holds.
pub uninterp spec fn value_content(value: serde_json::Value) -> JsonView;

/// What a `serde_json::Map` of values holds.
pub uninterp spec fn map_content(
    map: serde_json::Map<String, serde_json::Value>,
) -> Map<Seq<char>, JsonView>;

/// What `serde_json::from_str` reads a text as: `None` where it is not the text
/// of one JSON value.
pub uninterp spec fn text_reading(text: Seq<char>) -> Option<JsonView>;

/// The compact text that `serde_json` prints a value as, members in the order of
/// their keys.
pub uninterp spec fn value_text(value: JsonView) -> Seq<char>;

/// The number that `serde_json::Number::from_f64` makes of a decimal text, or
/// null where the text is not that of a finite number.
pub uninterp spec fn float_reading(text: Seq<char>) -> JsonView;

/// A `serde_json::Value` with its outermost layer taken off.
pub(crate) enum Layer {
    Null,
    Bool(bool),
    Uint(u64),
    Int(i64),
    Float(String),
    Text(String),
    Array(Vec<serde_json::Value>),
    Object(serde_json::Map<String, serde_json::Value>),
}

/// The content of the value that a layer was taken off.
pub(crate) closed spec fn layer_content(layer: Layer) -> JsonView {
    match layer {
        Layer::Null => JsonView::Null,
        Layer::Bool(b) => JsonView::Bool(b),
        Layer::Uint(n) => JsonView::Integer(n as int),
        Layer::Int(n) => JsonView::Integer(n as int),
        Layer::Float(text) => float_reading(text@),
        Layer::Text(text) => JsonView::Text(text@),
        Layer::Array(items) => JsonView::Array(
            items@.map_values(|item: serde_json::Value| value_content(item)),
        ),
        Layer::Object(map) => JsonView::Object(map_content(map)),
    }
}

/// The content of the members of an object; the last of a key counts.
pub(crate) closed spec fn members_content(members: Seq<(String, serde_json::Value)>) -> Map<
    Seq<char>,
    JsonView,
>
    decreases members.len(),
{
    if members.len() == 0 {
        Map::empty()
    } else {
        members_content(members.drop_last()).insert(
            members.last().0@,
            value_content(members.last().1),
        )
    }
}

/// A value means what its outermost layer holds: a scalar itself, an array as
/// many items, each what it means by itself, and an object what the map holds.
pub(crate) proof fn law_layer(layer: Layer)
    ensures
        layer is Null ==> layer_content(layer) is Null,
        layer matches Layer::Bool(b) ==> layer_content(layer) == JsonView::Bool(b),
        layer matches Layer::Uint(n) ==> layer_content(layer) == JsonView::Integer(n as int),
        layer matches Layer::Int(n) ==> layer_content(layer) == JsonView::Integer(n as int),
        layer matches Layer::Float(text) ==> layer_content(layer) == float_reading(text@),
        layer matches Layer::Text(text) ==> layer_content(layer) == JsonView::Text(text@),
        layer matches Layer::Array(items) ==> {
            &&& layer_content(layer) is Array
            &&& layer_content(layer)->Array_0.len() == items@.len()
            &&& forall|i: int|
                0 <= i < items@.len() ==> layer_content(layer)->Array_0[i] == value_content(
                    #[trigger] items@[i],
                )
        },
        layer matches Layer::Object(map) ==> layer_content(layer) == JsonView::Object(
            map_content(map),
        ),
{
}

/// No two members have the same key.
pub(crate) open spec fn distinct_keys(members: Seq<(String, serde_json::Value)>) -> bool {
    forall|i: int, j: int|
        0 <= i < j < members.len() ==> (#[trigger] members[i]).0@ != (#[trigger] members[j]).0@
}

/// A member with a key of its own is in the content.
proof fn lemma_members_content(members: Seq<(String, serde_json::Value)>, i: int)
    requires
        distinct_keys(members),
        0 <= i < members.len(),
    ensures
        members_content(members).dom().finite(),
        members_content(members).contains_key(members[i].0@),
        members_content(members)[members[i].0@] == value_content(members[i].1),
    decreases members.len(),
{
    let rest = members.drop_last();
    if rest.len() > 0 {
        assert(distinct_keys(rest)) by {
            assert forall|a: int, b: int| 0 <= a < b < rest.len() implies (#[trigger] rest[a]).0@
                != (#[trigger] rest[b]).0@ by {
                assert(rest[a] == members[a] && rest[b] == members[b]);
            }
        }
        if i < rest.len() {
            lemma_members_content(rest, i);
            assert(members[i].0@ != members[rest.len() as int].0@);
        } else {
            lemma_members_content(rest, 0);
        }
    } else {
        assert(members_content(rest) == Map::<Seq<char>, JsonView>::empty());
    }
}

/// Takes a `serde_json::Value` apart into its variant's fields. A number is
/// told apart by `Number::as_u64` and `Number::as_i64`; one that is neither is
/// a float, and its text, from `Number`'s `Display`, reads back as the same
/// float.
#[verifier::external_body]
fn open_value(value: serde_json::Value) -> (layer: Layer)
    ensures
        layer_content(layer) == value_content(value),
        layer matches Layer::Float(text) ==> float_reading(text@) == JsonView::Float(text@),
{
    match value {
        serde_json::Value::Null => Layer::Null,
        serde_json::Value::Bool(b) => Layer::Bool(b),
        serde_json::Value::Number(n) => match (n.as_u64(), n.as_i64()) {
            (Some(u), _) => Layer::Uint(u),
            (None, Some(i)) => Layer::Int(i),
            (None, None) => Layer::Float(n.to_string()),
        },
        serde_json::Value::String(s) => Layer::Text(s),
        serde_json::Value::Array(items) => Layer::Array(items),
        serde_json::Value::Object(map) => Layer::Object(map),
    }
}

/// Lists the members of a `serde_json::Map` through its `IntoIterator`: each
/// key that it holds, once, with its value.
#[verifier::external_body]
fn map_members(map: serde_json::Map<String, serde_json::Value>) -> (members: Vec<
    (String, serde_json::Value),
>)
    ensures
        distinct_keys(members@),
        members_content(members@) == map_content(map),
{
    map.into_iter().collect()
}

/// Makes an empty map with `serde_json::Map::new`.
#[verifier::external_body]
fn new_map() -> (map: serde_json::Map<String, serde_json::Value>)
    ensures
        map_content(map) == members_view(Seq::empty()),
{
    serde_json::Map::new()
}

/// Sets the value under a key with `serde_json::Map::insert`, which replaces the
/// one that was there.
#[verifier::external_body]
fn put_value(
    map: &mut serde_json::Map<String, serde_json::Value>,
    key: String,
    value: serde_json::Value,
)
    ensures
        map_content(*final(map)) == map_content(*old(map)).insert(key@, value_content(value)),
{
    map.insert(key, value);
}

/// Reads a text with `serde_json::from_str`. Whether it can be read, and as
/// what, depends on the text alone.
#[verifier::external_body]
fn read_value(text: &str) -> (read: Result<serde_json::Value, serde_json::Error>)
    ensures
        match read {
            Ok(value) => text_reading(text@) == Some(value_content(value)),
            Err(_) => text_reading(text@) is None,
        },
{
    serde_json::from_str(text)
}

/// Builds a `serde_json::Value` of the variant that the layer names. Integers
/// go through `Value::from`, a float's text through `str::parse` and
/// `Number::from_f64`.
#[verifier::external_body]
fn build_value(layer: Layer) -> (value: serde_json::Value)
    ensures
        value_content(value) == layer_content(layer),
{
    match layer {
        Layer::Null => serde_json::Value::Null,
        Layer::Bool(b) => serde_json::Value::Bool(b),
        Layer::Uint(n) => serde_json::Value::from(n),
        Layer::Int(n) => serde_json::Value::from(n),
        Layer::Float(text) => serde_json::Value::from(
            text.parse().ok().and_then(serde_json::Number::from_f64),
        ),
        Layer::Text(text) => serde_json::Value::String(text),
        Layer::Array(items) => serde_json::Value::Array(items),
        Layer::Object(map) => serde_json::Value::Object(map),
    }
}

/// Prints a value through `serde_json::Value`'s `Display`. `serde_json::from_str`
/// reads the text back as the value, unless it holds a float, which it may read
/// as a neighbouring one, or is nested deeper than the 127 levels that its
/// recursion limit lets through.
#[verifier::external_body]
fn print_value(value: &serde_json::Value) -> (text: String)
    ensures
        text@ == value_text(value_content(*value)),
        reads_back(value_content(*value), 127) ==> text_reading(text@) == Some(
            value_content(*value),
        ),
{
    value.to_string()
}

/// A value without floats, with at most `depth` arrays and objects inside one another.
pub open spec fn reads_back(value: JsonView, depth: nat) -> bool
    decreases value,
{
    match value {
        JsonView::Float(_) => false,
        JsonView::Array(items) => depth > 0 && forall|i: int|
            0 <= i < items.len() ==> reads_back(#[trigger] items[i], (depth - 1) as nat),
        JsonView::Object(members) => depth > 0 && members.dom().finite() && forall|key: Seq<char>|
            members.contains_key(key) ==> reads_back(#[trigger] members[key], (depth - 1) as nat),
        _ => true,
    }
}

impl Json {
    /// Takes over a `serde_json::Value`.
    pub fn from_value(value: serde_json::Value) -> (json: Json)
        ensures
            json@ == value_content(value),
        decreases value_content(value),
    {
        match open_value(value) {
            Layer::Null => Json::Null,
            Layer::Bool(b) => Json::Bool(b),
            Layer::Uint(n) => Json::Uint(n),
            Layer::Int(n) => Json::Int(n),
            Layer::Float(text) => Json::Float(Float::new(text)),
            Layer::Text(text) => Json::Text(text),
            Layer::Array(items) => {
                let mut taken: Vec<Json> = Vec::new();
                for item in it: items.into_iter()
                    invariant
                        taken@.len() == it.index(),
                        it.seq() == items@,
                        value_content(value) == JsonView::Array(
                            items@.map_values(|item: serde_json::Value| value_content(item)),
                        ),
                        forall|i: int|
                            0 <= i < taken@.len() ==> json_view(#[trigger] taken@[i])
                                == value_content(items@[i]),
                {
                    let ghost n = it.index() as int;
                    assert(item == items@[n]);
                    assert(value_content(item) == (value_content(value)->Array_0)[n]);
                    taken.push(Json::from_value(item));
                }
                let json = Json::Array(taken);
                assert(json@->Array_0 =~= value_content(value)->Array_0);
                json
            },
            Layer::Object(map) => {
                let members = map_members(map);
                let mut taken: Vec<(String, Json)> = Vec::new();
                for member in it: members.into_iter()
                    invariant
                        taken@.len() == it.index(),
                        it.seq() == members@,
                        distinct_keys(members@),
                        value_content(value) == JsonView::Object(members_content(members@)),
                        members_view(taken@) == members_content(members@.take(it.index() as int)),
                {
                    let ghost n = it.index() as int;
                    let ghost before = taken@;
                    assert(member == members@[n]);
                    proof {
                        lemma_members_content(members@, n);
                        let content = value_content(value)->Object_0;
                        assert(decreases_to!(value_content(value) => content));
                        assert(decreases_to!(content => content[member.0@]));
                    }
                    let (key, inner) = member;
                    taken.push((key, Json::from_value(inner)));
                    assert(taken@.drop_last() =~= before);
                    assert(members@.take(n + 1).drop_last() =~= members@.take(n));
                }
                assert(members@.take(members@.len() as int) =~= members@);
                Json::Object(taken)
            },
        }
    }

    /// This value as a `serde_json::Value`.
    pub fn to_value(&self) -> (value: serde_json::Value)
        ensures
            value_content(value) == self@,
        decreases self,
    {
        match self {
            Json::Null => build_value(Layer::Null),
            Json::Bool(b) => build_value(Layer::Bool(*b)),
            Json::Uint(n) => build_value(Layer::Uint(*n)),
            Json::Int(n) => build_value(Layer::Int(*n)),
            Json::Float(f) => build_value(Layer::Float(f.as_str().to_owned())),
            Json::Text(text) => build_value(Layer::Text(text.clone())),
            Json::Array(items) => {
                let mut values: Vec<serde_json::Value> = Vec::new();
                for i in 0..items.len()
                    invariant
                        *self == Json::Array(*items),
                        values@.len() == i,
                        forall|j: int|
                            0 <= j < i ==> value_content(#[trigger] values@[j]) == json_view(
                                items@[j],
                            ),
                {
                    proof {
                        lemma_item_smaller(*self, i as int);
                    }
                    values.push(items[i].to_value());
                }
                let value = build_value(Layer::Array(values));
                assert(value_content(value)->Array_0 =~= self@->Array_0);
                value
            },
            Json::Object(members) => {
                let mut map = new_map();
                assert(members@.take(0) =~= Seq::empty());
                for i in 0..members.len()
                    invariant
                        *self == Json::Object(*members),
                        map_content(map) == members_view(members@.take(i as int)),
                {
                    proof {
                        lemma_member_smaller(*self, i as int);
                    }
                    put_value(&mut map, members[i].0.clone(), members[i].1.to_value());
                    assert(members@.take(i + 1).drop_last() =~= members@.take(i as int));
                }
                assert(members@.take(members@.len() as int) =~= members@);
                build_value(Layer::Object(map))
            },
        }
    }

    /// Reads a JSON text.
    pub fn parse(text: &str) -> (read: Result<Json, serde_json::Error>)
        ensures
            match read {
                Ok(json) => text_reading(text@) == Some(json@),
                Err(_) => text_reading(text@) is None,
            },
    {
        match read_value(text) {
            Ok(value) => Ok(Json::from_value(value)),
            Err(error) => Err(error),
        }
    }

    /// The compact JSON text of this value.
    pub fn to_text(&self) -> (text: String)
        ensures
            text@ == value_text(self@),
            reads_back(self@, 127) ==> text_reading(text@) == Some(self@),
    {
        print_value(&self.to_value())
    }
}

} // verus!
