//! What values hold: JSON values and how they are read, the types that users
//! see, and texts.

use crate::call::{calls_all, Call};
use crate::codec::{reads_back, text_reading};
use crate::inbound::optional_view;
use crate::json::{put_member, Json, JsonView};
use crate::push::ApiRequest;
use crate::text::{decimal_text, trim_trailing_slashes};
use crate::types::{
    optional_str, optional_text, HistoryMessage, HistoryOptions, HistoryResult, Message,
    MessageMeta, PresenceMember, PushPayload,
};
use vstd::prelude::*;

verus! {

// How members are read.

/// The members of a value: those of an object, and otherwise none.
pub open spec fn members_of(value: JsonView) -> Map<Seq<char>, JsonView> {
    match value {
        JsonView::Object(members) => members,
        _ => Map::empty(),
    }
}

/// `text` is the text that stands under `key`, or, where no text does, `default`.
pub open spec fn reads_text(
    members: Map<Seq<char>, JsonView>,
    key: Seq<char>,
    default: Seq<char>,
    text: Seq<char>,
) -> bool {
    if members.contains_key(key) && members[key] is Text {
        members[key] == JsonView::Text(text)
    } else {
        text == default
    }
}

/// `number` is the integer that stands under `key`, or, where none does that a
/// `u64` holds, zero.
pub open spec fn reads_number(
    members: Map<Seq<char>, JsonView>,
    key: Seq<char>,
    number: u64,
) -> bool {
    if members.contains_key(key) && members[key] is Integer && 0 <= members[key]->Integer_0
        <= u64::MAX {
        members[key] == JsonView::Integer(number as int)
    } else {
        number == 0
    }
}

/// `data` is what stands under `data`, or, where nothing does, null.
pub open spec fn reads_data(members: Map<Seq<char>, JsonView>, data: JsonView) -> bool {
    if members.contains_key("data"@) {
        members["data"@] == data
    } else {
        data == JsonView::Null
    }
}

/// Where `key` occurs last among the members of an object, if it does.
pub open spec fn is_last(members: Seq<(String, Json)>, key: Seq<char>, i: int) -> bool {
    &&& 0 <= i < members.len()
    &&& members[i].0@ == key
    &&& forall|j: int| i < j < members.len() ==> (#[trigger] members[j]).0@ != key
}

/// A scalar means what it holds; an array as many items as it holds, each what
/// it means by itself; and an object, under every key that occurs, what the
/// last of that key means by itself, and nothing under any other.
pub proof fn law_json_means_what_it_holds(value: Json, key: Seq<char>)
    ensures
        value is Null <==> value@ is Null,
        value matches Json::Bool(b) ==> value@ == JsonView::Bool(b),
        value matches Json::Uint(n) ==> value@ == JsonView::Integer(n as int),
        value matches Json::Int(n) ==> value@ == JsonView::Integer(n as int),
        value matches Json::Float(f) ==> value@ == JsonView::Float(f@),
        value matches Json::Text(s) ==> value@ == JsonView::Text(s@),
        value matches Json::Array(items) ==> {
            &&& value@ is Array
            &&& value@->Array_0.len() == items@.len()
            &&& forall|i: int|
                0 <= i < items@.len() ==> value@->Array_0[i] == (#[trigger] items@[i])@
        },
        value matches Json::Object(members) ==> {
            &&& value@ is Object
            &&& value@->Object_0.contains_key(key) <==> exists|i: int|
                #[trigger] is_last(members@, key, i)
            &&& forall|i: int| #[trigger]
                is_last(members@, key, i) ==> value@->Object_0[key] == members@[i].1@
        },
{
    if let Json::Object(members) = value {
        lemma_last_counts(members@, key);
    }
}

/// What an object means under a key is what the last of that key means.
proof fn lemma_last_counts(members: Seq<(String, Json)>, key: Seq<char>)
    ensures
        crate::json::members_view(members).contains_key(key) <==> exists|i: int|
            #[trigger] is_last(members, key, i),
        forall|i: int| #[trigger]
            is_last(members, key, i) ==> crate::json::members_view(members)[key] == members[i].1@,
    decreases members.len(),
{
    if members.len() > 0 {
        let rest = members.drop_last();
        let last = members.len() - 1;
        lemma_last_counts(rest, key);
        if members[last].0@ == key {
            assert(is_last(members, key, last));
            assert forall|i: int| #[trigger] is_last(members, key, i) implies i == last by {
                if i < last {
                    assert(members[last].0@ != key);
                }
            }
        } else {
            assert forall|i: int| #[trigger]
                is_last(members, key, i) <==> is_last(rest, key, i) by {
                if is_last(members, key, i) {
                    assert(rest[i] == members[i]);
                    assert forall|j: int| i < j < rest.len() implies (#[trigger] rest[j]).0@
                        != key by {
                        assert(rest[j] == members[j]);
                    }
                }
                if is_last(rest, key, i) {
                    assert(rest[i] == members[i]);
                    assert forall|j: int| i < j < members.len() implies (#[trigger] members[j]).0@
                        != key by {
                        if j < last {
                            assert(rest[j] == members[j]);
                        }
                    }
                }
            }
            if exists|i: int| #[trigger] is_last(rest, key, i) {
                let i = choose|i: int| #[trigger] is_last(rest, key, i);
                assert(is_last(members, key, i));
            }
            if exists|i: int| #[trigger] is_last(members, key, i) {
                let i = choose|i: int| #[trigger] is_last(members, key, i);
                assert(is_last(rest, key, i));
            }
        }
    }
}

/// The member under a key is found just where the value is an object that has
/// one, and is that one.
pub proof fn law_get_finds_the_member(value: Json, key: &str, found: Option<&Json>)
    requires
        call_ensures(Json::get, (&value, key), found),
    ensures
        found is Some <==> members_of(value@).contains_key(key@),
        found matches Some(member) ==> member@ == members_of(value@)[key@],
{
}

/// A value is taken for a text, a number, a truth value or an array just where
/// it is one, and then for the one that it is.
pub proof fn law_values_are_taken_as_they_are(
    value: Json,
    text: Option<&str>,
    number: Option<u64>,
    truth: Option<bool>,
    items: Option<&Vec<Json>>,
)
    requires
        call_ensures(Json::as_str, (&value,), text),
        call_ensures(Json::as_u64, (&value,), number),
        call_ensures(Json::as_bool, (&value,), truth),
        call_ensures(Json::as_array, (&value,), items),
    ensures
        text is Some <==> value@ is Text,
        text matches Some(text) ==> value@ == JsonView::Text(text@),
        number is Some <==> value@ is Integer && 0 <= value@->Integer_0 <= u64::MAX,
        number matches Some(number) ==> value@ == JsonView::Integer(number as int),
        truth is Some <==> value@ is Bool,
        truth matches Some(truth) ==> value@ == JsonView::Bool(truth),
        items is Some <==> value@ is Array,
        items matches Some(items) ==> items@.len() == value@->Array_0.len() && forall|i: int|
            0 <= i < items@.len() ==> (#[trigger] items@[i])@ == value@->Array_0[i],
{
}

/// Setting a member puts it under its key and leaves what is under every other.
pub proof fn law_put_member(
    members: &mut Vec<(String, Json)>,
    key: &str,
    value: Json,
    other: Seq<char>,
)
    requires
        call_ensures(put_member, (members, key, value), ()),
    ensures
        ({
            let before = members_of(Json::Object(*old(members))@);
            let after = members_of(Json::Object(*final(members))@);
            &&& after.contains_key(key@)
            &&& after[key@] == value@
            &&& other != key@ ==> after.contains_key(other) == before.contains_key(other)
            &&& other != key@ && before.contains_key(other) ==> after[other] == before[other]
        }),
{
}

/// A value that goes to `serde_json` and back means what it meant. A text is
/// read just where it is that of a value, and as that value; and what a value
/// that reads back is printed as is read as that value.
pub proof fn law_values_go_round(
    json: Json,
    value: serde_json::Value,
    back: Json,
    text: &str,
    read: Result<Json, serde_json::Error>,
    printed: String,
)
    requires
        call_ensures(Json::to_value, (&json,), value),
        call_ensures(Json::from_value, (value,), back),
        call_ensures(Json::parse, (text,), read),
        call_ensures(Json::to_text, (&json,), printed),
    ensures
        back@ == json@,
        read is Ok <==> text_reading(text@) is Some,
        read matches Ok(found) ==> text_reading(text@) == Some(found@),
        text@ == printed@ && reads_back(json@, 127) ==> (read matches Ok(found) && found@ == json@),
{
}

/// A value reads back from its text unless a float stands somewhere in it or it
/// is nested too deep: an array or object of `depth` levels holds values of at
/// most one level less.
pub proof fn law_what_reads_back(value: JsonView, depth: nat)
    ensures
        value is Null || value is Bool || value is Integer || value is Text ==> reads_back(
            value,
            depth,
        ),
        value is Float ==> !reads_back(value, depth),
        value is Array || value is Object ==> !reads_back(value, 0),
        value matches JsonView::Array(items) ==> (reads_back(value, depth + 1) <==> forall|i: int|
            0 <= i < items.len() ==> reads_back(#[trigger] items[i], depth)),
        value matches JsonView::Object(members) ==> (reads_back(value, depth + 1) <==>
            members.dom().finite() && forall|key: Seq<char>|
            members.contains_key(key) ==> reads_back(#[trigger] members[key], depth)),
{
}

// The types that users see.

/// What stands for a value of one of the users' types has each of its fields.
pub proof fn law_fields_are_kept(
    meta: MessageMeta,
    message: Message,
    member: PresenceMember,
    entry: HistoryMessage,
    result: HistoryResult,
    options: HistoryOptions,
    payload: PushPayload,
    request: ApiRequest,
)
    ensures
        meta@.id == meta.id@,
        meta@.channel == meta.channel@,
        meta@.timestamp == meta.timestamp,
        message@.data == message.data@,
        message@.meta == message.meta@,
        member@.client_id == member.client_id@,
        member@.data == member.data@,
        member@.joined_at == member.joined_at,
        entry@.id == entry.id@,
        entry@.channel == entry.channel@,
        entry@.data == entry.data@,
        entry@.publisher_id == entry.publisher_id@,
        entry@.timestamp == entry.timestamp,
        entry@.sequence == entry.sequence,
        result@.channel == result.channel@,
        result@.has_more == result.has_more,
        result@.messages.len() == result.messages@.len(),
        forall|i: int|
            0 <= i < result.messages@.len() ==> result@.messages[i] == (
            #[trigger] result.messages@[i])@,
        options@.limit == options.limit,
        options@.before == options.before,
        options@.after == options.after,
        options@.direction is Some == options.direction is Some,
        options.direction matches Some(text) ==> options@.direction == Some(text@),
        payload@.title == payload.title@,
        payload@.body is Some == payload.body is Some,
        payload.body matches Some(text) ==> payload@.body == Some(text@),
        payload@.icon is Some == payload.icon is Some,
        payload.icon matches Some(text) ==> payload@.icon == Some(text@),
        payload@.url is Some == payload.url is Some,
        payload.url matches Some(text) ==> payload@.url == Some(text@),
        payload@.data is Some == payload.data is Some,
        payload.data matches Some(data) ==> payload@.data == Some(data@),
        request@.method == request.method,
        request@.url == request.url@,
        request@.authorization == request.authorization@,
        request@.content_type == request.content_type@,
        request@.body is Some == request.body is Some,
        request.body matches Some(text) ==> request@.body == Some(text@),
{
}

/// A copy has the same contents in every field as what it was made of.
pub proof fn law_copies_are_equal(
    json: Json,
    json_copy: Json,
    message: Message,
    message_copy: Message,
    member: PresenceMember,
    member_copy: PresenceMember,
    result: HistoryResult,
    result_copy: HistoryResult,
    i: int,
)
    requires
        cloned(json, json_copy),
        cloned(message, message_copy),
        cloned(member, member_copy),
        cloned(result, result_copy),
        0 <= i < result.messages@.len(),
    ensures
        json_copy@ == json@,
        message_copy.data@ == message.data@,
        message_copy.meta.id@ == message.meta.id@,
        message_copy.meta.channel@ == message.meta.channel@,
        message_copy.meta.timestamp == message.meta.timestamp,
        member_copy.client_id@ == member.client_id@,
        member_copy.data@ == member.data@,
        member_copy.joined_at == member.joined_at,
        result_copy.channel@ == result.channel@,
        result_copy.has_more == result.has_more,
        result_copy.messages@.len() == result.messages@.len(),
        result_copy.messages@[i].id@ == result.messages@[i].id@,
        result_copy.messages@[i].channel@ == result.messages@[i].channel@,
        result_copy.messages@[i].data@ == result.messages@[i].data@,
        result_copy.messages@[i].publisher_id@ == result.messages@[i].publisher_id@,
        result_copy.messages@[i].timestamp == result.messages@[i].timestamp,
        result_copy.messages@[i].sequence == result.messages@[i].sequence,
{
    assert(message_copy@ == message@);
    assert(member_copy@ == member@);
    assert(result_copy@ == result@);
    assert(result_copy@.messages.len() == result@.messages.len());
    assert(result_copy@.messages[i] == result@.messages[i]);
    assert(result_copy.messages@[i]@ == result.messages@[i]@);
}

/// A copy of the options of a history query, and of the fields of a push
/// notification, has the same contents in every field.
pub proof fn law_copied_options_are_equal(
    options: HistoryOptions,
    options_copy: HistoryOptions,
    payload: PushPayload,
    payload_copy: PushPayload,
)
    requires
        cloned(options, options_copy),
        cloned(payload, payload_copy),
    ensures
        options_copy.limit == options.limit,
        options_copy.before == options.before,
        options_copy.after == options.after,
        options_copy.direction is Some <==> options.direction is Some,
        options.direction matches Some(text) ==> options_copy.direction->0@ == text@,
        payload_copy.title@ == payload.title@,
        payload_copy.body is Some <==> payload.body is Some,
        payload.body matches Some(text) ==> payload_copy.body->0@ == text@,
        payload_copy.icon is Some <==> payload.icon is Some,
        payload.icon matches Some(text) ==> payload_copy.icon->0@ == text@,
        payload_copy.url is Some <==> payload.url is Some,
        payload.url matches Some(text) ==> payload_copy.url->0@ == text@,
        payload_copy.data is Some <==> payload.data is Some,
        payload.data matches Some(data) ==> payload_copy.data->0@ == data@,
{
    assert(options_copy@ == options@);
    assert(payload_copy@ == payload@);
}

/// What stands for a value that may be missing is there just where it is.
pub proof fn law_optional_values(
    text: Option<String>,
    slice: Option<&str>,
    value: Option<&Json>,
)
    ensures
        optional_text(text) is Some == text is Some,
        text matches Some(text) ==> optional_text(Some(text)) == Some(text@),
        optional_str(slice) is Some == slice is Some,
        slice matches Some(slice) ==> optional_str(Some(slice)) == Some(slice@),
        optional_view(value) is Some == value is Some,
        value matches Some(value) ==> optional_view(Some(value)) == Some(value@),
{
}

/// The default member has no client id and no data and joined at time zero; the
/// default options of a history query set nothing.
pub proof fn law_defaults_are_empty(member: PresenceMember, options: HistoryOptions)
    requires
        call_ensures(PresenceMember::default, (), member),
        call_ensures(HistoryOptions::default, (), options),
    ensures
        member.client_id@.len() == 0,
        member.data@ is Null,
        member.joined_at == 0,
        options.limit is None,
        options.before is None,
        options.after is None,
        options.direction is None,
{
}

/// Calling all callbacks is one call for each, in order, with the same argument.
pub proof fn law_everyone_is_called<C: Clone, T: DeepView>(
    calls: Seq<Call<C, T>>,
    callbacks: Seq<C>,
    argument: T::V,
    i: int,
)
    requires
        calls_all(calls, callbacks, argument),
        0 <= i < callbacks.len(),
    ensures
        calls.len() == callbacks.len(),
        cloned(callbacks[i], calls[i].callback),
        calls[i].argument.deep_view() == argument,
{
}

// Texts.

/// A text that is trimmed ends in no slash, and the rest of what it was trimmed
/// from is slashes.
pub proof fn law_trimmed_slashes(text: &str, trimmed: String)
    requires
        call_ensures(trim_trailing_slashes, (text,), trimmed),
    ensures
        trimmed@.len() > 0 ==> trimmed@.last() != '/',
        trimmed@.is_prefix_of(text@),
        forall|i: int| trimmed@.len() <= i < text@.len() ==> text@[i] == '/',
{
    crate::laws::law_push_url(text@, Seq::empty(), Seq::empty());
}

/// The number that a text of decimal digits denotes.
pub open spec fn number_of(digits: Seq<char>) -> int
    decreases digits.len(),
{
    if digits.len() == 0 {
        0
    } else {
        number_of(digits.drop_last()) * 10 + (digits.last() as int - '0' as int)
    }
}

/// `digits` is the usual decimal notation of `n`: decimal digits that denote it,
/// and no zero in front of others.
pub open spec fn is_notation(digits: Seq<char>, n: int) -> bool {
    &&& digits.len() > 0
    &&& forall|i: int| 0 <= i < digits.len() ==> '0' <= #[trigger] digits[i] <= '9'
    &&& digits.len() > 1 ==> digits[0] != '0'
    &&& number_of(digits) == n
}

/// A number is written in its usual decimal notation.
pub proof fn law_decimal_notation(n: u16, text: String)
    requires
        call_ensures(decimal_text, (n,), text),
    ensures
        is_notation(text@, n as int),
{
    lemma_decimal(n as nat);
}

/// The decimal notation of a number is its usual one.
pub(crate) proof fn lemma_decimal(n: nat)
    ensures
        is_notation(crate::text::decimal(n), n as int),
        n > 0 ==> crate::text::decimal(n)[0] != '0',
    decreases n,
{
    reveal_strlit("0123456789");
    let digits = crate::text::decimal(n);
    let last = (n % 10) as int;
    assert(crate::text::digit((n % 10) as nat).len() == 1);
    assert(crate::text::digit((n % 10) as nat)[0] == "0123456789"@[last]);
    assert("0123456789"@[last] as int == '0' as int + last);
    if n < 10 {
        assert(digits.drop_last() =~= Seq::<char>::empty());
        assert(number_of(digits.drop_last()) == 0);
        assert(digits.last() as int == '0' as int + n);
    } else {
        lemma_decimal(n / 10);
        assert(digits.drop_last() =~= crate::text::decimal(n / 10));
        assert(digits.last() as int == '0' as int + last);
        assert(digits[0] == crate::text::decimal(n / 10)[0]);
        assert forall|i: int| 0 <= i < digits.len() implies '0' <= #[trigger] digits[i] <= '9' by {
            if i < digits.len() - 1 {
                assert(digits[i] == crate::text::decimal(n / 10)[i]);
            }
        }
    }
}

} // verus!
