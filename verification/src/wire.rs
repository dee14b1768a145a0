//! The wire form of an event, and the laws that tie it to the decoder.

use crate::json::{spec_member, JsonErrorView, JsonView};
use crate::log_item::{
    spec_decode_activity, spec_decode_result, spec_field_list, spec_get_i64, spec_get_level,
    spec_get_str, spec_is_structured, spec_item_of, spec_parse_line, spec_parse_log_item,
    spec_parse_msg, spec_parse_result, spec_parse_start, spec_parse_stop, ActivityType,
    ActivityView, LogItemView, ResultType,
};
use vstd::prelude::*;

verus! {

/// Whether an item is an event of the protocol: a message, a start, an
/// update or a stop.
pub open spec fn spec_is_event(item: LogItemView) -> bool {
    item is Msg || item is Start || item is Result || item is Stop
}

/// The JSON object that reports an event, its members in the order of their
/// keys.
pub open spec fn spec_encode(item: LogItemView) -> JsonView {
    match item {
        LogItemView::Msg { level, msg } => JsonView::Object(
            seq![
                ("action"@, JsonView::Str("msg"@)),
                ("level"@, JsonView::Int(level.spec_code())),
                ("msg"@, JsonView::Str(msg)),
            ],
        ),
        LogItemView::Start { id, level, text, activity } => JsonView::Object(
            seq![
                ("action"@, JsonView::Str("start"@)),
                ("fields"@, JsonView::Array(activity.fields())),
                ("id"@, JsonView::Int(id)),
                ("level"@, JsonView::Int(level.spec_code())),
                ("text"@, JsonView::Str(text)),
                ("type"@, JsonView::Int(activity.kind().spec_code())),
            ],
        ),
        LogItemView::Result { id, result } => JsonView::Object(
            seq![
                ("action"@, JsonView::Str("result"@)),
                ("fields"@, JsonView::Array(result.fields())),
                ("id"@, JsonView::Int(id)),
                ("type"@, JsonView::Int(result.kind().spec_code())),
            ],
        ),
        LogItemView::Stop { id } => JsonView::Object(
            seq![("action"@, JsonView::Str("stop"@)), ("id"@, JsonView::Int(id))],
        ),
        LogItemView::OutputLine(text) => JsonView::Str(text),
        LogItemView::UnknownItem(value) => value,
    }
}

/// Whether the kind tags of a structured line are known: the `type` of a
/// start, and the kind of activity that an update of kind `SetExpected`
/// names in its first field.
pub open spec fn spec_tags_known(value: JsonView) -> bool {
    &&& spec_get_str(value, "action"@) == Some("start"@) ==> (spec_get_i64(value, "type"@) matches Some(
        code,
    ) ==> ActivityType::spec_is_defined(code))
    &&& spec_get_str(value, "action"@) == Some("result"@) && spec_get_i64(value, "type"@) == Some(
        106i64,
    ) ==> (spec_field_list(value) matches Some(list) ==> list.len() > 0 ==> (
    list[0].as_i64() matches Some(code) ==> ActivityType::spec_is_defined(code)))
}

/// The keys and the actions of the protocol are pairwise different.
pub proof fn lemma_words_differ()
    ensures
        "action"@ != "fields"@,
        "action"@ != "id"@,
        "action"@ != "level"@,
        "action"@ != "msg"@,
        "action"@ != "text"@,
        "action"@ != "type"@,
        "fields"@ != "id"@,
        "fields"@ != "level"@,
        "fields"@ != "msg"@,
        "fields"@ != "text"@,
        "fields"@ != "type"@,
        "id"@ != "level"@,
        "id"@ != "msg"@,
        "id"@ != "text"@,
        "id"@ != "type"@,
        "level"@ != "msg"@,
        "level"@ != "text"@,
        "level"@ != "type"@,
        "msg"@ != "text"@,
        "msg"@ != "type"@,
        "text"@ != "type"@,
        "msg"@ != "start"@,
        "msg"@ != "stop"@,
        "msg"@ != "result"@,
        "start"@ != "stop"@,
        "start"@ != "result"@,
        "stop"@ != "result"@,
{
    reveal_strlit("action");
    reveal_strlit("fields");
    reveal_strlit("id");
    reveal_strlit("level");
    reveal_strlit("msg");
    reveal_strlit("text");
    reveal_strlit("type");
    reveal_strlit("start");
    reveal_strlit("stop");
    reveal_strlit("result");
    assert("action"@.len() == 6 && "fields"@.len() == 6 && "result"@.len() == 6);
    assert("level"@.len() == 5 && "start"@.len() == 5);
    assert("text"@.len() == 4 && "type"@.len() == 4 && "stop"@.len() == 4);
    assert("msg"@.len() == 3 && "id"@.len() == 2);
    assert("action"@[0] != "fields"@[0]);
    assert("text"@[1] != "type"@[1]);
}

/// Decoding undoes encoding: the object that reports an event is read back
/// as that event.
pub proof fn lemma_decode_encode(item: LogItemView)
    requires
        spec_is_event(item),
    ensures
        spec_parse_log_item(spec_encode(item)) == Some(item),
        spec_item_of(spec_encode(item)) == item,
{
    lemma_words_differ();
    reveal_with_fuel(spec_member, 8);
    let value = spec_encode(item);
    match item {
        LogItemView::Msg { level, msg } => {
            assert(spec_get_str(value, "action"@) == Some("msg"@));
            assert(spec_get_level(value) == Some(level));
            assert(spec_get_str(value, "msg"@) == Some(msg));
        },
        LogItemView::Start { id, level, text, activity } => {
            assert(spec_get_str(value, "action"@) == Some("start"@));
            assert(spec_get_i64(value, "type"@) == Some(activity.kind().spec_code()));
            assert(spec_get_i64(value, "id"@) == Some(id));
            assert(spec_get_level(value) == Some(level));
            assert(spec_get_str(value, "text"@) == Some(text));
            assert(spec_field_list(value) == Some(activity.fields()));
            assert(ActivityType::spec_from_code(activity.kind().spec_code()) == activity.kind());
            assert(spec_decode_activity(activity.kind(), Some(activity.fields())) == Some(
                activity,
            ));
        },
        LogItemView::Result { id, result } => {
            assert(spec_get_str(value, "action"@) == Some("result"@));
            assert(spec_get_i64(value, "type"@) == Some(result.kind().spec_code()));
            assert(spec_get_i64(value, "id"@) == Some(id));
            assert(spec_field_list(value) == Some(result.fields()));
            assert(ResultType::spec_from_code(result.kind().spec_code()) == Some(result.kind()));
            assert(spec_decode_result(result.kind(), Some(result.fields())) == Some(result));
        },
        LogItemView::Stop { id } => {
            assert(spec_get_str(value, "action"@) == Some("stop"@));
            assert(spec_get_i64(value, "id"@) == Some(id));
        },
        _ => {},
    }
}

/// Whether the decoder reads the fields of a line for an item: it does for
/// every update, and for the start of an activity whose kind carries fields.
pub open spec fn spec_reads_fields(item: LogItemView) -> bool {
    match item {
        LogItemView::Start { activity, .. } => activity.kind().has_fields(),
        LogItemView::Result { .. } => true,
        _ => false,
    }
}

/// Encoding undoes decoding: where a value with known kind tags is read as
/// an event, every member that the event's encoding has stands in the value
/// with the same content.  The one exception is the member `fields` of a
/// start whose kind carries no fields: the decoder does not read it, and the
/// encoding holds the empty list there.
pub proof fn lemma_encode_decode(value: JsonView, item: LogItemView)
    requires
        spec_parse_log_item(value) == Some(item),
        spec_tags_known(value),
    ensures
        spec_is_event(item),
        forall|key: Seq<char>|
            key != "fields"@ && (#[trigger] spec_encode(item).get(key)) is Some ==> value.get(key)
                == spec_encode(item).get(key),
        spec_reads_fields(item) ==> value.get("fields"@) == spec_encode(item).get("fields"@),
        item is Start && !spec_reads_fields(item) ==> spec_encode(item).get("fields"@) == Some(
            JsonView::Array(Seq::empty()),
        ),
{
    lemma_words_differ();
    reveal_with_fuel(spec_member, 8);
    let action = spec_get_str(value, "action"@)->Some_0;
    let encoded = spec_encode(item);
    assert(value.get("action"@) == Some(JsonView::Str(action)));
    if action == "msg"@ {
        assert(spec_parse_msg(value) == Some(item));
        assert forall|key: Seq<char>|
            key != "fields"@ && (#[trigger] encoded.get(key)) is Some implies value.get(key)
            == encoded.get(key) by {
            assert(key == "action"@ || key == "level"@ || key == "msg"@);
        }
    } else if action == "start"@ {
        assert(spec_parse_start(value) == Some(item));
        let activity = item->Start_activity;
        let list = spec_field_list(value);
        assert(spec_decode_activity(activity.kind(), list) == Some(activity));
        assert forall|key: Seq<char>|
            key != "fields"@ && (#[trigger] encoded.get(key)) is Some implies value.get(key)
            == encoded.get(key) by {
            assert(key == "action"@ || key == "id"@ || key == "level"@ || key == "text"@ || key
                == "type"@);
        }
        if activity.kind().has_fields() {
            assert(list->Some_0 =~= activity.fields());
        }
    } else if action == "stop"@ {
        assert(spec_parse_stop(value) == Some(item));
        assert forall|key: Seq<char>|
            key != "fields"@ && (#[trigger] encoded.get(key)) is Some implies value.get(key)
            == encoded.get(key) by {
            assert(key == "action"@ || key == "id"@);
        }
    } else {
        assert(action == "result"@);
        assert(spec_parse_result(value) == Some(item));
        let result = item->Result_result;
        let list = spec_field_list(value);
        assert(spec_decode_result(result.kind(), list) == Some(result));
        assert forall|key: Seq<char>|
            key != "fields"@ && (#[trigger] encoded.get(key)) is Some implies value.get(key)
            == encoded.get(key) by {
            assert(key == "action"@ || key == "id"@ || key == "type"@);
        }
        assert(list->Some_0 =~= result.fields());
    }
}

/// A start whose `type` is the code of no kind is no failure: with an `id`,
/// a `level` and a `text` in order it is the start of an activity of kind
/// `Unknown`, whatever its fields, and else it is an `UnknownItem`.
pub proof fn lemma_undefined_activity_tag(
    line: Seq<char>,
    value: JsonView,
    code: i64,
)
    requires
        spec_is_structured(line),
        spec_get_str(value, "action"@) == Some("start"@),
        spec_get_i64(value, "type"@) == Some(code),
        !ActivityType::spec_is_defined(code),
    ensures
        spec_parse_line(line, Ok(value)) == Ok::<LogItemView, JsonErrorView>(spec_item_of(value)),
        spec_item_of(value) == match (
            spec_get_i64(value, "id"@),
            spec_get_level(value),
            spec_get_str(value, "text"@),
        ) {
            (Some(id), Some(level), Some(text)) => LogItemView::Start {
                id,
                level,
                text,
                activity: ActivityView::Unknown,
            },
            _ => LogItemView::UnknownItem(value),
        },
{
    lemma_words_differ();
}

/// An update whose `type` is the code of no kind is no failure: it is an
/// `UnknownItem`.
pub proof fn lemma_undefined_result_tag(line: Seq<char>, value: JsonView, code: i64)
    requires
        spec_is_structured(line),
        spec_get_str(value, "action"@) == Some("result"@),
        spec_get_i64(value, "type"@) == Some(code),
        !(100 <= code <= 107),
    ensures
        spec_parse_line(line, Ok(value)) == Ok::<LogItemView, JsonErrorView>(
            LogItemView::UnknownItem(value),
        ),
{
    lemma_words_differ();
}

/// A line that parses as JSON is never a failure, whatever the value holds.
pub proof fn lemma_parsed_line_is_ok(line: Seq<char>, value: JsonView)
    ensures
        spec_parse_line(line, Ok(value)) is Ok,
{
}

/// A line without the marker is an `OutputLine` with the line itself,
/// whatever it holds and whatever parsing it would give.
pub proof fn lemma_plain_line(line: Seq<char>, parsed: Result<JsonView, JsonErrorView>)
    requires
        !spec_is_structured(line),
    ensures
        spec_parse_line(line, parsed) == Ok::<LogItemView, JsonErrorView>(
            LogItemView::OutputLine(line),
        ),
{
}

} // verus!
