//! How payloads and failures are written out for a response: payloads as
//! JSON, failures as a line of text.

use vstd::prelude::*;
use vstd::string::StringExecFns;
use crate::command::{
    CommentEntry, CommentEntryView, Failure, FailureView, Payload, PayloadView, StoryEntry,
    StoryEntryView,
};
use crate::text::{copy, optional_text};

verus! {

/// The JSON text of an object whose members are the given names with
/// string values: what `serde_json` writes for it, without spaces or line
/// breaks.
pub uninterp spec fn json_object_text(fields: Seq<(Seq<char>, Seq<char>)>) -> Seq<char>;

/// The texts of the given objects, one behind the other with a comma
/// between each two.
pub open spec fn json_members_text(objects: Seq<Seq<(Seq<char>, Seq<char>)>>) -> Seq<char>
    decreases objects.len(),
{
    if objects.len() == 0 {
        Seq::empty()
    } else if objects.len() == 1 {
        json_object_text(objects[0])
    } else {
        json_members_text(objects.drop_last()) + ","@ + json_object_text(objects.last())
    }
}

/// The JSON text of an array of such objects, in order: a `[`, the texts
/// of the objects with commas between them, and a `]`.
pub open spec fn json_array_text(objects: Seq<Seq<(Seq<char>, Seq<char>)>>) -> Seq<char> {
    "["@ + json_members_text(objects) + "]"@
}

/// Builds a `serde_json::Value::Object` with one string member for each
/// pair and writes it with the `Display` impl of `serde_json::Value`.
/// Trusted: the text is a function of the names and values alone, named
/// `json_object_text`. That impl writes the compact form; it reports an
/// error only where the writer does or a map key is no string, neither of
/// which can happen here.
#[verifier::external_body]
pub(crate) fn json_object(fields: &Vec<(String, String)>) -> (text: String)
    ensures
        text@ == json_object_text(fields.deep_view()),
{
    let mut object = serde_json::Map::new();
    for field in fields.iter() {
        object.insert(field.0.clone(), serde_json::Value::String(field.1.clone()));
    }
    serde_json::Value::Object(object).to_string()
}

/// Builds one `serde_json::Value::Object` for each list of pairs and
/// writes the list of them with `serde_json::to_string`. Trusted: a text
/// comes back, and it is `json_array_text`. The call writes the compact
/// form with the serializer that `Display` uses for one object: a `[`,
/// the objects with a `,` before each but the first, and a `]`. It
/// reports an error only where the writer fails, a map key is no string
/// or a value refuses to be written; here the writer is a byte vector and
/// every key and value is a string, so none of these arises.
#[verifier::external_body]
pub(crate) fn json_array(objects: &Vec<Vec<(String, String)>>) -> (text: Option<String>)
    ensures
        text is Some,
        text->0@ == json_array_text(objects.deep_view()),
{
    let mut mapped: Vec<serde_json::Value> = Vec::new();
    for fields in objects.iter() {
        let mut object = serde_json::Map::new();
        for field in fields.iter() {
            object.insert(field.0.clone(), serde_json::Value::String(field.1.clone()));
        }
        mapped.push(serde_json::Value::Object(object));
    }
    serde_json::to_string(&mapped).ok()
}

/// The members of a story entry.
pub open spec fn story_fields(entry: StoryEntryView) -> Seq<(Seq<char>, Seq<char>)> {
    seq![("user_id"@, entry.user_id), ("story_id"@, entry.story_id), ("content"@, entry.content)]
}

/// The members of a comment entry.
pub open spec fn comment_fields(entry: CommentEntryView) -> Seq<(Seq<char>, Seq<char>)> {
    seq![
        ("user_id"@, entry.user_id),
        ("comment_id"@, entry.comment_id),
        ("story_id"@, entry.story_id),
        ("content"@, entry.content),
    ]
}

/// The body that shows a payload: nothing for the empty one, an object
/// with the identifier for what was created, an array of entries for a
/// listing.
pub open spec fn body_spec(payload: PayloadView) -> Option<Seq<char>> {
    match payload {
        PayloadView::Empty => None,
        PayloadView::UserId(id) => Some(json_object_text(seq![("user_id"@, id)])),
        PayloadView::StoryId(id) => Some(json_object_text(seq![("story_id"@, id)])),
        PayloadView::CommentId(id) => Some(json_object_text(seq![("comment_id"@, id)])),
        PayloadView::Stories(entries) => Some(
            json_array_text(Seq::new(entries.len(), |i: int| story_fields(entries[i]))),
        ),
        PayloadView::Comments(entries) => Some(
            json_array_text(Seq::new(entries.len(), |i: int| comment_fields(entries[i]))),
        ),
    }
}

/// A listing of nothing is written as `[]`.
pub proof fn empty_listing_is_written_as_brackets()
    ensures
        body_spec(PayloadView::Stories(Seq::empty())) == Some("[]"@),
        body_spec(PayloadView::Comments(Seq::empty())) == Some("[]"@),
{
    reveal_strlit("[");
    reveal_strlit("]");
    reveal_strlit("[]");
    let none = Seq::<Seq<(Seq<char>, Seq<char>)>>::empty();
    assert(Seq::new(0, |i: int| story_fields(Seq::<StoryEntryView>::empty()[i])) =~= none);
    assert(Seq::new(0, |i: int| comment_fields(Seq::<CommentEntryView>::empty()[i])) =~= none);
    assert(json_array_text(none) =~= "[]"@);
}

/// A listing of one entry is written as a `[`, the entry's object and a
/// `]`.
pub proof fn single_listing_is_written_in_brackets(fields: Seq<(Seq<char>, Seq<char>)>)
    ensures
        json_array_text(seq![fields]) == "["@ + json_object_text(fields) + "]"@,
{
}

/// The keys of `keys`, each as a blank, the partition key, a slash and
/// the sort key.
pub open spec fn keys_text(keys: Seq<(Seq<char>, Seq<char>)>) -> Seq<char>
    decreases keys.len(),
{
    if keys.len() == 0 {
        Seq::empty()
    } else {
        keys_text(keys.drop_last()) + " "@ + keys.last().0 + "/"@ + keys.last().1
    }
}

/// A failure as a line of text: its cause, and for a cascade that stopped
/// the keys that were removed before it did.
pub open spec fn failure_text(failure: FailureView) -> Seq<char> {
    match failure {
        FailureView::BadRequest(cause) => cause,
        FailureView::StorageUnavailable(cause) => cause,
        FailureView::PartialCascadeFailure { removed, cause } => cause
            + "; the cascade had removed:"@ + keys_text(removed),
    }
}

/// An object with one member.
fn single(name: &str, value: &String) -> (text: String)
    ensures
        text@ == json_object_text(seq![(name@, value@)]),
{
    let ghost shown = seq![(name@, value@)];
    let mut fields: Vec<(String, String)> = Vec::new();
    fields.push((String::from_str(name), copy(value)));
    assert(fields.deep_view() =~= shown);
    json_object(&fields)
}

/// The members of a story entry.
fn fields_of_story(entry: &StoryEntry) -> (fields: Vec<(String, String)>)
    ensures
        fields.deep_view() == story_fields(entry@),
{
    let mut fields: Vec<(String, String)> = Vec::new();
    fields.push((String::from_str("user_id"), copy(&entry.user_id)));
    fields.push((String::from_str("story_id"), copy(&entry.story_id)));
    fields.push((String::from_str("content"), copy(&entry.content)));
    fields
}

/// The members of a comment entry.
fn fields_of_comment(entry: &CommentEntry) -> (fields: Vec<(String, String)>)
    ensures
        fields.deep_view() == comment_fields(entry@),
{
    let mut fields: Vec<(String, String)> = Vec::new();
    fields.push((String::from_str("user_id"), copy(&entry.user_id)));
    fields.push((String::from_str("comment_id"), copy(&entry.comment_id)));
    fields.push((String::from_str("story_id"), copy(&entry.story_id)));
    fields.push((String::from_str("content"), copy(&entry.content)));
    fields
}

impl Payload {
    /// The body that shows the payload.
    pub fn body(&self) -> (written: Option<String>)
        ensures
            optional_text(written) == body_spec(self@),
    {
        match self {
            Payload::Empty => None,
            Payload::UserId(id) => Some(single("user_id", id)),
            Payload::StoryId(id) => Some(single("story_id", id)),
            Payload::CommentId(id) => Some(single("comment_id", id)),
            Payload::Stories(entries) => {
                let ghost shown = entries.deep_view();
                let mut objects: Vec<Vec<(String, String)>> = Vec::new();
                let mut at: usize = 0;
                while at < entries.len()
                    invariant
                        at <= entries.len(),
                        shown == entries.deep_view(),
                        objects.deep_view() == Seq::new(
                            at as nat,
                            |i: int| story_fields(shown[i]),
                        ),
                    decreases entries.len() - at,
                {
                    let ghost before = objects.deep_view();
                    let fields = fields_of_story(&entries[at]);
                    let ghost added = fields.deep_view();
                    objects.push(fields);
                    assert(objects.deep_view() =~= before.push(added));
                    at = at + 1;
                }
                json_array(&objects)
            },
            Payload::Comments(entries) => {
                let ghost shown = entries.deep_view();
                let mut objects: Vec<Vec<(String, String)>> = Vec::new();
                let mut at: usize = 0;
                while at < entries.len()
                    invariant
                        at <= entries.len(),
                        shown == entries.deep_view(),
                        objects.deep_view() == Seq::new(
                            at as nat,
                            |i: int| comment_fields(shown[i]),
                        ),
                    decreases entries.len() - at,
                {
                    let ghost before = objects.deep_view();
                    let fields = fields_of_comment(&entries[at]);
                    let ghost added = fields.deep_view();
                    objects.push(fields);
                    assert(objects.deep_view() =~= before.push(added));
                    at = at + 1;
                }
                json_array(&objects)
            },
        }
    }
}

impl Failure {
    /// The failure as a line of text.
    pub fn message(&self) -> (text: String)
        ensures
            text@ == failure_text(self@),
    {
        match self {
            Failure::BadRequest(cause) => copy(cause),
            Failure::StorageUnavailable(cause) => copy(cause),
            Failure::PartialCascadeFailure { removed, cause } => {
                let ghost keys = removed.deep_view();
                let mut text = copy(cause);
                text.append("; the cascade had removed:");
                let mut at: usize = 0;
                while at < removed.len()
                    invariant
                        at <= removed.len(),
                        keys == removed.deep_view(),
                        text@ == cause@ + "; the cascade had removed:"@ + keys_text(
                            keys.take(at as int),
                        ),
                    decreases removed.len() - at,
                {
                    proof {
                        assert(keys.take(at + 1).drop_last() =~= keys.take(at as int));
                    }
                    text.append(" ");
                    text.append(removed[at].0.as_str());
                    text.append("/");
                    text.append(removed[at].1.as_str());
                    at = at + 1;
                }
                assert(keys.take(at as int) =~= keys);
                text
            },
        }
    }
}

} // verus!
