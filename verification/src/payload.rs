//! What the client sends: chat messages, images, and the JSON bodies of the
//! calls that carry them.

use vstd::prelude::*;
use crate::json::{
    empty_entries, list_value, no_entries, record_value, render, rendered, set_entry, text_value,
    value_model, JsonModel,
};

verus! {

/// A plain message for a channel.
#[derive(Clone, Debug, PartialEq, Eq)]
pub struct OutgoingMessage {
    pub channel: String,
    pub text: String,
}

/// An image to upload. `title` is what the workspace shows with it.
#[derive(Clone, Debug, PartialEq, Eq)]
pub struct ImagePayload {
    pub bytes: Vec<u8>,
    pub filename: String,
    pub title: String,
}

/// An uploaded file as the completing call names it.
#[derive(Clone, Debug, PartialEq, Eq)]
pub struct FileEntry {
    pub id: String,
    pub title: String,
}

pub struct OutgoingMessageView {
    pub channel: Seq<char>,
    pub text: Seq<char>,
}

pub struct ImagePayloadView {
    pub bytes: Seq<u8>,
    pub filename: Seq<char>,
    pub title: Seq<char>,
}

pub struct FileEntryView {
    pub id: Seq<char>,
    pub title: Seq<char>,
}

impl View for OutgoingMessage {
    type V = OutgoingMessageView;

    open spec fn view(&self) -> OutgoingMessageView {
        OutgoingMessageView { channel: self.channel@, text: self.text@ }
    }
}

impl View for ImagePayload {
    type V = ImagePayloadView;

    open spec fn view(&self) -> ImagePayloadView {
        ImagePayloadView { bytes: self.bytes@, filename: self.filename@, title: self.title@ }
    }
}

impl View for FileEntry {
    type V = FileEntryView;

    open spec fn view(&self) -> FileEntryView {
        FileEntryView { id: self.id@, title: self.title@ }
    }
}

/// The views of a list of images, in order.
pub open spec fn image_views(images: Seq<ImagePayload>) -> Seq<ImagePayloadView> {
    images.map_values(|image: ImagePayload| image@)
}

/// The views of a list of file entries, in order.
pub open spec fn entry_views(files: Seq<FileEntry>) -> Seq<FileEntryView> {
    files.map_values(|entry: FileEntry| entry@)
}

/// The JSON object `{channel, text}`.
pub open spec fn message_document(message: OutgoingMessageView) -> JsonModel {
    JsonModel::Record(
        no_entries().insert("channel"@, JsonModel::Text(message.channel)).insert(
            "text"@,
            JsonModel::Text(message.text),
        ),
    )
}

/// The JSON object `{id, title}`.
pub open spec fn entry_document(entry: FileEntryView) -> JsonModel {
    JsonModel::Record(
        no_entries().insert("id"@, JsonModel::Text(entry.id)).insert(
            "title"@,
            JsonModel::Text(entry.title),
        ),
    )
}

/// The JSON object `{files: [{id, title}, ..], channel_id}`, with one entry
/// of `files` for each file, in the order given.
pub open spec fn completion_document(files: Seq<FileEntryView>, channel_id: Seq<char>) -> JsonModel {
    JsonModel::Record(
        no_entries().insert(
            "files"@,
            JsonModel::List(files.map_values(|entry: FileEntryView| entry_document(entry))),
        ).insert("channel_id"@, JsonModel::Text(channel_id)),
    )
}

impl OutgoingMessage {
    /// The body of the call that posts this message.
    pub fn to_json_text(&self) -> (text: String)
        ensures
            text@ == rendered(message_document(self@)),
    {
        let mut entries = empty_entries();
        set_entry(&mut entries, "channel".to_owned(), text_value(self.channel.clone()));
        set_entry(&mut entries, "text".to_owned(), text_value(self.text.clone()));
        render(&record_value(entries))
    }
}

impl FileEntry {
    fn to_json(&self) -> (value: serde_json::Value)
        ensures
            value_model(value) == entry_document(self@),
    {
        let mut entries = empty_entries();
        set_entry(&mut entries, "id".to_owned(), text_value(self.id.clone()));
        set_entry(&mut entries, "title".to_owned(), text_value(self.title.clone()));
        record_value(entries)
    }
}

/// The body of the call that completes an upload of `files` into a channel.
pub fn completion_text(files: &Vec<FileEntry>, channel_id: &str) -> (text: String)
    ensures
        text@ == rendered(completion_document(entry_views(files@), channel_id@)),
{
    let mut items: Vec<serde_json::Value> = Vec::new();
    let mut done: usize = 0;
    while done < files.len()
        invariant
            done <= files.len(),
            items@.len() == done,
            forall|i: int|
                0 <= i < done ==> value_model(#[trigger] items@[i]) == entry_document(files@[i]@),
        decreases files.len() - done,
    {
        items.push(files[done].to_json());
        done += 1;
    }
    let ghost listed = items@.map_values(|item: serde_json::Value| value_model(item));
    assert(listed =~= entry_views(files@).map_values(|entry: FileEntryView| entry_document(entry)));
    let mut entries = empty_entries();
    set_entry(&mut entries, "files".to_owned(), list_value(items));
    set_entry(&mut entries, "channel_id".to_owned(), text_value(channel_id.to_owned()));
    render(&record_value(entries))
}

} // verus!
