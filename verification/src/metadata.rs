//! Normalising the downloader's metadata output into a list of video
//! summaries.

use vstd::prelude::*;
use vstd::string::*;
use serde_json::Value;
use crate::error::{CoreError, CoreErrorView};
use crate::text::{decode_lossy, option_text, push_text, texts, utf8_lossy};

verus! {

/// What is known of one video.
#[derive(Debug, Clone, PartialEq, Eq)]
pub struct VideoMetadata {
    /// Title, `Unknown` where the source gave none.
    pub title: String,
    /// Address of the thumbnail, empty where the source gave none.
    pub thumbnail: String,
    /// Uploader, `Unknown` where the source gave none.
    pub uploader: String,
    /// Duration as the source wrote it, if it gave one.
    pub duration_string: Option<String>,
}

/// The mathematical content of a [`VideoMetadata`].
pub struct VideoMetadataView {
    pub title: Seq<char>,
    pub thumbnail: Seq<char>,
    pub uploader: Seq<char>,
    pub duration_string: Option<Seq<char>>,
}

impl View for VideoMetadata {
    type V = VideoMetadataView;

    open spec fn view(&self) -> VideoMetadataView {
        VideoMetadataView {
            title: self.title@,
            thumbnail: self.thumbnail@,
            uploader: self.uploader@,
            duration_string: option_text(self.duration_string),
        }
    }
}

/// The four fields of one entry as the source gave them: each is present
/// only where the source holds a string under its key.
#[derive(Debug, Clone, PartialEq, Eq)]
pub struct EntryFields {
    pub title: Option<String>,
    pub thumbnail: Option<String>,
    pub uploader: Option<String>,
    pub duration_string: Option<String>,
}

/// The mathematical content of an [`EntryFields`].
pub struct EntryFieldsView {
    pub title: Option<Seq<char>>,
    pub thumbnail: Option<Seq<char>>,
    pub uploader: Option<Seq<char>>,
    pub duration_string: Option<Seq<char>>,
}

impl View for EntryFields {
    type V = EntryFieldsView;

    open spec fn view(&self) -> EntryFieldsView {
        EntryFieldsView {
            title: option_text(self.title),
            thumbnail: option_text(self.thumbnail),
            uploader: option_text(self.uploader),
            duration_string: option_text(self.duration_string),
        }
    }
}

/// A metadata document: a playlist with its entries in order, or one video.
#[derive(Debug, Clone, PartialEq, Eq)]
pub enum MetadataDocument {
    Playlist(Vec<EntryFields>),
    Single(EntryFields),
}

/// The mathematical content of a [`MetadataDocument`].
pub enum DocumentView {
    Playlist(Seq<EntryFieldsView>),
    Single(EntryFieldsView),
}

/// The contents of each element of a list of entries, in order.
pub open spec fn entry_views(list: Seq<EntryFields>) -> Seq<EntryFieldsView> {
    Seq::new(list.len(), |i: int| list[i]@)
}

/// The contents of each element of a list of summaries, in order.
pub open spec fn summary_views(list: Seq<VideoMetadata>) -> Seq<VideoMetadataView> {
    Seq::new(list.len(), |i: int| list[i]@)
}

impl View for MetadataDocument {
    type V = DocumentView;

    open spec fn view(&self) -> DocumentView {
        match self {
            MetadataDocument::Playlist(entries) => DocumentView::Playlist(entry_views(entries@)),
            MetadataDocument::Single(fields) => DocumentView::Single(fields@),
        }
    }
}

/// A field's text, or `fallback` where the field is absent.
pub open spec fn text_or(field: Option<Seq<char>>, fallback: Seq<char>) -> Seq<char> {
    match field {
        Some(t) => t,
        None => fallback,
    }
}

/// The summary of one entry: absent title and uploader become `Unknown`, an
/// absent thumbnail becomes empty, the duration stays as it is.
pub open spec fn summary_of(fields: EntryFieldsView) -> VideoMetadataView {
    VideoMetadataView {
        title: text_or(fields.title, "Unknown"@),
        thumbnail: text_or(fields.thumbnail, Seq::empty()),
        uploader: text_or(fields.uploader, "Unknown"@),
        duration_string: fields.duration_string,
    }
}

/// The summaries of a document: one for each entry of a playlist, in order,
/// or the single one of a video.
pub open spec fn summaries(document: DocumentView) -> Seq<VideoMetadataView> {
    match document {
        DocumentView::Playlist(entries) => Seq::new(
            entries.len(),
            |i: int| summary_of(entries[i]),
        ),
        DocumentView::Single(fields) => seq![summary_of(fields)],
    }
}

/// A copy of `field`, or `fallback` where it is absent.
fn field_or(field: &Option<String>, fallback: &str) -> (text: String)
    ensures
        text@ == text_or(option_text(*field), fallback@),
{
    match field {
        Some(t) => t.clone(),
        None => String::from_str(fallback),
    }
}

/// Summarises one entry, filling in the defaults.
pub fn summarize_entry(fields: &EntryFields) -> (summary: VideoMetadata)
    ensures
        summary@ == summary_of(fields@),
{
    let thumbnail = match &fields.thumbnail {
        Some(t) => t.clone(),
        None => String::new(),
    };
    VideoMetadata {
        title: field_or(&fields.title, "Unknown"),
        thumbnail,
        uploader: field_or(&fields.uploader, "Unknown"),
        duration_string: fields.duration_string.clone(),
    }
}

/// Summarises a document: each playlist entry on its own, or the single
/// video.
pub fn summarize(document: &MetadataDocument) -> (list: Vec<VideoMetadata>)
    ensures
        summary_views(list@) == summaries(document@),
        document matches MetadataDocument::Playlist(entries) ==> list@.len() == entries@.len(),
        document is Single ==> list@.len() == 1,
{
    let mut list: Vec<VideoMetadata> = Vec::new();
    match document {
        MetadataDocument::Playlist(entries) => {
            let mut i: usize = 0;
            while i < entries.len()
                invariant
                    i <= entries.len(),
                    list@.len() == i,
                    forall|j: int| 0 <= j < i ==> (#[trigger] list@[j])@ == summary_of(entries@[j]@),
                decreases entries.len() - i,
            {
                list.push(summarize_entry(&entries[i]));
                i += 1;
            }
            assert(summary_views(list@) =~= summaries(document@));
        },
        MetadataDocument::Single(fields) => {
            list.push(summarize_entry(fields));
            assert(summary_views(list@) =~= summaries(document@));
        },
    }
    list
}

/// The JSON value type of `serde_json`, carried through as it is.
#[verifier::external_type_specification]
#[verifier::external_body]
pub struct ExValue(serde_json::Value);

/// The error type of `serde_json`, carried through as it is.
#[verifier::external_type_specification]
#[verifier::external_body]
pub struct ExJsonError(serde_json::Error);

/// What parsing `bytes` as one JSON document gives: the document, or the
/// parser's error.
pub uninterp spec fn json_parse(bytes: Seq<u8>) -> Result<Value, serde_json::Error>;

/// The message that a parser error displays.
pub uninterp spec fn json_error_text(error: serde_json::Error) -> Seq<char>;

/// The member of `value` under `key`: present only where `value` is an
/// object that holds the key.
pub uninterp spec fn json_member(value: Value, key: Seq<char>) -> Option<Value>;

/// The elements of `value`, where it is an array.
pub uninterp spec fn json_items(value: Value) -> Option<Seq<Value>>;

/// The text of `value`, where it is a string.
pub uninterp spec fn json_text(value: Value) -> Option<Seq<char>>;

/// Parses `bytes` as one JSON document.
///
/// Trusted: calls `serde_json::from_slice` at type `Value`. The contract
/// only names the result.
#[verifier::external_body]
fn parse_json(bytes: &[u8]) -> (parsed: Result<Value, serde_json::Error>)
    ensures
        parsed == json_parse(bytes@),
{
    serde_json::from_slice::<Value>(bytes)
}

/// The message of a parser error.
///
/// Trusted: calls the error's `to_string`. The contract only names the
/// result.
#[verifier::external_body]
fn error_text(error: &serde_json::Error) -> (message: String)
    ensures
        message@ == json_error_text(*error),
{
    error.to_string()
}

/// Looks up `key` in `value`.
///
/// Trusted: calls `Value::get` with a string key, which finds a member only
/// in an object. The contract only names the result.
#[verifier::external_body]
fn member<'a>(value: &'a Value, key: &str) -> (found: Option<&'a Value>)
    ensures
        match found {
            Some(m) => json_member(*value, key@) == Some(*m),
            None => json_member(*value, key@) is None,
        },
{
    value.get(key)
}

/// The elements of `value`, if it is an array.
///
/// Trusted: calls `Value::as_array`. The contract only names the result.
#[verifier::external_body]
fn items(value: &Value) -> (found: Option<&Vec<Value>>)
    ensures
        match found {
            Some(list) => json_items(*value) == Some(list@),
            None => json_items(*value) is None,
        },
{
    value.as_array()
}

/// The text of `value`, if it is a string.
///
/// Trusted: calls `Value::as_str`. The contract only names the result.
#[verifier::external_body]
fn text(value: &Value) -> (found: Option<&str>)
    ensures
        match found {
            Some(s) => json_text(*value) == Some(s@),
            None => json_text(*value) is None,
        },
{
    value.as_str()
}

/// The text that `value` holds under `key`: present only where `value` is
/// an object whose member under `key` is a string.
pub open spec fn field_text(value: Value, key: Seq<char>) -> Option<Seq<char>> {
    match json_member(value, key) {
        Some(m) => json_text(m),
        None => None,
    }
}

/// The four fields that `value` gives for one entry.
pub open spec fn entry_fields(value: Value) -> EntryFieldsView {
    EntryFieldsView {
        title: field_text(value, "title"@),
        thumbnail: field_text(value, "thumbnail"@),
        uploader: field_text(value, "uploader"@),
        duration_string: field_text(value, "duration_string"@),
    }
}

/// The entries of `value`: the elements of its member `entries`, where that
/// member is an array.
pub open spec fn playlist_entries(value: Value) -> Option<Seq<Value>> {
    match json_member(value, "entries"@) {
        Some(e) => json_items(e),
        None => None,
    }
}

/// The document that `value` stands for: a playlist where it has entries,
/// one video otherwise.
pub open spec fn document_of(value: Value) -> DocumentView {
    match playlist_entries(value) {
        Some(entries) => DocumentView::Playlist(
            Seq::new(entries.len(), |i: int| entry_fields(entries[i])),
        ),
        None => DocumentView::Single(entry_fields(value)),
    }
}

/// Reads the text under `key`, if `value` holds a string there.
fn read_field(value: &Value, key: &str) -> (field: Option<String>)
    ensures
        option_text(field) == field_text(*value, key@),
{
    match member(value, key) {
        Some(m) => match text(m) {
            Some(s) => Some(String::from_str(s)),
            None => None,
        },
        None => None,
    }
}

/// Reads the four fields of one entry out of a parsed value.
pub fn read_entry(value: &Value) -> (fields: EntryFields)
    ensures
        fields@ == entry_fields(*value),
{
    EntryFields {
        title: read_field(value, "title"),
        thumbnail: read_field(value, "thumbnail"),
        uploader: read_field(value, "uploader"),
        duration_string: read_field(value, "duration_string"),
    }
}

/// Reads a parsed document: its entries where it is a playlist, its own
/// fields otherwise.
pub fn read_document(value: &Value) -> (document: MetadataDocument)
    ensures
        document@ == document_of(*value),
{
    let listed = match member(value, "entries") {
        Some(e) => items(e),
        None => None,
    };
    match listed {
        Some(values) => {
            let mut entries: Vec<EntryFields> = Vec::new();
            let mut i: usize = 0;
            while i < values.len()
                invariant
                    i <= values.len(),
                    entries@.len() == i,
                    forall|j: int|
                        0 <= j < i ==> (#[trigger] entries@[j])@ == entry_fields(values@[j]),
                decreases values.len() - i,
            {
                entries.push(read_entry(&values[i]));
                i += 1;
            }
            let document = MetadataDocument::Playlist(entries);
            assert(document@ =~= document_of(*value)) by {
                assert(entry_views(entries@) =~= Seq::new(
                    values@.len(),
                    |i: int| entry_fields(values@[i]),
                ));
            }
            document
        },
        None => MetadataDocument::Single(read_entry(value)),
    }
}

/// The mathematical content of a query's outcome.
pub open spec fn outcome_view(outcome: Result<Vec<VideoMetadata>, CoreError>) -> Result<
    Seq<VideoMetadataView>,
    CoreErrorView,
> {
    match outcome {
        Ok(list) => Ok(summary_views(list@)),
        Err(e) => Err(e@),
    }
}

/// What the downloader's output `stdout` resolves to: the summaries of the
/// document it holds, or the parser's complaint.
pub open spec fn parsed_summaries(stdout: Seq<u8>) -> Result<
    Seq<VideoMetadataView>,
    CoreErrorView,
> {
    match json_parse(stdout) {
        Ok(value) => Ok(summaries(document_of(value))),
        Err(e) => Err(CoreErrorView::MetadataParse(json_error_text(e))),
    }
}

/// What a finished run of the downloader resolves to: its error stream as
/// text where it reported failure, else what its output parses to.
pub open spec fn resolved(success: bool, stdout: Seq<u8>, stderr: Seq<u8>) -> Result<
    Seq<VideoMetadataView>,
    CoreErrorView,
> {
    if success {
        parsed_summaries(stdout)
    } else {
        Err(CoreErrorView::ToolExecution(utf8_lossy(stderr)))
    }
}

/// The arguments of a metadata query for `url`: one JSON document for the
/// whole answer, playlists listed without resolving their entries.
pub open spec fn metadata_args_spec(url: Seq<char>) -> Seq<Seq<char>> {
    seq!["-J"@, "--flat-playlist"@, url]
}

/// Builds the downloader's argument list for a metadata query.
pub fn metadata_args(url: &str) -> (args: Vec<String>)
    ensures
        texts(args@) == metadata_args_spec(url@),
{
    let mut args: Vec<String> = Vec::new();
    push_text(&mut args, "-J");
    push_text(&mut args, "--flat-playlist");
    push_text(&mut args, url);
    assert(texts(args@) =~= metadata_args_spec(url@));
    args
}

/// Parses the downloader's output and summarises the document it holds.
pub fn parse_video_info(stdout: &[u8]) -> (outcome: Result<Vec<VideoMetadata>, CoreError>)
    ensures
        outcome_view(outcome) == parsed_summaries(stdout@),
{
    match parse_json(stdout) {
        Ok(value) => {
            let document = read_document(&value);
            Ok(summarize(&document))
        },
        Err(e) => Err(CoreError::MetadataParse(error_text(&e))),
    }
}

/// Turns a finished run of the downloader into summaries. `success` says
/// whether the tool reported success; `stdout` and `stderr` are what it wrote.
pub fn resolve_output(success: bool, stdout: &[u8], stderr: &[u8]) -> (outcome: Result<
    Vec<VideoMetadata>,
    CoreError,
>)
    ensures
        outcome_view(outcome) == resolved(success, stdout@, stderr@),
{
    if !success {
        return Err(CoreError::ToolExecution(decode_lossy(stderr)));
    }
    parse_video_info(stdout)
}

/// A document whose member `entries` is an array of N elements resolves to
/// exactly N summaries, and each is the summary of the entry at its place,
/// whatever the other entries hold.
pub proof fn lemma_playlist_summaries(stdout: Seq<u8>, value: Value, entries: Seq<Value>)
    requires
        json_parse(stdout) == Ok::<Value, serde_json::Error>(value),
        playlist_entries(value) == Some(entries),
    ensures
        parsed_summaries(stdout) is Ok,
        parsed_summaries(stdout)->Ok_0.len() == entries.len(),
        forall|i: int|
            0 <= i < entries.len() ==> parsed_summaries(stdout)->Ok_0[i] == summary_of(
                entry_fields(#[trigger] entries[i]),
            ),
{
}

/// A document without an array under `entries` resolves to exactly one
/// summary: that of the document itself.
pub proof fn lemma_single_summary(stdout: Seq<u8>, value: Value)
    requires
        json_parse(stdout) == Ok::<Value, serde_json::Error>(value),
        playlist_entries(value) is None,
    ensures
        parsed_summaries(stdout) is Ok,
        parsed_summaries(stdout)->Ok_0.len() == 1,
        parsed_summaries(stdout)->Ok_0[0] == summary_of(entry_fields(value)),
{
}

} // verus!
