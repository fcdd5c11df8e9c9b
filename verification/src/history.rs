//! The history of executed requests: one row of text columns for each
//! request, written when the request is executed and read back in bulk.
//!
//! The table itself belongs to the caller. This module says what a row holds
//! for a request and what a row reads as; a row that cannot be read is left
//! out of the listing and never stops it.

use crate::error::DecodeError;
use crate::headers::Headers;
use crate::identifier::{
    hyphenated, id_from_text, id_to_text, lemma_hyphenated_is_injective, parsed_uuid, random_id,
};
use crate::json::{
    headers_from_json, headers_to_json, json_string, json_string_map, quoted, string_from_json,
    string_to_json,
};
use crate::method::{lemma_method_round_trip, lemma_names_need_no_escape, HttpMethod};
use crate::model::{copy_text, same_text, HttpRequest, RequestView};
use crate::timestamp::{
    instant_from_text, instant_to_text, rfc3339_instant, rfc3339_text, utc_now, Timestamp,
};
use vstd::prelude::*;
use vstd::std_specs::cmp::PartialEqSpecImpl;

verus! {

/// One row of the history table, column by column. `None` is a column that
/// holds no text.
#[derive(Debug)]
pub struct HistoryRow {
    /// The identifier of the entry, a UUID.
    pub id: Option<String>,
    /// When the entry was made, as RFC 3339 writes it.
    pub timestamp: Option<String>,
    /// The method, as a JSON string.
    pub method: Option<String>,
    /// The address.
    pub url: Option<String>,
    /// The headers, as a JSON object of strings, or JSON `null` where the
    /// request had none.
    pub headers: Option<String>,
    /// The body, or nothing where the request had none.
    pub body: Option<String>,
}

/// What a row holds.
pub struct RowView {
    pub id: Option<Seq<char>>,
    pub timestamp: Option<Seq<char>>,
    pub method: Option<Seq<char>>,
    pub url: Option<Seq<char>>,
    pub headers: Option<Seq<char>>,
    pub body: Option<Seq<char>>,
}

/// What an optional text says.
pub open spec fn text_view(text: Option<String>) -> Option<Seq<char>> {
    match text {
        Some(text) => Some(text@),
        None => None,
    }
}

impl Clone for HistoryRow {
    fn clone(&self) -> (copy: HistoryRow)
        ensures
            copy == *self,
    {
        HistoryRow {
            id: copy_text(&self.id),
            timestamp: copy_text(&self.timestamp),
            method: copy_text(&self.method),
            url: copy_text(&self.url),
            headers: copy_text(&self.headers),
            body: copy_text(&self.body),
        }
    }
}

impl HistoryRow {
    /// Whether two rows hold the same, column by column.
    pub fn same_as(&self, other: &HistoryRow) -> (same: bool)
        ensures
            same == (self@ == other@),
    {
        same_text(&self.id, &other.id) && same_text(&self.timestamp, &other.timestamp)
            && same_text(&self.method, &other.method) && same_text(&self.url, &other.url)
            && same_text(&self.headers, &other.headers) && same_text(&self.body, &other.body)
    }
}

impl PartialEq for HistoryRow {
    fn eq(&self, other: &HistoryRow) -> (same: bool) {
        self.same_as(other)
    }
}

impl PartialEqSpecImpl for HistoryRow {
    open spec fn obeys_eq_spec() -> bool {
        true
    }

    open spec fn eq_spec(&self, other: &HistoryRow) -> bool {
        self@ == other@
    }
}

impl View for HistoryRow {
    type V = RowView;

    open spec fn view(&self) -> RowView {
        RowView {
            id: text_view(self.id),
            timestamp: text_view(self.timestamp),
            method: text_view(self.method),
            url: text_view(self.url),
            headers: text_view(self.headers),
            body: text_view(self.body),
        }
    }
}

/// The record of one executed request. It is made once, when the request is
/// executed, and not changed afterwards.
#[derive(Debug)]
pub struct HttpRequestHistoryEntry {
    id: u128,
    timestamp: Timestamp,
    http_request: HttpRequest,
}

/// What an entry says.
pub struct EntryView {
    /// The identifier, a UUID as a number.
    pub id: u128,
    /// When the entry was made.
    pub timestamp: Timestamp,
    /// The request as it was sent.
    pub http_request: RequestView,
}

impl View for HttpRequestHistoryEntry {
    type V = EntryView;

    closed spec fn view(&self) -> EntryView {
        EntryView { id: self.id, timestamp: self.timestamp, http_request: self.http_request@ }
    }
}

impl Clone for HttpRequestHistoryEntry {
    fn clone(&self) -> (copy: HttpRequestHistoryEntry)
        ensures
            copy@ == self@,
    {
        HttpRequestHistoryEntry {
            id: self.id,
            timestamp: self.timestamp,
            http_request: self.http_request.clone(),
        }
    }
}

impl HttpRequestHistoryEntry {
    /// The identifier of the entry.
    pub fn id(&self) -> (id: u128)
        ensures
            id == self@.id,
    {
        self.id
    }

    /// The identifier in the hyphenated form, as the table holds it.
    pub fn id_text(&self) -> (text: String)
        ensures
            text@ == hyphenated(self@.id),
    {
        id_to_text(self.id)
    }

    /// When the entry was made.
    pub fn timestamp(&self) -> (timestamp: Timestamp)
        ensures
            timestamp == self@.timestamp,
    {
        self.timestamp
    }

    /// The request as it was sent.
    pub fn http_request(&self) -> (http_request: &HttpRequest)
        ensures
            http_request@ == self@.http_request,
    {
        &self.http_request
    }
}

/// What the readers made of one column: nothing was there, what was there
/// could not be read, or a value.
#[derive(Debug)]
pub enum Column<T> {
    Missing,
    Unreadable,
    Read(T),
}

/// One row after each column has been read on its own: the identifier as a
/// number, the time as a point in time, the method as the name that the JSON
/// string holds, the headers as the mapping that the JSON text holds. The
/// address and the body are text and stay as they are.
#[derive(Debug)]
pub struct RowReading {
    pub id: Column<u128>,
    pub timestamp: Column<Timestamp>,
    pub method: Column<String>,
    pub url: Option<String>,
    pub headers: Column<Option<Headers>>,
    pub body: Option<String>,
}

/// What a reading holds.
pub struct ReadingView {
    pub id: Column<u128>,
    pub timestamp: Column<Timestamp>,
    pub method: Column<Seq<char>>,
    pub url: Option<Seq<char>>,
    pub headers: Column<Option<Map<Seq<char>, Seq<char>>>>,
    pub body: Option<Seq<char>>,
}

impl View for RowReading {
    type V = ReadingView;

    open spec fn view(&self) -> ReadingView {
        ReadingView {
            id: self.id,
            timestamp: self.timestamp,
            method: match self.method {
                Column::Missing => Column::Missing,
                Column::Unreadable => Column::Unreadable,
                Column::Read(name) => Column::Read(name@),
            },
            url: text_view(self.url),
            headers: match self.headers {
                Column::Missing => Column::Missing,
                Column::Unreadable => Column::Unreadable,
                Column::Read(Some(headers)) => Column::Read(Some(headers@)),
                Column::Read(None) => Column::Read(None),
            },
            body: text_view(self.body),
        }
    }
}

/// What the readers make of the columns of a row.
pub open spec fn reading_of(row: RowView) -> ReadingView {
    ReadingView {
        id: match row.id {
            None => Column::Missing,
            Some(text) => match parsed_uuid(text) {
                None => Column::Unreadable,
                Some(id) => Column::Read(id),
            },
        },
        timestamp: match row.timestamp {
            None => Column::Missing,
            Some(text) => match rfc3339_instant(text) {
                None => Column::Unreadable,
                Some(instant) => Column::Read(Timestamp { secs: instant.0, nanos: instant.1 }),
            },
        },
        method: match row.method {
            None => Column::Missing,
            Some(text) => match json_string(text) {
                None => Column::Unreadable,
                Some(name) => Column::Read(name),
            },
        },
        url: row.url,
        headers: match row.headers {
            None => Column::Missing,
            Some(text) => match json_string_map(text) {
                None => Column::Unreadable,
                Some(headers) => Column::Read(headers),
            },
        },
        body: row.body,
    }
}

/// The entry that a reading gives, or the first thing that is wrong with it,
/// the columns taken in the order of the table: identifier, time, method,
/// address, headers. A body that is absent stays absent, and so do headers
/// that were stored as `null`.
pub open spec fn assembled(reading: ReadingView) -> Result<EntryView, DecodeError> {
    match reading.id {
        Column::Missing => Err(DecodeError::MissingColumn),
        Column::Unreadable => Err(DecodeError::InvalidId),
        Column::Read(id) => match reading.timestamp {
            Column::Missing => Err(DecodeError::MissingColumn),
            Column::Unreadable => Err(DecodeError::InvalidTimestamp),
            Column::Read(timestamp) => match reading.method {
                Column::Missing => Err(DecodeError::MissingColumn),
                Column::Unreadable => Err(DecodeError::MalformedJson),
                Column::Read(name) => match HttpMethod::named(name) {
                    None => Err(DecodeError::UnknownMethod),
                    Some(method) => match reading.url {
                        None => Err(DecodeError::MissingUrl),
                        Some(url) => match reading.headers {
                            Column::Missing => Err(DecodeError::MissingColumn),
                            Column::Unreadable => Err(DecodeError::MalformedJson),
                            Column::Read(headers) => Ok(
                                EntryView {
                                    id,
                                    timestamp,
                                    http_request: RequestView {
                                        method,
                                        url,
                                        body: reading.body,
                                        headers,
                                    },
                                },
                            ),
                        },
                    },
                },
            },
        },
    }
}

/// The entry that a row reads as, or the first thing that is wrong with the
/// row.
pub open spec fn decoded_row(row: RowView) -> Result<EntryView, DecodeError> {
    assembled(reading_of(row))
}

/// What a list of rows holds.
pub open spec fn row_views(rows: Seq<HistoryRow>) -> Seq<RowView> {
    Seq::new(rows.len(), |i: int| rows[i]@)
}

/// What a list of entries says.
pub open spec fn entry_views(entries: Seq<HttpRequestHistoryEntry>) -> Seq<EntryView> {
    Seq::new(entries.len(), |i: int| entries[i]@)
}

/// The listing of a table: the entries of the rows that can be read, in the
/// order of the rows.
pub open spec fn listed(rows: Seq<RowView>) -> Seq<EntryView>
    decreases rows.len(),
{
    if rows.len() == 0 {
        Seq::empty()
    } else {
        match decoded_row(rows.last()) {
            Ok(entry) => listed(rows.drop_last()).push(entry),
            Err(_) => listed(rows.drop_last()),
        }
    }
}

/// Whether a row holds an entry in the form in which entries are written,
/// column by column, and each column reads back:
/// - the identifier in the hyphenated form, which reads as the identifier;
/// - the time as RFC 3339 text, which reads as the time where the time lies
///   in the years that RFC 3339 can write;
/// - the name of the method between quotes, which reads as the name;
/// - the address as it is;
/// - a JSON text that reads as the headers, or as `null` where there are
///   none;
/// - the body as it is, or nothing where there is none.
pub open spec fn stored_form(row: RowView, entry: EntryView) -> bool {
    let request = entry.http_request;
    let time = entry.timestamp;
    &&& row.id == Some(hyphenated(entry.id))
    &&& parsed_uuid(hyphenated(entry.id)) == Some(entry.id)
    &&& row.timestamp matches Some(text) && rfc3339_text(time.secs, time.nanos) == Some(text) && (
    time.in_rfc3339_years() ==> rfc3339_instant(text) == Some((time.secs, time.nanos)))
    &&& row.method == Some(quoted(request.method.name()))
    &&& json_string(quoted(request.method.name())) == Some(request.method.name())
    &&& row.url == Some(request.url)
    &&& row.headers matches Some(text) && json_string_map(text) == Some(request.headers)
    &&& row.body == request.body
}

/// Reads each column of a row on its own.
pub fn read_columns(row: &HistoryRow) -> (reading: RowReading)
    ensures
        reading@ == reading_of(row@),
{
    let id = match &row.id {
        None => Column::Missing,
        Some(text) => match id_from_text(text.as_str()) {
            None => Column::Unreadable,
            Some(id) => Column::Read(id),
        },
    };
    let timestamp = match &row.timestamp {
        None => Column::Missing,
        Some(text) => match instant_from_text(text.as_str()) {
            None => Column::Unreadable,
            Some(instant) => Column::Read(instant),
        },
    };
    let method = match &row.method {
        None => Column::Missing,
        Some(text) => match string_from_json(text.as_str()) {
            None => Column::Unreadable,
            Some(name) => Column::Read(name),
        },
    };
    let headers = match &row.headers {
        None => Column::Missing,
        Some(text) => match headers_from_json(text.as_str()) {
            None => Column::Unreadable,
            Some(None) => Column::Read(None),
            Some(Some(fields)) => Column::Read(Some(Headers::from_entries(&fields))),
        },
    };
    RowReading {
        id,
        timestamp,
        method,
        url: copy_text(&row.url),
        headers,
        body: copy_text(&row.body),
    }
}

/// Makes the entry from a reading, or names the first thing that is wrong
/// with it.
pub fn assemble_entry(reading: RowReading) -> (entry: Result<
    HttpRequestHistoryEntry,
    DecodeError,
>)
    ensures
        match assembled(reading@) {
            Ok(view) => entry matches Ok(found) && found@ == view,
            Err(error) => entry matches Err(found) && found == error,
        },
{
    let RowReading { id, timestamp, method, url, headers, body } = reading;
    let id = match id {
        Column::Missing => {
            return Err(DecodeError::MissingColumn);
        },
        Column::Unreadable => {
            return Err(DecodeError::InvalidId);
        },
        Column::Read(id) => id,
    };
    let timestamp = match timestamp {
        Column::Missing => {
            return Err(DecodeError::MissingColumn);
        },
        Column::Unreadable => {
            return Err(DecodeError::InvalidTimestamp);
        },
        Column::Read(timestamp) => timestamp,
    };
    let method = match method {
        Column::Missing => {
            return Err(DecodeError::MissingColumn);
        },
        Column::Unreadable => {
            return Err(DecodeError::MalformedJson);
        },
        Column::Read(name) => match HttpMethod::decode(name.as_str()) {
            Ok(method) => method,
            Err(error) => {
                return Err(error);
            },
        },
    };
    let url = match url {
        Some(url) => url,
        None => {
            return Err(DecodeError::MissingUrl);
        },
    };
    let headers = match headers {
        Column::Missing => {
            return Err(DecodeError::MissingColumn);
        },
        Column::Unreadable => {
            return Err(DecodeError::MalformedJson);
        },
        Column::Read(headers) => headers,
    };
    Ok(
        HttpRequestHistoryEntry {
            id,
            timestamp,
            http_request: HttpRequest { method, url, body, headers },
        },
    )
}

/// Reads one row. The result is the entry that the row holds, or the first
/// thing that is wrong with it.
pub fn decode_row(row: &HistoryRow) -> (entry: Result<HttpRequestHistoryEntry, DecodeError>)
    ensures
        match decoded_row(row@) {
            Ok(view) => entry matches Ok(found) && found@ == view,
            Err(error) => entry matches Err(found) && found == error,
        },
{
    assemble_entry(read_columns(row))
}

/// Lists the history: every row that can be read, as an entry, in the order
/// of the rows. A row that cannot be read is left out.
pub fn get_all_http_history(rows: &Vec<HistoryRow>) -> (entries: Vec<HttpRequestHistoryEntry>)
    ensures
        entry_views(entries@) == listed(row_views(rows@)),
{
    let mut entries: Vec<HttpRequestHistoryEntry> = Vec::new();
    let mut i: usize = 0;
    while i < rows.len()
        invariant
            i <= rows.len(),
            entry_views(entries@) == listed(row_views(rows@.take(i as int))),
        decreases rows.len() - i,
    {
        assert(row_views(rows@.take(i + 1)).drop_last() == row_views(rows@.take(i as int)));
        match decode_row(&rows[i]) {
            Ok(entry) => {
                entries.push(entry);
            },
            Err(_) => {},
        }
        i += 1;
    }
    assert(rows@.take(i as int) == rows@);
    entries
}

/// The row that stores an entry with the given identifier and time for a
/// request. There is none where chrono has no date for the time. For a time
/// in the years 0000 to 9999 there is one, and it reads as that entry again.
pub fn history_row(id: u128, timestamp: Timestamp, http_request: &HttpRequest) -> (row: Option<
    HistoryRow,
>)
    ensures
        rfc3339_text(timestamp.secs, timestamp.nanos) is None ==> row is None,
        rfc3339_text(timestamp.secs, timestamp.nanos) is Some ==> (row matches Some(row)
            && stored_form(row@, EntryView { id, timestamp, http_request: http_request@ })),
        timestamp.in_rfc3339_years() ==> (row matches Some(row) && decoded_row(row@) == Ok::<
            EntryView,
            DecodeError,
        >(EntryView { id, timestamp, http_request: http_request@ })),
{
    proof {
        lemma_method_round_trip(http_request.method);
        lemma_names_need_no_escape(http_request.method);
    }
    let time = match instant_to_text(timestamp) {
        Some(time) => time,
        None => {
            return None;
        },
    };
    let method = string_to_json(http_request.method.as_str());
    let headers = headers_to_json(
        match &http_request.headers {
            Some(headers) => Some(headers.entries()),
            None => None,
        },
    );
    let row = HistoryRow {
        id: Some(id_to_text(id)),
        timestamp: Some(time),
        method,
        url: Some(http_request.url.clone()),
        headers,
        body: copy_text(&http_request.body),
    };
    Some(row)
}

/// Makes the record of a request that is about to be sent: a random
/// identifier of version 4, the current time, and the row that stores both
/// with the request. Unless the clock stands beyond the year 9999, the row
/// reads as the entry again.
pub fn create_http_history(http_request: &HttpRequest) -> (record: (
    HttpRequestHistoryEntry,
    HistoryRow,
))
    ensures
        record.0@.http_request == http_request@,
        record.0@.id & 0xf000_c000_0000_0000_0000 == 0x4000_8000_0000_0000_0000,
        0 <= record.0@.timestamp.secs,
        record.0@.timestamp.nanos < 1_000_000_000,
        stored_form(record.1@, record.0@),
        record.0@.timestamp.secs <= 253_402_300_799 ==> decoded_row(record.1@) == Ok::<
            EntryView,
            DecodeError,
        >(record.0@),
{
    let id = random_id();
    let timestamp = utc_now();
    let row = history_row(id, timestamp, http_request).unwrap();
    (HttpRequestHistoryEntry { id, timestamp, http_request: http_request.clone() }, row)
}

/// The listing of one table after another is the listing of the first, then
/// the listing of the second: what a row reads as does not depend on the rows
/// around it.
pub proof fn lemma_listed_concat(first: Seq<RowView>, second: Seq<RowView>)
    ensures
        listed(first + second) == listed(first) + listed(second),
    decreases second.len(),
{
    if second.len() == 0 {
        assert(first + second == first);
    } else {
        lemma_listed_concat(first, second.drop_last());
        assert((first + second).drop_last() == first + second.drop_last());
        match decoded_row(second.last()) {
            Ok(entry) => {
                assert((listed(first) + listed(second.drop_last())).push(entry) == listed(first)
                    + listed(second.drop_last()).push(entry));
            },
            Err(_) => {},
        }
    }
}

/// The listing of a table with one row is the entry of that row, or nothing
/// where the row cannot be read.
pub proof fn lemma_listed_single(row: RowView)
    ensures
        listed(seq![row]) == match decoded_row(row) {
            Ok(entry) => seq![entry],
            Err(_) => Seq::<EntryView>::empty(),
        },
{
    assert(seq![row].drop_last() == Seq::<RowView>::empty());
    assert(listed(Seq::<RowView>::empty()) == Seq::<EntryView>::empty());
}

/// A row that cannot be read is left out of the listing, and the rows before
/// and after it are listed as if it were not there.
pub proof fn lemma_unreadable_row_is_left_out(
    before: Seq<RowView>,
    row: RowView,
    after: Seq<RowView>,
)
    requires
        decoded_row(row) is Err,
    ensures
        listed(before + seq![row] + after) == listed(before + after),
        listed(before + seq![row] + after) == listed(before) + listed(after),
{
    lemma_listed_single(row);
    lemma_listed_concat(before, seq![row]);
    lemma_listed_concat(before + seq![row], after);
    lemma_listed_concat(before, after);
}

/// Once a row that reads as an entry has been added to a table, the listing
/// holds what it held before, and then that entry.
pub proof fn lemma_appended_row_is_listed(rows: Seq<RowView>, row: RowView, entry: EntryView)
    requires
        decoded_row(row) == Ok::<EntryView, DecodeError>(entry),
    ensures
        listed(rows.push(row)) == listed(rows).push(entry),
        listed(rows.push(row)).contains(entry),
{
    assert(rows.push(row).drop_last() == rows);
    let after = listed(rows).push(entry);
    assert(after[after.len() - 1] == entry);
}

/// Where the identifier of the new entry is not the identifier of any entry
/// that was listed before, the listing after the row was added holds that
/// identifier exactly once: at its end.
pub proof fn lemma_fresh_id_is_listed_once(rows: Seq<RowView>, row: RowView, entry: EntryView)
    requires
        decoded_row(row) == Ok::<EntryView, DecodeError>(entry),
        forall|i: int| 0 <= i < listed(rows).len() ==> (#[trigger] listed(rows)[i]).id != entry.id,
    ensures
        listed(rows.push(row)).len() == listed(rows).len() + 1,
        forall|i: int|
            0 <= i < listed(rows.push(row)).len() ==> ((#[trigger] listed(rows.push(row))[i]).id
                == entry.id <==> i == listed(rows).len()),
{
    lemma_appended_row_is_listed(rows, row, entry);
}

/// Whichever of two rows is added first, the listing afterwards holds what
/// it held before and then the two new entries, each once: taking turns at
/// the table loses no entry and doubles none.
pub proof fn lemma_two_appends_in_either_order(
    rows: Seq<RowView>,
    one: RowView,
    one_entry: EntryView,
    other: RowView,
    other_entry: EntryView,
)
    requires
        decoded_row(one) == Ok::<EntryView, DecodeError>(one_entry),
        decoded_row(other) == Ok::<EntryView, DecodeError>(other_entry),
    ensures
        listed(rows.push(one).push(other)) == listed(rows).push(one_entry).push(other_entry),
        listed(rows.push(other).push(one)) == listed(rows).push(other_entry).push(one_entry),
        listed(rows.push(one).push(other)).to_multiset() == listed(
            rows.push(other).push(one),
        ).to_multiset(),
{
    lemma_appended_row_is_listed(rows, one, one_entry);
    lemma_appended_row_is_listed(rows.push(one), other, other_entry);
    lemma_appended_row_is_listed(rows, other, other_entry);
    lemma_appended_row_is_listed(rows.push(other), one, one_entry);
    let before = listed(rows);
    vstd::seq_lib::to_multiset_build(before, one_entry);
    vstd::seq_lib::to_multiset_build(before, other_entry);
    vstd::seq_lib::to_multiset_build(before.push(one_entry), other_entry);
    vstd::seq_lib::to_multiset_build(before.push(other_entry), one_entry);
    assert(before.to_multiset().insert(one_entry).insert(other_entry)
        =~= before.to_multiset().insert(other_entry).insert(one_entry));
}

/// A row in the stored form reads as the entry that it was written for,
/// where the time of the entry lies in the years that RFC 3339 can write.
pub proof fn lemma_stored_row_reads_back(row: RowView, entry: EntryView)
    requires
        stored_form(row, entry),
        entry.timestamp.in_rfc3339_years(),
    ensures
        decoded_row(row) == Ok::<EntryView, DecodeError>(entry),
{
    lemma_method_round_trip(entry.http_request.method);
}

/// Whatever the time, a row in the stored form that can be read reads as the
/// identifier and the request that were written, field for field. A body that
/// was absent is absent, not empty, and so are headers that were absent.
pub proof fn lemma_stored_request_reads_back(row: RowView, written: EntryView, read: EntryView)
    requires
        stored_form(row, written),
        decoded_row(row) == Ok::<EntryView, DecodeError>(read),
    ensures
        read.id == written.id,
        read.http_request == written.http_request,
        written.http_request.body is None ==> read.http_request.body is None,
        written.http_request.headers is None ==> read.http_request.headers is None,
{
    lemma_method_round_trip(written.http_request.method);
}

/// Two entries in the stored form have the same text in the `id` column only
/// if they have the same identifier: a table that is keyed by that column
/// never takes a new identifier for one that it holds.
pub proof fn lemma_key_separates_entries(
    one: RowView,
    one_entry: EntryView,
    other: RowView,
    other_entry: EntryView,
)
    requires
        stored_form(one, one_entry),
        stored_form(other, other_entry),
    ensures
        one.id == other.id <==> one_entry.id == other_entry.id,
{
    if one.id == other.id {
        lemma_hyphenated_is_injective(one_entry.id, other_entry.id);
    }
}

/// Whether a table holds, row by row, the stored form of a list of entries
/// whose times lie in the years that RFC 3339 can write.
pub open spec fn holds_entries(rows: Seq<RowView>, entries: Seq<EntryView>) -> bool {
    &&& rows.len() == entries.len()
    &&& forall|i: int|
        0 <= i < rows.len() ==> stored_form(#[trigger] rows[i], entries[i])
            && entries[i].timestamp.in_rfc3339_years()
}

/// No two rows of the table have the same text in the `id` column, which is
/// what a table that is keyed by that column sees to.
pub open spec fn distinct_keys(rows: Seq<RowView>) -> bool {
    forall|i: int, j: int| 0 <= i < j < rows.len() ==> (#[trigger] rows[i]).id != (#[trigger] rows[j]).id
}

/// The listing of a table that holds the stored form of a list of entries is
/// that list: no entry is lost, none is doubled, and the order is kept.
pub proof fn lemma_written_table_is_listed(rows: Seq<RowView>, entries: Seq<EntryView>)
    requires
        holds_entries(rows, entries),
    ensures
        listed(rows) == entries,
    decreases rows.len(),
{
    if rows.len() > 0 {
        let front = rows.drop_last();
        assert(stored_form(rows[rows.len() - 1], entries[entries.len() - 1]));
        lemma_stored_row_reads_back(rows.last(), entries.last());
        assert forall|i: int| 0 <= i < front.len() implies stored_form(
            #[trigger] front[i],
            entries.drop_last()[i],
        ) && entries.drop_last()[i].timestamp.in_rfc3339_years() by {
            assert(stored_form(rows[i], entries[i]));
        }
        lemma_written_table_is_listed(front, entries.drop_last());
        assert(entries.drop_last().push(entries.last()) == entries);
    }
}

/// No entry of the list was made before one that stands before it.
pub open spec fn chronological(entries: Seq<EntryView>) -> bool {
    forall|i: int, j: int|
        0 <= i < j < entries.len() ==> {
            let earlier = (#[trigger] entries[i]).timestamp;
            let later = (#[trigger] entries[j]).timestamp;
            earlier.secs < later.secs || (earlier.secs == later.secs && earlier.nanos
                <= later.nanos)
        }
}

/// A table whose rows were stored one after the other, each with the time at
/// which it was stored, is listed in the order of those times: the listing
/// follows the rows, and so it is chronological where the rows are.
pub proof fn lemma_listing_is_chronological(rows: Seq<RowView>, entries: Seq<EntryView>)
    requires
        holds_entries(rows, entries),
        chronological(entries),
    ensures
        chronological(listed(rows)),
{
    lemma_written_table_is_listed(rows, entries);
}

/// In a table that is keyed by the `id` column and holds the stored form of
/// entries, the listing holds every identifier once.
pub proof fn lemma_keyed_table_lists_each_identifier_once(
    rows: Seq<RowView>,
    entries: Seq<EntryView>,
)
    requires
        holds_entries(rows, entries),
        distinct_keys(rows),
    ensures
        listed(rows).len() == rows.len(),
        forall|i: int, j: int|
            0 <= i < j < listed(rows).len() ==> (#[trigger] listed(rows)[i]).id != (
            #[trigger] listed(rows)[j]).id,
{
    lemma_written_table_is_listed(rows, entries);
    assert forall|i: int, j: int| 0 <= i < j < entries.len() implies (#[trigger] entries[i]).id != (
    #[trigger] entries[j]).id by {
        assert(stored_form(rows[i], entries[i]) && stored_form(rows[j], entries[j]));
        lemma_key_separates_entries(rows[i], entries[i], rows[j], entries[j]);
    }
}

} // verus!
