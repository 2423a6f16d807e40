use crate::json::{fields_view, json_parsed, opt_json, Json, JsonView};
use crate::text::{decimal, parts_view, split_on, trimmed};
use crate::trace::codec_datasets::messages_at;
use crate::trace::entities::{DatapointKind, DatapointKindView, Message, MessageView};
use vstd::prelude::*;

verus! {

/// The value under `key`, or null.
pub open spec fn value_or_null(obj: JsonView, key: Seq<char>) -> JsonView {
    match obj.get(key) {
        Some(v) => v,
        None => JsonView::Null,
    }
}

/// The fields of the object under `key`; none where no object stands
/// there.
pub open spec fn object_or_empty(obj: JsonView, key: Seq<char>) -> Seq<(Seq<char>, JsonView)> {
    match obj.get(key) {
        Some(JsonView::Object(fields)) => fields,
        _ => Seq::empty(),
    }
}

/// The message under `key`, where a message stands there.
pub open spec fn message_or_none(obj: JsonView, key: Seq<char>) -> Option<MessageView> {
    match obj.get(key) {
        Some(v) => MessageView::from_json(v),
        None => None,
    }
}

/// What a free-form object stands for as a datapoint.  An object with a
/// list of messages is a conversation.  Any other is an input with its
/// outputs: the input under `input`, the expected output under
/// `expected_output` or else under `target`, the actual output under
/// `actual_output`, the score under `score` where a number stands there.
pub open spec fn mapped(obj: JsonView) -> DatapointKindView {
    match messages_at(obj, "messages"@) {
        Some(messages) => DatapointKindView::LlmConversation {
            messages,
            expected: message_or_none(obj, "expected"@),
            metadata: object_or_empty(obj, "metadata"@),
        },
        None => DatapointKindView::Generic {
            input: value_or_null(obj, "input"@),
            expected_output: if obj.get("expected_output"@).is_some() {
                obj.get("expected_output"@)
            } else {
                obj.get("target"@)
            },
            actual_output: obj.get("actual_output"@),
            score: match obj.get("score"@) {
                Some(JsonView::Number(n)) => Some(n),
                _ => None,
            },
            metadata: object_or_empty(obj, "metadata"@),
        },
    }
}

fn metadata_of(obj: &Json) -> (r: Vec<(String, Json)>)
    ensures
        fields_view(r@) == object_or_empty(obj@, "metadata"@),
{
    match obj.get("metadata") {
        Some(v) => match v {
            Json::Object(fields) => {
                proof {
                    crate::json::lemma_object_view(*fields);
                }
                crate::json::clone_fields(fields)
            },
            _ => {
                let empty: Vec<(String, Json)> = Vec::new();
                assert(fields_view(empty@) =~= Seq::empty());
                empty
            },
        },
        None => {
            let empty: Vec<(String, Json)> = Vec::new();
            assert(fields_view(empty@) =~= Seq::empty());
            empty
        },
    }
}

fn payload_at(obj: &Json, key: &str) -> (r: Option<Json>)
    ensures
        opt_json(r) == obj@.get(key@),
{
    crate::trace::codec::get_payload(obj, key)
}

/// What a free-form object stands for as a datapoint.
pub fn map_object_to_datapoint_kind(obj: &Json) -> (r: DatapointKind)
    ensures
        r@ == mapped(obj@),
{
    let messages = match obj.get("messages") {
        Some(v) => match v.as_array() {
            Some(items) => crate::trace::codec_datasets::read_message_list(items),
            None => None,
        },
        None => None,
    };
    match messages {
        Some(messages) => {
            let expected = match obj.get("expected") {
                Some(v) => Message::from_json(v),
                None => None,
            };
            DatapointKind::LlmConversation { messages, expected, metadata: metadata_of(obj) }
        },
        None => {
            let input = match payload_at(obj, "input") {
                Some(v) => v,
                None => Json::Null,
            };
            let expected_output = match payload_at(obj, "expected_output") {
                Some(v) => Some(v),
                None => payload_at(obj, "target"),
            };
            let score = match obj.get("score") {
                Some(v) => match v {
                    Json::Number(n) => Some(n.clone()),
                    _ => None,
                },
                None => None,
            };
            DatapointKind::Generic {
                input,
                expected_output,
                actual_output: payload_at(obj, "actual_output"),
                score,
                metadata: metadata_of(obj),
            }
        },
    }
}

/// What one item of an import stands for: what it says of itself where
/// it tells its type, and what it is mapped to otherwise.
pub open spec fn imported(item: JsonView) -> DatapointKindView {
    match DatapointKindView::from_json(item) {
        Some(k) => k,
        None => mapped(item),
    }
}

/// What the items of an import stand for.
pub open spec fn imported_all(items: Seq<JsonView>) -> Seq<DatapointKindView> {
    Seq::new(items.len(), |i: int| imported(items[i]))
}

/// The values of a list of kinds.
pub open spec fn kinds_view(kinds: Seq<DatapointKind>) -> Seq<DatapointKindView> {
    Seq::new(kinds.len(), |i: int| kinds[i]@)
}

fn import_item(item: &Json) -> (r: DatapointKind)
    ensures
        r@ == imported(item@),
{
    match DatapointKind::from_json(item) {
        Some(k) => k,
        None => map_object_to_datapoint_kind(item),
    }
}

/// Why an import was turned away.
#[derive(Debug, PartialEq)]
pub enum ImportError {
    /// The file is no JSON, or no list.
    InvalidJson,
    /// The file is no UTF-8.
    InvalidUtf8,
    /// The line with this number, counted from one, is no JSON.
    InvalidLine(usize),
    /// The file is no CSV; what the reader said of it.
    InvalidCsv(String),
}

/// The mathematical value of an [`ImportError`].
pub enum ImportErrorView {
    InvalidJson,
    InvalidUtf8,
    InvalidLine(int),
    InvalidCsv(Seq<char>),
}

impl View for ImportError {
    type V = ImportErrorView;

    open spec fn view(&self) -> ImportErrorView {
        match self {
            ImportError::InvalidJson => ImportErrorView::InvalidJson,
            ImportError::InvalidUtf8 => ImportErrorView::InvalidUtf8,
            ImportError::InvalidLine(n) => ImportErrorView::InvalidLine(*n as int),
            ImportError::InvalidCsv(m) => ImportErrorView::InvalidCsv(m@),
        }
    }
}

/// The mathematical value of what reading an import gave.
pub open spec fn outcome(r: Result<Vec<DatapointKind>, ImportError>) -> Result<
    Seq<DatapointKindView>,
    ImportErrorView,
> {
    match r {
        Ok(kinds) => Ok(kinds_view(kinds@)),
        Err(e) => Err(e@),
    }
}

/// What a file in JSON stands for: the datapoints of the items of its
/// list.
pub open spec fn json_import(data: Seq<u8>) -> Result<Seq<DatapointKindView>, ImportErrorView> {
    match json_parsed(data) {
        Some(JsonView::Array(items)) => Ok(imported_all(items)),
        _ => Err(ImportErrorView::InvalidJson),
    }
}

impl ImportError {
    /// The error in words.
    pub fn message(&self) -> (s: String)
        ensures
            s@ == match *self {
                ImportError::InvalidJson => "invalid JSON"@,
                ImportError::InvalidUtf8 => "invalid UTF-8"@,
                ImportError::InvalidLine(n) => "invalid JSON on line "@ + decimal(n as nat),
                ImportError::InvalidCsv(m) => "CSV parse error: "@ + m@,
            },
    {
        match self {
            ImportError::InvalidJson => "invalid JSON".to_owned(),
            ImportError::InvalidUtf8 => "invalid UTF-8".to_owned(),
            ImportError::InvalidLine(n) => crate::text::concat(
                "invalid JSON on line ",
                crate::text::u64_to_string(*n as u64).as_str(),
            ),
            ImportError::InvalidCsv(m) => crate::text::concat("CSV parse error: ", m.as_str()),
        }
    }
}

/// Reads the datapoints of a file in JSON: a list, each item of which
/// tells its type or is mapped.
#[verifier::loop_isolation(false)]
pub fn parse_json_import(data: &[u8]) -> (r: Result<Vec<DatapointKind>, ImportError>)
    ensures
        outcome(r) == json_import(data@),
{
    let doc = match crate::json::parse(data) {
        Some(d) => d,
        None => {
            return Err(ImportError::InvalidJson);
        },
    };
    let items = match doc.as_array() {
        Some(items) => items,
        None => {
            return Err(ImportError::InvalidJson);
        },
    };
    let mut kinds: Vec<DatapointKind> = Vec::new();
    let mut i: usize = 0;
    while i < items.len()
        invariant
            i <= items.len(),
            kinds.len() == i,
            forall|k: int| 0 <= k < i ==> (#[trigger] kinds[k])@ == imported(items[k]@),
        decreases items.len() - i,
    {
        kinds.push(import_item(&items[i]));
        i = i + 1;
    }
    assert(kinds_view(kinds@) =~= imported_all(crate::json::items_view(items@)));
    Ok(kinds)
}

/// The text that a sequence of bytes holds in UTF-8; `None` where the
/// bytes are no UTF-8.
pub open spec fn utf8_decoded(bytes: Seq<u8>) -> Option<Seq<char>> {
    if vstd::utf8::valid_utf8(bytes) {
        Some(vstd::utf8::decode_utf8(bytes))
    } else {
        None
    }
}

/// Calls `std::str::from_utf8`.  Trusted: the text of the bytes comes back
/// where they are UTF-8, and nothing where they are not.
#[verifier::external_body]
fn utf8_text(bytes: &[u8]) -> (r: Option<String>)
    ensures
        crate::text::opt_text(r) == utf8_decoded(bytes@),
{
    std::str::from_utf8(bytes).ok().map(|s| s.to_owned())
}

/// What the lines of an import stand for, line by line: a line that
/// holds only spaces is passed over; any other must be one JSON document.
/// The error tells the first line that is none.
pub open spec fn imported_lines(lines: Seq<Seq<char>>) -> Result<Seq<DatapointKindView>, int>
    decreases lines.len(),
{
    if lines.len() == 0 {
        Ok(Seq::empty())
    } else {
        match imported_lines(lines.drop_last()) {
            Err(n) => Err(n),
            Ok(first) => {
                let line = trimmed(lines.last());
                if line.len() == 0 {
                    Ok(first)
                } else {
                    match json_parsed(vstd::utf8::encode_utf8(line)) {
                        Some(doc) => Ok(first.push(imported(doc))),
                        None => Err(lines.len() as int),
                    }
                }
            },
        }
    }
}

proof fn lemma_lines_prefix(lines: Seq<Seq<char>>, k: int)
    requires
        0 <= k <= lines.len(),
        imported_lines(lines.take(k)).is_err(),
    ensures
        imported_lines(lines) == imported_lines(lines.take(k)),
    decreases lines.len() - k,
{
    if k < lines.len() {
        assert(lines.take(k + 1).drop_last() =~= lines.take(k));
        lemma_lines_prefix(lines, k + 1);
    } else {
        assert(lines.take(k) =~= lines);
    }
}

/// What a file with one JSON document to a line stands for.
pub open spec fn jsonl_import(data: Seq<u8>) -> Result<Seq<DatapointKindView>, ImportErrorView> {
    match utf8_decoded(data) {
        None => Err(ImportErrorView::InvalidUtf8),
        Some(text) => match imported_lines(split_on(text, '\n')) {
            Ok(kinds) => Ok(kinds),
            Err(n) => Err(ImportErrorView::InvalidLine(n)),
        },
    }
}

/// Reads the datapoints of a file with one JSON document to a line.
#[verifier::loop_isolation(false)]
pub fn parse_jsonl_import(data: &[u8]) -> (r: Result<Vec<DatapointKind>, ImportError>)
    ensures
        outcome(r) == jsonl_import(data@),
{
    let text = match utf8_text(data) {
        Some(t) => t,
        None => {
            return Err(ImportError::InvalidUtf8);
        },
    };
    let lines = crate::text::split(&crate::text::to_chars(text.as_str()), '\n');
    let ghost all = parts_view(lines@);
    let mut kinds: Vec<DatapointKind> = Vec::new();
    let mut i: usize = 0;
    assert(all.take(0) =~= Seq::empty());
    assert(kinds_view(kinds@) =~= Seq::empty());
    while i < lines.len()
        invariant
            i <= lines.len(),
            all == parts_view(lines@),
            imported_lines(all.take(i as int)) == Ok::<Seq<DatapointKindView>, int>(
                kinds_view(kinds@),
            ),
        decreases lines.len() - i,
    {
        proof {
            assert(all.take(i + 1).drop_last() =~= all.take(i as int));
            assert(all.take(i + 1).last() == lines[i as int]@);
        }
        let line = crate::text::trim(&lines[i]);
        if line.len() > 0 {
            let text = crate::text::from_chars(&line);
            match crate::json::parse(text.as_str().as_bytes()) {
                Some(doc) => {
                    let ghost before = kinds_view(kinds@);
                    let kind = import_item(&doc);
                    let ghost kv = kind@;
                    kinds.push(kind);
                    assert(kinds_view(kinds@) =~= before.push(kv));
                },
                None => {
                    proof {
                        assert(imported_lines(all.take(i + 1)) == Err::<
                            Seq<DatapointKindView>,
                            int,
                        >(i + 1));
                        lemma_lines_prefix(all, i + 1);
                    }
                    return Err(ImportError::InvalidLine(i + 1));
                },
            }
        }
        i = i + 1;
    }
    assert(all.take(lines.len() as int) =~= all);
    Ok(kinds)
}

/// What the csv crate makes of a file: the names of its columns and its
/// records; or what it says of a file that it cannot read.
pub uninterp spec fn csv_parsed(data: Seq<u8>) -> Result<
    (Seq<Seq<char>>, Seq<Seq<Seq<char>>>),
    Seq<char>,
>;

/// The characters of the fields of each record.
pub open spec fn records_view(records: Seq<Vec<String>>) -> Seq<Seq<Seq<char>>> {
    Seq::new(records.len(), |i: int| crate::text::texts_view(records[i]@))
}

/// `csv::Reader::from_reader` over the bytes, with its `headers` and its
/// `records`: the names of the columns and the fields of each record, or
/// the first error.
#[verifier::external_body]
fn read_csv(data: &[u8]) -> (r: Result<(Vec<String>, Vec<Vec<String>>), String>)
    ensures
        match r {
            Ok((headers, records)) => csv_parsed(data@) == Ok::<
                (Seq<Seq<char>>, Seq<Seq<Seq<char>>>),
                Seq<char>,
            >((crate::text::texts_view(headers@), records_view(records@))),
            Err(e) => csv_parsed(data@) == Err::<(Seq<Seq<char>>, Seq<Seq<Seq<char>>>), Seq<char>>(
                e@,
            ),
        },
{
    let mut reader = csv::Reader::from_reader(data);
    let headers = reader.headers().map_err(|e| e.to_string())?.iter().map(String::from).collect();
    let mut records = Vec::new();
    for record in reader.records() {
        records.push(record.map_err(|e| e.to_string())?.iter().map(String::from).collect());
    }
    Ok((headers, records))
}

/// What a field of a record stands for: the document that it holds in
/// JSON, or else the field as a string.
pub open spec fn cell(value: Seq<char>) -> JsonView {
    match json_parsed(vstd::utf8::encode_utf8(value)) {
        Some(doc) => doc,
        None => JsonView::Str(value),
    }
}

/// The object of a record: each field under the name of its column, as
/// far as names and fields go.
pub open spec fn record_fields(headers: Seq<Seq<char>>, record: Seq<Seq<char>>) -> Seq<
    (Seq<char>, JsonView),
> {
    Seq::new(
        if headers.len() <= record.len() {
            headers.len()
        } else {
            record.len()
        },
        |i: int| (headers[i], cell(record[i])),
    )
}

/// What the records of a file stand for.
pub open spec fn imported_records(headers: Seq<Seq<char>>, records: Seq<Seq<Seq<char>>>) -> Seq<
    DatapointKindView,
> {
    Seq::new(records.len(), |i: int| mapped(JsonView::Object(record_fields(headers, records[i]))))
}

fn record_object(headers: &Vec<String>, record: &Vec<String>) -> (j: Json)
    ensures
        j@ == JsonView::Object(
            record_fields(crate::text::texts_view(headers@), crate::text::texts_view(record@)),
        ),
{
    let mut fields: Vec<(String, Json)> = Vec::new();
    let n = if headers.len() <= record.len() {
        headers.len()
    } else {
        record.len()
    };
    let mut i: usize = 0;
    while i < n
        invariant
            i <= n,
            n <= headers.len(),
            n <= record.len(),
            fields.len() == i,
            forall|k: int|
                0 <= k < i ==> (#[trigger] fields[k]).0@ == headers[k]@ && fields[k].1@ == cell(
                    record[k]@,
                ),
        decreases n - i,
    {
        let value = match crate::json::parse(record[i].as_str().as_bytes()) {
            Some(doc) => doc,
            None => Json::Str(record[i].clone()),
        };
        fields.push((headers[i].clone(), value));
        i = i + 1;
    }
    proof {
        crate::json::lemma_object_view(fields);
        assert(fields_view(fields@) =~= record_fields(
            crate::text::texts_view(headers@),
            crate::text::texts_view(record@),
        ));
    }
    Json::Object(fields)
}

/// What a file in CSV stands for: each record is an object with its
/// fields under the names of the columns, and is mapped.
pub open spec fn csv_import(data: Seq<u8>) -> Result<Seq<DatapointKindView>, ImportErrorView> {
    match csv_parsed(data) {
        Ok((headers, records)) => Ok(imported_records(headers, records)),
        Err(e) => Err(ImportErrorView::InvalidCsv(e)),
    }
}

/// Reads the datapoints of a file in CSV.
#[verifier::loop_isolation(false)]
pub fn parse_csv_import(data: &[u8]) -> (r: Result<Vec<DatapointKind>, ImportError>)
    ensures
        outcome(r) == csv_import(data@),
{
    let (headers, records) = match read_csv(data) {
        Ok(parsed) => parsed,
        Err(e) => {
            return Err(ImportError::InvalidCsv(e));
        },
    };
    let mut kinds: Vec<DatapointKind> = Vec::new();
    let mut i: usize = 0;
    while i < records.len()
        invariant
            i <= records.len(),
            kinds.len() == i,
            forall|k: int|
                0 <= k < i ==> (#[trigger] kinds[k])@ == mapped(
                    JsonView::Object(
                        record_fields(
                            crate::text::texts_view(headers@),
                            crate::text::texts_view(records[k]@),
                        ),
                    ),
                ),
        decreases records.len() - i,
    {
        let obj = record_object(&headers, &records[i]);
        kinds.push(map_object_to_datapoint_kind(&obj));
        i = i + 1;
    }
    assert(kinds_view(kinds@) =~= imported_records(
        crate::text::texts_view(headers@),
        records_view(records@),
    ));
    Ok(kinds)
}

/// What a file that is imported stands for, by its name: it is read as
/// CSV where the name ends in `.csv`, with a document to a line where it
/// ends in `.jsonl`, as one document otherwise.
pub open spec fn file_import(filename: Seq<char>, data: Seq<u8>) -> Result<
    Seq<DatapointKindView>,
    ImportErrorView,
> {
    if ".csv"@.is_suffix_of(filename) {
        csv_import(data)
    } else if ".jsonl"@.is_suffix_of(filename) {
        jsonl_import(data)
    } else {
        json_import(data)
    }
}

/// Reads the datapoints of a file that is imported.
pub fn parse_import(filename: &str, data: &[u8]) -> (r: Result<Vec<DatapointKind>, ImportError>)
    ensures
        outcome(r) == file_import(filename@, data@),
{
    if crate::text::str_ends_with(filename, ".csv") {
        parse_csv_import(data)
    } else if crate::text::str_ends_with(filename, ".jsonl") {
        parse_jsonl_import(data)
    } else {
        parse_json_import(data)
    }
}

} // verus!
