use crate::api::jobs::{BackoffOptions, Job, JobOptions, JobStatus};
use crate::json::{opt_json, Json, JsonView};
use crate::text::{decimal, same_text, signed_decimal, texts_view};
use crate::trace::codec::lemma_pair;
use crate::trace::codec_entities::{
    lemma_texts_round_trip, read_texts, strings_json, strings_to_json, texts_of,
};
use crate::wire::{
    assemble, lemma_count_round_trip, lemma_decimal, lemma_differ, lemma_lookup_assembled, number,
    str_at, string, u64_at, ObjectWriter,
};
use vstd::prelude::*;

verus! {

impl JobStatus {
    /// True for the statuses whose jobs a queue on a server keeps in a
    /// list, in the order in which they came; the jobs of the others it
    /// keeps in a set that is ordered by a score.
    pub fn in_list(&self) -> (r: bool)
        ensures
            r == (*self == JobStatus::Waiting || *self == JobStatus::Active),
    {
        match self {
            JobStatus::Waiting => true,
            JobStatus::Active => true,
            _ => false,
        }
    }
}

/// The entries of a pause between two tries on the wire.
pub open spec fn backoff_entries(b: BackoffOptions) -> Seq<(Seq<char>, Option<JsonView>)> {
    match b {
        BackoffOptions::Fixed { delay } => seq![
            ("type"@, Some(JsonView::Str("fixed"@))),
            ("delay"@, Some(JsonView::Number(decimal(delay as nat)))),
        ],
        BackoffOptions::Exponential { delay } => seq![
            ("type"@, Some(JsonView::Str("exponential"@))),
            ("delay"@, Some(JsonView::Number(decimal(delay as nat)))),
        ],
    }
}

/// The pause between two tries on the wire; null where there is none.
pub open spec fn backoff_json(b: Option<BackoffOptions>) -> JsonView {
    match b {
        Some(b) => JsonView::Object(assemble(backoff_entries(b))),
        None => JsonView::Null,
    }
}

/// The entries of the options of a job on the wire.
pub open spec fn options_entries(o: JobOptions) -> Seq<(Seq<char>, Option<JsonView>)> {
    seq![
        ("attempts"@, Some(JsonView::Number(decimal(o.attempts as nat)))),
        ("backoff"@, Some(backoff_json(o.backoff))),
        ("delay"@, Some(JsonView::Number(decimal(o.delay as nat)))),
        ("remove_on_complete"@, Some(JsonView::Bool(o.remove_on_complete))),
        ("remove_on_fail"@, Some(JsonView::Bool(o.remove_on_fail))),
        ("priority"@, Some(JsonView::Number(decimal(o.priority as nat)))),
    ]
}

/// The options of a job on the wire.
pub open spec fn options_json(o: JobOptions) -> JsonView {
    JsonView::Object(assemble(options_entries(o)))
}

/// An optional instant in milliseconds on the wire; null where there is
/// none.
pub open spec fn opt_millis_json(t: Option<i64>) -> JsonView {
    match t {
        Some(t) => JsonView::Number(signed_decimal(t as int)),
        None => JsonView::Null,
    }
}

/// An optional document on the wire; null where there is none.
pub open spec fn doc_or_null(d: Option<Json>) -> JsonView {
    match d {
        Some(d) => d@,
        None => JsonView::Null,
    }
}

/// The entries of a job on the wire.
pub open spec fn job_entries(job: Job) -> Seq<(Seq<char>, Option<JsonView>)> {
    seq![
        ("id"@, Some(JsonView::Str(job.id@))),
        ("name"@, Some(JsonView::Str(job.name@))),
        ("data"@, Some(job.data@)),
        ("opts"@, Some(options_json(job.opts))),
        ("progress"@, Some(JsonView::Number(decimal(job.progress as nat)))),
        ("delay"@, Some(JsonView::Number(decimal(job.delay as nat)))),
        ("timestamp"@, Some(JsonView::Number(signed_decimal(job.timestamp as int)))),
        ("attempts_made"@, Some(JsonView::Number(decimal(job.attempts_made as nat)))),
        ("stacktrace"@, Some(JsonView::Array(strings_json(texts_view(job.stacktrace@))))),
        ("return_value"@, Some(doc_or_null(job.return_value))),
        ("finished_on"@, Some(opt_millis_json(job.finished_on))),
        ("processed_on"@, Some(opt_millis_json(job.processed_on))),
    ]
}

/// The job on the wire: an object with every field of the job, null
/// where the job has nothing.
pub open spec fn job_json(job: Job) -> JsonView {
    JsonView::Object(assemble(job_entries(job)))
}

/// The count under `key` where one may stand there: zero where the field
/// is missing; nothing where what stands there is no count that fits 32
/// bits.
pub open spec fn small_count_at(j: JsonView, key: Seq<char>) -> Option<u32> {
    match j.get(key) {
        None => Some(0u32),
        Some(v) => match v.as_u64() {
            Some(n) => if n <= u32::MAX {
                Some(n as u32)
            } else {
                None
            },
            None => None,
        },
    }
}

/// The count under `key` where one may stand there: zero where the field
/// is missing.
pub open spec fn count_at(j: JsonView, key: Seq<char>) -> Option<u64> {
    match j.get(key) {
        None => Some(0u64),
        Some(v) => v.as_u64(),
    }
}

/// The switch under `key` where one may stand there: off where the field
/// is missing.
pub open spec fn switch_at(j: JsonView, key: Seq<char>) -> Option<bool> {
    match j.get(key) {
        None => Some(false),
        Some(JsonView::Bool(b)) => Some(b),
        Some(_) => None,
    }
}

/// The instant in milliseconds under `key` where one may stand there:
/// none where the field is missing or null.
pub open spec fn opt_millis_at(j: JsonView, key: Seq<char>) -> Option<Option<i64>> {
    match j.get(key) {
        None => Some(None),
        Some(JsonView::Null) => Some(None),
        Some(v) => match v.as_i64() {
            Some(t) => Some(Some(t)),
            None => None,
        },
    }
}

/// The pause between two tries that a value on the wire stands for.
pub open spec fn backoff_of(j: JsonView) -> Option<BackoffOptions> {
    match (str_at(j, "type"@), u64_at(j, "delay"@)) {
        (Some(kind), Some(delay)) => if kind == "fixed"@ {
            Some(BackoffOptions::Fixed { delay })
        } else if kind == "exponential"@ {
            Some(BackoffOptions::Exponential { delay })
        } else {
            None
        },
        _ => None,
    }
}

/// The pause under `key` where one may stand there: none where the field
/// is missing or null.
pub open spec fn opt_backoff_at(j: JsonView, key: Seq<char>) -> Option<Option<BackoffOptions>> {
    match j.get(key) {
        None => Some(None),
        Some(JsonView::Null) => Some(None),
        Some(v) => match backoff_of(v) {
            Some(b) => Some(Some(b)),
            None => None,
        },
    }
}

/// The options that an object on the wire stands for; a field that is
/// missing has its default.
pub open spec fn options_of(j: JsonView) -> Option<JobOptions> {
    match (
        j is Object,
        small_count_at(j, "attempts"@),
        opt_backoff_at(j, "backoff"@),
        count_at(j, "delay"@),
        switch_at(j, "remove_on_complete"@),
        switch_at(j, "remove_on_fail"@),
        small_count_at(j, "priority"@),
    ) {
        (
            true,
            Some(attempts),
            Some(backoff),
            Some(delay),
            Some(remove_on_complete),
            Some(remove_on_fail),
            Some(priority),
        ) => Some(
            JobOptions { attempts, backoff, delay, remove_on_complete, remove_on_fail, priority },
        ),
        _ => None,
    }
}

/// The trace of a failure under `key` where one may stand there: empty
/// where the field is missing.
pub open spec fn trace_at(j: JsonView, key: Seq<char>) -> Option<Seq<Seq<char>>> {
    match j.get(key) {
        None => Some(Seq::empty()),
        Some(JsonView::Array(items)) => texts_of(items),
        Some(_) => None,
    }
}

/// What a job has of all that a value on the wire must hold to stand for
/// a job: identifier, name, data, options, progress, delay and the time
/// it was added; what it did so far may be missing.
pub open spec fn reads_as_job(j: JsonView, job: Job) -> bool {
    &&& str_at(j, "id"@) == Some(job.id@)
    &&& str_at(j, "name"@) == Some(job.name@)
    &&& j.get("data"@) == Some(job.data@)
    &&& j.get("opts"@) matches Some(o) && options_of(o) == Some(job.opts)
    &&& u64_at(j, "progress"@) == Some(job.progress as u64)
    &&& u64_at(j, "delay"@) == Some(job.delay)
    &&& j.get("timestamp"@) matches Some(t) && t.as_i64() == Some(job.timestamp)
    &&& small_count_at(j, "attempts_made"@) == Some(job.attempts_made)
    &&& trace_at(j, "stacktrace"@) == Some(texts_view(job.stacktrace@))
    &&& opt_json(job.return_value) == match j.get("return_value"@) {
        None => None,
        Some(JsonView::Null) => None,
        Some(v) => Some(v),
    }
    &&& opt_millis_at(j, "finished_on"@) == Some(job.finished_on)
    &&& opt_millis_at(j, "processed_on"@) == Some(job.processed_on)
}

/// True for a value on the wire that stands for a job.
pub open spec fn is_job(j: JsonView) -> bool {
    &&& str_at(j, "id"@).is_some()
    &&& str_at(j, "name"@).is_some()
    &&& j.get("data"@).is_some()
    &&& j.get("opts"@) matches Some(o) && options_of(o).is_some()
    &&& u64_at(j, "progress"@) matches Some(p) && p <= u8::MAX
    &&& u64_at(j, "delay"@).is_some()
    &&& j.get("timestamp"@) matches Some(t) && t.as_i64().is_some()
    &&& small_count_at(j, "attempts_made"@).is_some()
    &&& trace_at(j, "stacktrace"@).is_some()
    &&& opt_millis_at(j, "finished_on"@).is_some()
    &&& opt_millis_at(j, "processed_on"@).is_some()
}

fn backoff_to_json(b: &Option<BackoffOptions>) -> (j: Json)
    ensures
        j@ == backoff_json(*b),
{
    match b {
        Some(BackoffOptions::Fixed { delay }) => {
            let mut w = ObjectWriter::new();
            w.put("type", string("fixed"));
            w.put("delay", number(*delay));
            assert(w.entries() =~= backoff_entries(b.unwrap()));
            w.finish()
        },
        Some(BackoffOptions::Exponential { delay }) => {
            let mut w = ObjectWriter::new();
            w.put("type", string("exponential"));
            w.put("delay", number(*delay));
            assert(w.entries() =~= backoff_entries(b.unwrap()));
            w.finish()
        },
        None => Json::Null,
    }
}

fn opt_millis_to_json(t: Option<i64>) -> (j: Json)
    ensures
        j@ == opt_millis_json(t),
{
    match t {
        Some(t) => Json::Number(crate::text::i64_to_string(t)),
        None => Json::Null,
    }
}

fn get_small_count(j: &Json, key: &str) -> (r: Option<u32>)
    ensures
        r == small_count_at(j@, key@),
{
    match j.get(key) {
        None => Some(0),
        Some(v) => match v.as_u64() {
            Some(n) => if n <= 0xffff_ffff {
                Some(n as u32)
            } else {
                None
            },
            None => None,
        },
    }
}

fn get_count(j: &Json, key: &str) -> (r: Option<u64>)
    ensures
        r == count_at(j@, key@),
{
    match j.get(key) {
        None => Some(0),
        Some(v) => v.as_u64(),
    }
}

fn get_switch(j: &Json, key: &str) -> (r: Option<bool>)
    ensures
        r == switch_at(j@, key@),
{
    match j.get(key) {
        None => Some(false),
        Some(Json::Bool(b)) => Some(*b),
        Some(_) => None,
    }
}

fn get_opt_millis(j: &Json, key: &str) -> (r: Option<Option<i64>>)
    ensures
        r == opt_millis_at(j@, key@),
{
    match j.get(key) {
        None => Some(None),
        Some(Json::Null) => Some(None),
        Some(v) => match v.as_i64() {
            Some(t) => Some(Some(t)),
            None => None,
        },
    }
}

fn read_backoff(j: &Json) -> (r: Option<BackoffOptions>)
    ensures
        r == backoff_of(j@),
{
    match (crate::wire::get_str(j, "type"), crate::wire::get_u64(j, "delay")) {
        (Some(kind), Some(delay)) => {
            if same_text(kind, "fixed") {
                Some(BackoffOptions::Fixed { delay })
            } else if same_text(kind, "exponential") {
                Some(BackoffOptions::Exponential { delay })
            } else {
                None
            }
        },
        _ => None,
    }
}

fn get_opt_backoff(j: &Json, key: &str) -> (r: Option<Option<BackoffOptions>>)
    ensures
        r == opt_backoff_at(j@, key@),
{
    match j.get(key) {
        None => Some(None),
        Some(Json::Null) => Some(None),
        Some(v) => match read_backoff(v) {
            Some(b) => Some(Some(b)),
            None => None,
        },
    }
}

fn get_trace(j: &Json, key: &str) -> (r: Option<Vec<String>>)
    ensures
        match r {
            Some(v) => trace_at(j@, key@) == Some(texts_view(v@)),
            None => trace_at(j@, key@).is_none(),
        },
{
    match j.get(key) {
        None => {
            let v: Vec<String> = Vec::new();
            assert(texts_view(v@) =~= Seq::empty());
            Some(v)
        },
        Some(found) => match found.as_array() {
            Some(items) => read_texts(items),
            None => None,
        },
    }
}

impl JobOptions {
    /// The options on the wire.
    pub fn to_json(&self) -> (j: Json)
        ensures
            j@ == options_json(*self),
    {
        let mut w = ObjectWriter::new();
        w.put("attempts", number(self.attempts as u64));
        w.put("backoff", backoff_to_json(&self.backoff));
        w.put("delay", number(self.delay));
        w.put("remove_on_complete", Json::Bool(self.remove_on_complete));
        w.put("remove_on_fail", Json::Bool(self.remove_on_fail));
        w.put("priority", number(self.priority as u64));
        assert(w.entries() =~= options_entries(*self));
        w.finish()
    }

    /// The options that an object on the wire stands for.
    pub fn from_json(j: &Json) -> (r: Option<JobOptions>)
        ensures
            r == options_of(j@),
    {
        if !j.is_object() {
            return None;
        }
        match (
            get_small_count(j, "attempts"),
            get_opt_backoff(j, "backoff"),
            get_count(j, "delay"),
            get_switch(j, "remove_on_complete"),
            get_switch(j, "remove_on_fail"),
            get_small_count(j, "priority"),
        ) {
            (
                Some(attempts),
                Some(backoff),
                Some(delay),
                Some(remove_on_complete),
                Some(remove_on_fail),
                Some(priority),
            ) => Some(
                JobOptions { attempts, backoff, delay, remove_on_complete, remove_on_fail, priority },
            ),
            _ => None,
        }
    }
}

impl Job {
    /// The job on the wire.
    pub fn to_json(&self) -> (j: Json)
        ensures
            j@ == job_json(*self),
    {
        let mut w = ObjectWriter::new();
        w.put("id", string(self.id.as_str()));
        w.put("name", string(self.name.as_str()));
        w.put("data", self.data.clone());
        w.put("opts", self.opts.to_json());
        w.put("progress", number(self.progress as u64));
        w.put("delay", number(self.delay));
        w.put("timestamp", Json::Number(crate::text::i64_to_string(self.timestamp)));
        w.put("attempts_made", number(self.attempts_made as u64));
        w.put("stacktrace", strings_to_json(&self.stacktrace));
        w.put(
            "return_value",
            match &self.return_value {
                Some(d) => d.clone(),
                None => Json::Null,
            },
        );
        w.put("finished_on", opt_millis_to_json(self.finished_on));
        w.put("processed_on", opt_millis_to_json(self.processed_on));
        assert(w.entries() =~= job_entries(*self));
        w.finish()
    }

    /// The job that an object on the wire stands for; nothing where the
    /// object lacks what a job must have, or holds under a name what
    /// does not belong there.
    pub fn from_json(j: &Json) -> (r: Option<Job>)
        ensures
            match r {
                Some(job) => reads_as_job(j@, job),
                None => !is_job(j@),
            },
    {
        let id = crate::wire::get_str(j, "id")?;
        let name = crate::wire::get_str(j, "name")?;
        let data = j.get("data")?;
        let opts = JobOptions::from_json(j.get("opts")?)?;
        let progress = crate::wire::get_u64(j, "progress")?;
        if progress > 255 {
            return None;
        }
        let delay = crate::wire::get_u64(j, "delay")?;
        let timestamp = j.get("timestamp")?.as_i64()?;
        let attempts_made = get_small_count(j, "attempts_made")?;
        let stacktrace = get_trace(j, "stacktrace")?;
        let return_value = match j.get("return_value") {
            None => None,
            Some(Json::Null) => None,
            Some(v) => Some(v.clone()),
        };
        let finished_on = get_opt_millis(j, "finished_on")?;
        let processed_on = get_opt_millis(j, "processed_on")?;
        Some(
            Job {
                id: id.to_owned(),
                name: name.to_owned(),
                data: data.clone(),
                opts,
                progress: progress as u8,
                delay,
                timestamp,
                attempts_made,
                stacktrace,
                return_value,
                finished_on,
                processed_on,
            },
        )
    }

    /// The job that bytes of JSON stand for.
    pub fn from_bytes(payload: &[u8]) -> (r: Option<Job>)
        ensures
            match r {
                Some(job) => crate::json::json_parsed(payload@) matches Some(j) && reads_as_job(
                    j,
                    job,
                ),
                None => match crate::json::json_parsed(payload@) {
                    Some(j) => !is_job(j),
                    None => true,
                },
            },
    {
        match crate::json::parse(payload) {
            Some(j) => Job::from_json(&j),
            None => None,
        }
    }
}

/// A whole number comes back from its decimal digits, with its sign.
pub proof fn lemma_signed_round_trip(n: i64)
    ensures
        JsonView::Number(signed_decimal(n as int)).as_i64() == Some(n),
{
    let s = signed_decimal(n as int);
    if n < 0 {
        let digits = decimal((-n) as nat);
        lemma_decimal((-n) as nat);
        assert(s[0] == '-');
        assert(s.subrange(1, s.len() as int) =~= digits);
    } else {
        lemma_decimal(n as nat);
        assert(s[0] != '-');
    }
}

proof fn lemma_backoff_round_trip(b: BackoffOptions)
    ensures
        backoff_of(backoff_json(Some(b))) == Some(b),
        !(backoff_json(Some(b)) is Null),
{
    reveal_strlit("type");
    reveal_strlit("delay");
    reveal_strlit("fixed");
    reveal_strlit("exponential");
    let e = backoff_entries(b);
    assert(e.len() == 2);
    assert(e[0].0 == "type"@ && e[1].0 == "delay"@);
    assert forall|i: int, j: int| 0 <= i < e.len() && 0 <= j < e.len() && i != j implies e[i].0
        != e[j].0 by {
        lemma_pair(e, i, j);
    }
    lemma_lookup_assembled(e, "type"@);
    lemma_lookup_assembled(e, "delay"@);
    let j = backoff_json(Some(b));
    assert(j.get("type"@) == e[0].1);
    assert(j.get("delay"@) == e[1].1);
    match b {
        BackoffOptions::Fixed { delay } => {
            lemma_count_round_trip(delay);
        },
        BackoffOptions::Exponential { delay } => {
            lemma_count_round_trip(delay);
            lemma_differ("exponential"@, "fixed"@, 0);
        },
    }
}

/// The options of a job come back from the wire as they went.
pub proof fn lemma_options_round_trip(o: JobOptions)
    ensures
        options_of(options_json(o)) == Some(o),
{
    reveal_strlit("attempts");
    reveal_strlit("backoff");
    reveal_strlit("delay");
    reveal_strlit("remove_on_complete");
    reveal_strlit("remove_on_fail");
    reveal_strlit("priority");
    let e = options_entries(o);
    assert(e.len() == 6);
    assert(e[0].0 == "attempts"@ && e[1].0 == "backoff"@ && e[2].0 == "delay"@ && e[3].0
        == "remove_on_complete"@ && e[4].0 == "remove_on_fail"@ && e[5].0 == "priority"@);
    assert forall|i: int, j: int| 0 <= i < e.len() && 0 <= j < e.len() && i != j implies e[i].0
        != e[j].0 by {
        lemma_pair(e, i, j);
    }
    lemma_lookup_assembled(e, "attempts"@);
    lemma_lookup_assembled(e, "backoff"@);
    lemma_lookup_assembled(e, "delay"@);
    lemma_lookup_assembled(e, "remove_on_complete"@);
    lemma_lookup_assembled(e, "remove_on_fail"@);
    lemma_lookup_assembled(e, "priority"@);
    let j = options_json(o);
    assert(j.get("attempts"@) == e[0].1);
    assert(j.get("backoff"@) == e[1].1);
    assert(j.get("delay"@) == e[2].1);
    assert(j.get("remove_on_complete"@) == e[3].1);
    assert(j.get("remove_on_fail"@) == e[4].1);
    assert(j.get("priority"@) == e[5].1);
    lemma_count_round_trip(o.attempts as u64);
    lemma_count_round_trip(o.delay);
    lemma_count_round_trip(o.priority as u64);
    if let Some(b) = o.backoff {
        lemma_backoff_round_trip(b);
    }
}

/// A job comes back from the wire as it went, where what it returned is
/// not the null document: that one comes back as nothing returned.
pub proof fn lemma_job_round_trip(job: Job)
    requires
        !(job.return_value matches Some(d) && d@ is Null),
    ensures
        reads_as_job(job_json(job), job),
        is_job(job_json(job)),
{
    reveal_strlit("id");
    reveal_strlit("name");
    reveal_strlit("data");
    reveal_strlit("opts");
    reveal_strlit("progress");
    reveal_strlit("delay");
    reveal_strlit("timestamp");
    reveal_strlit("attempts_made");
    reveal_strlit("stacktrace");
    reveal_strlit("return_value");
    reveal_strlit("finished_on");
    reveal_strlit("processed_on");
    let e = job_entries(job);
    assert(e.len() == 12);
    assert(e[0].0 == "id"@ && e[1].0 == "name"@ && e[2].0 == "data"@ && e[3].0 == "opts"@ && e[4].0
        == "progress"@ && e[5].0 == "delay"@ && e[6].0 == "timestamp"@ && e[7].0
        == "attempts_made"@ && e[8].0 == "stacktrace"@ && e[9].0 == "return_value"@ && e[10].0
        == "finished_on"@ && e[11].0 == "processed_on"@);
    assert forall|i: int, j: int| 0 <= i < e.len() && 0 <= j < e.len() && i != j implies e[i].0
        != e[j].0 by {
        lemma_pair(e, i, j);
    }
    lemma_lookup_assembled(e, "id"@);
    lemma_lookup_assembled(e, "name"@);
    lemma_lookup_assembled(e, "data"@);
    lemma_lookup_assembled(e, "opts"@);
    lemma_lookup_assembled(e, "progress"@);
    lemma_lookup_assembled(e, "delay"@);
    lemma_lookup_assembled(e, "timestamp"@);
    lemma_lookup_assembled(e, "attempts_made"@);
    lemma_lookup_assembled(e, "stacktrace"@);
    lemma_lookup_assembled(e, "return_value"@);
    lemma_lookup_assembled(e, "finished_on"@);
    lemma_lookup_assembled(e, "processed_on"@);
    let j = job_json(job);
    assert(j.get("id"@) == e[0].1);
    assert(j.get("name"@) == e[1].1);
    assert(j.get("data"@) == e[2].1);
    assert(j.get("opts"@) == e[3].1);
    assert(j.get("progress"@) == e[4].1);
    assert(j.get("delay"@) == e[5].1);
    assert(j.get("timestamp"@) == e[6].1);
    assert(j.get("attempts_made"@) == e[7].1);
    assert(j.get("stacktrace"@) == e[8].1);
    assert(j.get("return_value"@) == e[9].1);
    assert(j.get("finished_on"@) == e[10].1);
    assert(j.get("processed_on"@) == e[11].1);
    lemma_options_round_trip(job.opts);
    lemma_count_round_trip(job.progress as u64);
    lemma_count_round_trip(job.delay);
    lemma_signed_round_trip(job.timestamp);
    lemma_count_round_trip(job.attempts_made as u64);
    lemma_texts_round_trip(texts_view(job.stacktrace@));
    if let Some(t) = job.finished_on {
        lemma_signed_round_trip(t);
    }
    if let Some(t) = job.processed_on {
        lemma_signed_round_trip(t);
    }
}

} // verus!
