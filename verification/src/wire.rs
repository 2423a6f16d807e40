use crate::clock::{rfc3339_parsed, rfc3339_text, Timestamp};
use crate::ids::{uuid_parsed, uuid_text, Id};
use crate::json::{
    all_digits, digits_value, fields_view, lemma_object_view, lookup, text_u64, Json, JsonView,
};
use crate::text::{decimal, digit_char, opt_str};
use vstd::prelude::*;

verus! {

/// One named value of an object.
pub open spec fn field(name: Seq<char>, value: JsonView) -> Seq<(Seq<char>, JsonView)> {
    seq![(name, value)]
}

/// One named value of an object, where there is a value, and nothing
/// where there is none.
pub open spec fn opt_field(name: Seq<char>, value: Option<JsonView>) -> Seq<(Seq<char>, JsonView)> {
    match value {
        Some(v) => seq![(name, v)],
        None => Seq::empty(),
    }
}

/// The value of an optional text: its string, or null.
pub open spec fn str_or_null(s: Option<Seq<char>>) -> JsonView {
    match s {
        Some(s) => JsonView::Str(s),
        None => JsonView::Null,
    }
}

/// The string of an optional text.
pub open spec fn opt_string(s: Option<Seq<char>>) -> Option<JsonView> {
    match s {
        Some(s) => Some(JsonView::Str(s)),
        None => None,
    }
}

/// The number of an optional count.
pub open spec fn opt_number(n: Option<u64>) -> Option<JsonView> {
    match n {
        Some(n) => Some(JsonView::Number(decimal(n as nat))),
        None => None,
    }
}

/// The number that an optional text writes.
pub open spec fn opt_number_text(s: Option<Seq<char>>) -> Option<JsonView> {
    match s {
        Some(s) => Some(JsonView::Number(s)),
        None => None,
    }
}

/// A lookup in two lists of fields, one after the other, finds what the
/// first list holds, and else what the second holds.
pub proof fn lemma_lookup_concat(
    a: Seq<(Seq<char>, JsonView)>,
    b: Seq<(Seq<char>, JsonView)>,
    key: Seq<char>,
)
    ensures
        lookup(a + b, key) == if lookup(a, key).is_some() {
            lookup(a, key)
        } else {
            lookup(b, key)
        },
    decreases a.len(),
{
    if a.len() == 0 {
        assert(a + b =~= b);
    } else {
        assert((a + b)[0] == a[0]);
        assert((a + b).drop_first() =~= a.drop_first() + b);
        lemma_lookup_concat(a.drop_first(), b, key);
    }
}

/// A lookup in one field finds its value under its name and nothing under
/// another.
pub proof fn lemma_lookup_field(name: Seq<char>, value: JsonView, key: Seq<char>)
    ensures
        lookup(field(name, value), key) == if name == key {
            Some(value)
        } else {
            None
        },
{
    let f = field(name, value);
    assert(f[0] == (name, value));
    assert(f.drop_first() =~= Seq::empty());
    assert(lookup(f.drop_first(), key).is_none());
}

/// A lookup in an optional field finds its value under its name, where
/// it has one, and nothing else.
pub proof fn lemma_lookup_opt_field(name: Seq<char>, value: Option<JsonView>, key: Seq<char>)
    ensures
        lookup(opt_field(name, value), key) == if name == key {
            value
        } else {
            None
        },
{
    if let Some(v) = value {
        lemma_lookup_field(name, v, key);
    }
}

/// Two texts differ where they differ in length or in one character.
pub proof fn lemma_differ(a: Seq<char>, b: Seq<char>, i: int)
    requires
        a.len() != b.len() || (0 <= i < a.len() && a[i] != b[i]),
    ensures
        a != b,
{
}

/// The decimal digits of a number are digits, and they write the number.
pub proof fn lemma_decimal(n: nat)
    ensures
        decimal(n).len() > 0,
        all_digits(decimal(n)),
        digits_value(decimal(n)) == n,
    decreases n,
{
    if n < 10 {
        let s = decimal(n);
        assert(s.len() == 1);
        assert(s.drop_last() =~= Seq::empty());
        assert(s.last() == digit_char(n as int));
        assert(digits_value(s.drop_last()) == 0);
    } else {
        lemma_decimal(n / 10);
        let s = decimal(n);
        let d = digit_char((n % 10) as int);
        assert(s.drop_last() =~= decimal(n / 10));
        assert(s.last() == d);
        assert forall|i: int| 0 <= i < s.len() implies '0' <= #[trigger] s[i] <= '9' by {
            if i < s.len() - 1 {
                assert(s[i] == decimal(n / 10)[i]);
            }
        }
    }
}

/// A count comes back from its decimal digits.
pub proof fn lemma_count_round_trip(n: u64)
    ensures
        text_u64(decimal(n as nat)) == Some(n),
        JsonView::Number(decimal(n as nat)).as_u64() == Some(n),
{
    lemma_decimal(n as nat);
}

/// Collects the fields of an object, entry by entry.
pub struct ObjectWriter {
    fields: Vec<(String, Json)>,
    entries: Ghost<Seq<(Seq<char>, Option<JsonView>)>>,
}

impl ObjectWriter {
    /// The entries so far, those without a value too.
    pub closed spec fn entries(&self) -> Seq<(Seq<char>, Option<JsonView>)> {
        self.entries@
    }

    /// The fields are those that the entries make.
    pub closed spec fn wf(&self) -> bool {
        fields_view(self.fields@) == assemble(self.entries@)
    }

    pub fn new() -> (w: ObjectWriter)
        ensures
            w.wf(),
            w.entries() == Seq::<(Seq<char>, Option<JsonView>)>::empty(),
    {
        let w = ObjectWriter { fields: Vec::new(), entries: Ghost(Seq::empty()) };
        assert(fields_view(w.fields@) =~= Seq::empty());
        w
    }

    /// Adds an entry with a value.
    pub fn put(&mut self, name: &str, value: Json)
        requires
            old(self).wf(),
        ensures
            final(self).wf(),
            final(self).entries() == old(self).entries().push((name@, Some(value@))),
    {
        let ghost before = fields_view(self.fields@);
        let ghost entry = (name@, Some(value@));
        self.fields.push((name.to_owned(), value));
        proof {
            assert(fields_view(self.fields@) =~= before + field(name@, value@));
            let next = self.entries@.push(entry);
            assert(next.drop_last() =~= self.entries@);
            assert(next.last() == entry);
            self.entries@ = next;
        }
    }

    /// Adds an entry that may have no value.
    pub fn put_opt(&mut self, name: &str, value: Option<Json>)
        requires
            old(self).wf(),
        ensures
            final(self).wf(),
            final(self).entries() == old(self).entries().push(
                (name@, crate::json::opt_json(value)),
            ),
    {
        let ghost before = fields_view(self.fields@);
        let ghost entry = (name@, crate::json::opt_json(value));
        match value {
            Some(v) => {
                self.fields.push((name.to_owned(), v));
                assert(fields_view(self.fields@) =~= before + field(name@, v@));
            },
            None => {
                assert(fields_view(self.fields@) =~= before + Seq::empty());
            },
        }
        proof {
            let next = self.entries@.push(entry);
            assert(next.drop_last() =~= self.entries@);
            assert(next.last() == entry);
            self.entries@ = next;
        }
    }

    /// The object of the entries.
    pub fn finish(self) -> (j: Json)
        requires
            self.wf(),
        ensures
            j@ == JsonView::Object(assemble(self.entries())),
    {
        proof {
            lemma_object_view(self.fields);
        }
        Json::Object(self.fields)
    }
}

/// The string of a text.
pub fn string(s: &str) -> (j: Json)
    ensures
        j@ == JsonView::Str(s@),
{
    Json::Str(s.to_owned())
}

/// The number of a count.
pub fn number(n: u64) -> (j: Json)
    ensures
        j@ == JsonView::Number(decimal(n as nat)),
{
    Json::Number(crate::text::u64_to_string(n))
}

/// The string of an identifier.
pub fn id_string(id: Id) -> (j: Json)
    ensures
        j@ == JsonView::Str(uuid_text(id)),
        uuid_parsed(uuid_text(id)) == Some(id),
{
    Json::Str(crate::ids::id_to_string(id))
}

/// The string of an instant.
pub fn time_string(t: &Timestamp) -> (j: Json)
    ensures
        j@ == JsonView::Str(rfc3339_text(t@)),
        time_named(rfc3339_text(t@)) matches Some((secs, nanos)) && secs * 1_000_000_000 + nanos
            == t@,
{
    let secs = t.secs();
    let nanos = t.subsec_nanos();
    Json::Str(crate::clock::to_rfc3339(t))
}

/// The string of an optional text.
pub fn opt_str_json(s: Option<&str>) -> (j: Option<Json>)
    ensures
        crate::json::opt_json(j) == opt_string(opt_str(s)),
{
    match s {
        Some(s) => Some(string(s)),
        None => None,
    }
}

/// The text under `key`: the string that the object holds there.
pub open spec fn str_at(j: JsonView, key: Seq<char>) -> Option<Seq<char>> {
    match j.get(key) {
        Some(v) => v.as_str(),
        None => None,
    }
}

/// The count under `key`.
pub open spec fn u64_at(j: JsonView, key: Seq<char>) -> Option<u64> {
    match j.get(key) {
        Some(v) => v.as_u64(),
        None => None,
    }
}

/// The identifier under `key`: what the string there names.
pub open spec fn id_at(j: JsonView, key: Seq<char>) -> Option<Id> {
    match str_at(j, key) {
        Some(s) => uuid_parsed(s),
        None => None,
    }
}

/// The instant that a text names, in seconds and nanoseconds, where it
/// lies in the range of the instants.
pub open spec fn time_named(s: Seq<char>) -> Option<(i64, u32)> {
    match rfc3339_parsed(s) {
        Some((secs, nanos)) => if crate::clock::MIN_SECS <= secs <= crate::clock::MAX_SECS
            && nanos < crate::clock::NANOS_PER_SEC {
            Some((secs, nanos))
        } else {
            None
        },
        None => None,
    }
}

/// The instant under `key`.
pub open spec fn time_at(j: JsonView, key: Seq<char>) -> Option<(i64, u32)> {
    match str_at(j, key) {
        Some(s) => time_named(s),
        None => None,
    }
}

/// What stands under `key` where something may stand there: nothing
/// where the field is missing or null, else what `read` makes of it.
pub open spec fn absent(j: JsonView, key: Seq<char>) -> bool {
    j.get(key).is_none() || j.get(key) == Some(JsonView::Null)
}

/// The text under `key`.
pub fn get_str<'a>(j: &'a Json, key: &str) -> (r: Option<&'a str>)
    ensures
        opt_str(r) == str_at(j@, key@),
{
    match j.get(key) {
        Some(v) => v.as_str(),
        None => None,
    }
}

/// The count under `key`.
pub fn get_u64(j: &Json, key: &str) -> (r: Option<u64>)
    ensures
        r == u64_at(j@, key@),
{
    match j.get(key) {
        Some(v) => v.as_u64(),
        None => None,
    }
}

/// The identifier under `key`.
pub fn get_id(j: &Json, key: &str) -> (r: Option<Id>)
    ensures
        r == id_at(j@, key@),
{
    match get_str(j, key) {
        Some(s) => crate::ids::parse_id(s),
        None => None,
    }
}

/// The instant that a text names.
pub fn read_time(s: &str) -> (r: Option<Timestamp>)
    ensures
        match r {
            Some(t) => time_named(s@) matches Some((secs, nanos)) && secs * 1_000_000_000 + nanos
                == t@,
            None => time_named(s@).is_none(),
        },
{
    match crate::clock::parse_rfc3339_exact(s) {
        Some(t) => {
            let secs = t.secs();
            let nanos = t.subsec_nanos();
            Some(t)
        },
        None => None,
    }
}

/// The instant under `key`.
pub fn get_time(j: &Json, key: &str) -> (r: Option<Timestamp>)
    ensures
        match r {
            Some(t) => time_at(j@, key@) matches Some((secs, nanos)) && secs * 1_000_000_000
                + nanos == t@,
            None => time_at(j@, key@).is_none(),
        },
{
    match get_str(j, key) {
        Some(s) => read_time(s),
        None => None,
    }
}

/// True when nothing stands under `key`, or null.
pub fn is_absent(j: &Json, key: &str) -> (r: bool)
    ensures
        r == absent(j@, key@),
{
    match j.get(key) {
        Some(v) => match v {
            Json::Null => true,
            _ => false,
        },
        None => true,
    }
}

/// The fields that a list of entries makes: each entry that has a value,
/// under its name, in the order of the entries.
pub open spec fn assemble(entries: Seq<(Seq<char>, Option<JsonView>)>) -> Seq<(Seq<char>, JsonView)>
    decreases entries.len(),
{
    if entries.len() == 0 {
        Seq::empty()
    } else {
        assemble(entries.drop_last()) + opt_field(entries.last().0, entries.last().1)
    }
}

/// True when no two entries share a name.
pub open spec fn names_distinct(entries: Seq<(Seq<char>, Option<JsonView>)>) -> bool {
    forall|i: int, j: int|
        0 <= i < entries.len() && 0 <= j < entries.len() && i != j ==> entries[i].0 != entries[j].0
}

/// A lookup among the fields of entries with distinct names finds the
/// value of the entry of that name, and nothing under any other name.
pub proof fn lemma_lookup_assembled(entries: Seq<(Seq<char>, Option<JsonView>)>, key: Seq<char>)
    requires
        names_distinct(entries),
    ensures
        forall|i: int|
            0 <= i < entries.len() && (#[trigger] entries[i]).0 == key ==> lookup(
                assemble(entries),
                key,
            ) == entries[i].1,
        (forall|i: int| 0 <= i < entries.len() ==> (#[trigger] entries[i]).0 != key) ==> lookup(
            assemble(entries),
            key,
        ).is_none(),
    decreases entries.len(),
{
    if entries.len() > 0 {
        let rest = entries.drop_last();
        let last = entries.last();
        assert(names_distinct(rest)) by {
            assert forall|i: int, j: int|
                0 <= i < rest.len() && 0 <= j < rest.len() && i != j implies rest[i].0
                != rest[j].0 by {
                assert(rest[i] == entries[i]);
                assert(rest[j] == entries[j]);
            }
        }
        lemma_lookup_assembled(rest, key);
        lemma_lookup_concat(assemble(rest), opt_field(last.0, last.1), key);
        lemma_lookup_opt_field(last.0, last.1, key);
        assert forall|i: int| 0 <= i < entries.len() && (#[trigger] entries[i]).0
            == key implies lookup(assemble(entries), key) == entries[i].1 by {
            if i < rest.len() {
                assert(rest[i] == entries[i]);
                assert(entries[i].0 != entries[entries.len() - 1].0);
                assert(lookup(assemble(rest), key) == entries[i].1);
                if entries[i].1.is_none() {
                    assert(lookup(opt_field(last.0, last.1), key).is_none());
                }
            } else {
                assert forall|k: int| 0 <= k < rest.len() implies (#[trigger] rest[k]).0 != key by {
                    assert(rest[k] == entries[k]);
                    assert(entries[k].0 != entries[entries.len() - 1].0);
                }
            }
        }
        if forall|i: int| 0 <= i < entries.len() ==> (#[trigger] entries[i]).0 != key {
            assert forall|k: int| 0 <= k < rest.len() implies (#[trigger] rest[k]).0 != key by {
                assert(rest[k] == entries[k]);
            }
            assert(entries[entries.len() - 1].0 != key);
        }
    }
}

} // verus!
