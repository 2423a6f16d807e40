use crate::api::metrics::{fixed, fixed_point, pow10};
use crate::json::{Json, JsonView};
use crate::text::{after_last, decimal, hex_padded, opt_text, texts_view};
use crate::trace::kind::{SpanKind, SpanKindView};
use vstd::prelude::*;

verus! {

/// The models of the calls in made-up traces.
pub const MODELS: [&'static str; 4] = ["gpt-4o", "gpt-4o-mini", "llama3.1:8b", "deepseek-r1:14b"];

/// The providers of the calls in made-up traces.
pub const PROVIDERS: [&'static str; 4] = ["openai", "anthropic", "ollama", "ollama"];

/// The paths of the files in made-up traces.
pub const FILE_PATHS: [&'static str; 6] = [
    "/workspace/src/main.py",
    "/workspace/src/utils.py",
    "/workspace/data/input.json",
    "/workspace/data/output.csv",
    "/workspace/config.toml",
    "/workspace/README.md",
];

/// The names of made-up traces.
pub const TRACE_NAMES: [&'static str; 6] = [
    "code-review",
    "refactor-session",
    "bug-investigation",
    "feature-impl",
    "test-generation",
    "doc-update",
];

/// One step of the xorshift generator with the shifts 13, 7 and 17.
pub open spec fn xorshift(seed: u64) -> u64 {
    let a = seed ^ (seed << 13);
    let b = a ^ (a >> 7);
    b ^ (b << 17)
}

/// Moves the seed one step on and returns it.  It varies made-up data
/// and is good for nothing else.
pub fn cheap_random(seed: &mut u64) -> (r: u64)
    ensures
        *final(seed) == xorshift(*old(seed)),
        r == *final(seed),
{
    let a: u64 = *seed ^ (*seed << 13);
    let b: u64 = a ^ (a >> 7);
    let c: u64 = b ^ (b << 17);
    *seed = c;
    c
}

/// Picks one of the items with the next step of the seed.
pub fn pick<'a>(items: &'a [&'a str], seed: &mut u64) -> (r: &'a str)
    requires
        items@.len() > 0,
    ensures
        *final(seed) == xorshift(*old(seed)),
        r == items@[(xorshift(*old(seed)) % (items@.len() as u64)) as int],
{
    let n = cheap_random(seed);
    let len = items.len() as u64;
    let idx = (n % len) as usize;
    items[idx]
}

/// How many spans the next made-up trace has: from two to six.
pub fn span_count(seed: &mut u64) -> (n: usize)
    ensures
        *final(seed) == xorshift(*old(seed)),
        n == 2 + xorshift(*old(seed)) % 5,
{
    let r = cheap_random(seed);
    2 + (r % 5) as usize
}

/// How long the work of the next made-up span takes, in milliseconds:
/// from ten to fifty-nine.
pub fn work_millis(seed: &mut u64) -> (ms: u64)
    ensures
        *final(seed) == xorshift(*old(seed)),
        ms == 10 + xorshift(*old(seed)) % 50,
{
    let r = cheap_random(seed);
    10 + r % 50
}

/// True when the next made-up span fails: in one case of ten.
pub fn fails(seed: &mut u64) -> (r: bool)
    ensures
        *final(seed) == xorshift(*old(seed)),
        r == (xorshift(*old(seed)) % 100 < 10),
{
    let r = cheap_random(seed);
    r % 100 < 10
}

/// The error of a made-up span that fails.
pub const SYNTHETIC_ERROR: &'static str = "synthetic error: something went wrong";

/// The tags of a made-up trace.
pub fn synthetic_tags() -> (r: Vec<String>)
    ensures
        texts_view(r@) == seq!["synthetic"@, "dev"@],
{
    let mut r: Vec<String> = Vec::new();
    r.push("synthetic".to_owned());
    r.push("dev".to_owned());
    assert(texts_view(r@) =~= seq!["synthetic"@, "dev"@]);
    r
}

/// The cost of a call to a model in dollars, with eight digits after the
/// point: five dollars for a million tokens going in for `gpt-4o` and
/// fifteen cents for `gpt-4o-mini`, three times as much for a token
/// coming out, and nothing that is known of for any other model.
pub open spec fn cost_of(model: Seq<char>, input_tokens: u64, output_tokens: u64) -> Option<Seq<char>> {
    if model == "gpt-4o"@ {
        Some(fixed_point((input_tokens * 500 + output_tokens * 1500) as nat, 8))
    } else if model == "gpt-4o-mini"@ {
        Some(fixed_point((input_tokens * 15 + output_tokens * 45) as nat, 8))
    } else {
        None
    }
}

/// The cost of a call to a model.
pub fn synthetic_cost(model: &str, input_tokens: u64, output_tokens: u64) -> (r: Option<String>)
    ensures
        opt_text(r) == cost_of(model@, input_tokens, output_tokens),
{
    proof {
        reveal_with_fuel(pow10, 9);
        assert(pow10(8) == 100_000_000);
    }
    if crate::text::same_text(model, "gpt-4o") {
        let scaled: u128 = input_tokens as u128 * 500 + output_tokens as u128 * 1500;
        Some(crate::text::from_chars(&fixed(scaled, 8, 100_000_000)))
    } else if crate::text::same_text(model, "gpt-4o-mini") {
        let scaled: u128 = input_tokens as u128 * 15 + output_tokens as u128 * 45;
        Some(crate::text::from_chars(&fixed(scaled, 8, 100_000_000)))
    } else {
        None
    }
}

/// The payload of a made-up span: that it is made up, and one thing
/// more.
pub open spec fn synthetic_doc(name: Seq<char>, value: JsonView) -> JsonView {
    JsonView::Object(seq![("synthetic"@, JsonView::Bool(true)), (name, value)])
}

fn synthetic_payload(name: &str, value: Json) -> (j: Json)
    ensures
        j@ == synthetic_doc(name@, value@),
{
    let mut fields: Vec<(String, Json)> = Vec::new();
    fields.push(("synthetic".to_owned(), Json::Bool(true)));
    fields.push((name.to_owned(), value));
    proof {
        crate::json::lemma_object_view(fields);
        assert(crate::json::fields_view(fields@) =~= seq![
            ("synthetic"@, JsonView::Bool(true)),
            (name@, value@),
        ]);
    }
    Json::Object(fields)
}

/// The input of the made-up span of a step.
pub fn synthetic_input(step: u64) -> (j: Json)
    ensures
        j@ == synthetic_doc("step"@, JsonView::Number(decimal(step as nat))),
{
    synthetic_payload("step", crate::wire::number(step))
}

/// The output of a made-up span that completes.
pub fn synthetic_output() -> (j: Json)
    ensures
        j@ == synthetic_doc("result"@, JsonView::Str("ok"@)),
{
    synthetic_payload("result", crate::wire::string("ok"))
}

/// The name and the kind of the made-up span of a step, and the seed
/// after it: a call to a model in half of the cases, the reading of a
/// file in a quarter, the writing of one in three of twenty, and a step
/// of a tool in the rest.
pub open spec fn synthetic_of(seed: u64, step: u64) -> (Seq<char>, SpanKindView, u64) {
    let r1 = xorshift(seed);
    let r2 = xorshift(r1);
    let r3 = xorshift(r2);
    let r4 = xorshift(r3);
    let r5 = xorshift(r4);
    let roll = r1 % 100;
    if roll < 50 {
        let model = MODELS@[(r2 % 4) as int]@;
        let input_tokens = (100 + r4 % 4000) as u64;
        let output_tokens = (50 + r5 % 2000) as u64;
        (
            "llm-call-"@ + decimal(step as nat),
            SpanKindView::LlmCall {
                model,
                provider: Some(PROVIDERS@[(r3 % 4) as int]@),
                input_tokens: Some(input_tokens),
                output_tokens: Some(output_tokens),
                cost: cost_of(model, input_tokens, output_tokens),
                input_preview: Some("What is the meaning of life?"@),
                output_preview: Some("The meaning of life is..."@),
            },
            r5,
        )
    } else if roll < 75 {
        let path = FILE_PATHS@[(r2 % 6) as int]@;
        (
            "read-"@ + after_last(path, '/'),
            SpanKindView::FsRead {
                path,
                file_version: None,
                bytes_read: (256 + r3 % 65536) as u64,
            },
            r3,
        )
    } else if roll < 90 {
        let path = FILE_PATHS@[(r2 % 6) as int]@;
        (
            "write-"@ + after_last(path, '/'),
            SpanKindView::FsWrite {
                path,
                file_version: hex_padded(r4 as nat, 16),
                bytes_written: (128 + r3 % 32768) as u64,
            },
            r4,
        )
    } else {
        (
            "custom-step-"@ + decimal(step as nat),
            SpanKindView::Custom {
                kind: "tool_call"@,
                attributes: seq![("iteration"@, JsonView::Number(decimal(step as nat)))],
            },
            r1,
        )
    }
}

fn file_name(path: &str) -> (r: String)
    ensures
        r@ == after_last(path@, '/'),
{
    crate::text::from_chars(&crate::text::after_last_char(&crate::text::to_chars(path), '/'))
}

/// The name and the kind of the made-up span of a step.
pub fn synthetic_span(seed: &mut u64, step: u64) -> (r: (String, SpanKind))
    ensures
        (r.0@, r.1@, *final(seed)) == synthetic_of(*old(seed), step),
{
    let roll = cheap_random(seed) % 100;
    if roll < 50 {
        let model = pick(&MODELS, seed);
        let provider = pick(&PROVIDERS, seed);
        let input_tokens = 100 + cheap_random(seed) % 4000;
        let output_tokens = 50 + cheap_random(seed) % 2000;
        let name = crate::text::concat("llm-call-", crate::text::u64_to_string(step).as_str());
        let kind = SpanKind::LlmCall {
            model: model.to_owned(),
            provider: Some(provider.to_owned()),
            input_tokens: Some(input_tokens),
            output_tokens: Some(output_tokens),
            cost: synthetic_cost(model, input_tokens, output_tokens),
            input_preview: Some("What is the meaning of life?".to_owned()),
            output_preview: Some("The meaning of life is...".to_owned()),
        };
        (name, kind)
    } else if roll < 75 {
        let path = pick(&FILE_PATHS, seed);
        let bytes_read = 256 + cheap_random(seed) % 65536;
        let name = crate::text::concat("read-", file_name(path).as_str());
        (name, SpanKind::FsRead { path: path.to_owned(), file_version: None, bytes_read })
    } else if roll < 90 {
        let path = pick(&FILE_PATHS, seed);
        let bytes_written = 128 + cheap_random(seed) % 32768;
        let file_version = crate::text::hex16(cheap_random(seed));
        let name = crate::text::concat("write-", file_name(path).as_str());
        (name, SpanKind::FsWrite { path: path.to_owned(), file_version, bytes_written })
    } else {
        let mut attributes: Vec<(String, Json)> = Vec::new();
        attributes.push(("iteration".to_owned(), crate::wire::number(step)));
        assert(crate::json::fields_view(attributes@) =~= seq![
            ("iteration"@, JsonView::Number(decimal(step as nat))),
        ]);
        let name = crate::text::concat("custom-step-", crate::text::u64_to_string(step).as_str());
        (name, SpanKind::Custom { kind: "tool_call".to_owned(), attributes })
    }
}

} // verus!
