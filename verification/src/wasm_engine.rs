//! Decisions around one run of a script: its limits, its envelopes, and what its end means.
//!
//! Running the guest is the caller's. What the guest left behind (its trap, its output) comes back
//! as plain values.
use kovan_map::HopscotchMap;
use vstd::prelude::*;
use vstd::utf8::encode_utf8;

use crate::codec::{
    base64_decode_bytes, base64_encode, base64_error_text, base64_of, hex_encode, hex_of,
    is_base64_of, lossy_text, text_lossy,
};
use crate::bytes::{bytes_of, slice_of};
use crate::daemon_runtime::{
    pairs_json, text_list, text_object, texts_json, GuestTrap, ScriptInvocation,
};
use crate::error::{AfterburnerError, ErrorView};
use crate::json::{
    js_string_literal, json_maybe, json_object, json_text, member_is_the_first_of_its_name, member_of,
    members, object_text, object_with_text, put, string_literal, Json, JsonView,
};
use crate::text::{
    chars_occur, chars_of, decimal, digit_value, digits, is_digit, is_space, join, joined,
    lemma_nothing_to_trim, occurs_in, push_i64, texts, trim_range, trimmed,
};

verus! {

/// Milliseconds between two ticks of the clock that ends scripts.
pub const TICK_PERIOD_MS: u64 = 10;

/// How much of the error stream is shown with a trap.
pub const STDERR_DIAGNOSIS_CAP: usize = 4096;

/// How much output one run may write.
pub const STDOUT_CAPACITY: usize = 1_048_576;

/// Bytes of linear memory per instance, where nothing else is asked for.
pub const DEFAULT_MAX_LINEAR_MEMORY_BYTES: u64 = 1_073_741_824;

/// Bytes of linear memory that an instance can have at all.
pub const WASM32_MAX_LINEAR_MEMORY_BYTES: u64 = 4_294_967_296;

/// How many instances the pool holds.
pub const POOL_TOTAL_MEMORIES: u32 = 128;

/// Bytes of a freed memory that stay resident.
pub const LINEAR_MEMORY_KEEP_RESIDENT: usize = 1_048_576;

/// Bytes of a freed table that stay resident.
pub const TABLE_KEEP_RESIDENT: usize = 1_048_576;

/// How many elements a table may have.
pub const POOL_TABLE_ELEMENTS: usize = 65_536;

/// The number that the decimal digits `s` write.
pub open spec fn digits_value(s: Seq<char>) -> int
    decreases s.len(),
{
    if s.len() == 0 {
        0
    } else {
        digits_value(s.drop_last()) * 10 + (s.last() as int - 48)
    }
}

/// The digits of a number that may have a plus sign in front.
pub open spec fn unsigned_digits(s: Seq<char>) -> Seq<char> {
    if s.len() > 1 && s[0] == '+' {
        s.skip(1)
    } else {
        s
    }
}

/// The unsigned number that `s` writes, if it is one and fits in 64 bits.
pub open spec fn number_of(s: Seq<char>) -> Option<u64> {
    let d = unsigned_digits(s);
    if d.len() > 0 && (forall|i: int| 0 <= i < d.len() ==> is_digit(#[trigger] d[i]))
        && digits_value(d) <= u64::MAX {
        Some(digits_value(d) as u64)
    } else {
        None
    }
}

/// What the last character of a size multiplies it with; `None` where it is no suffix.
pub open spec fn suffix_factor(c: char) -> Option<u64> {
    if c == 'K' || c == 'k' {
        Some(1024)
    } else if c == 'M' || c == 'm' {
        Some(1_048_576)
    } else if c == 'G' || c == 'g' {
        Some(1_073_741_824)
    } else {
        None
    }
}

/// The digits of a size, and what they are multiplied with.
pub open spec fn size_parts(s: Seq<char>) -> (Seq<char>, u64) {
    if s.len() > 0 && suffix_factor(s.last()) is Some {
        (s.drop_last(), suffix_factor(s.last())->0)
    } else {
        (s, 1)
    }
}

/// The bytes that `s` asks for: a number, with a suffix or without, up to what an instance can
/// have. What is no size asks for the default.
pub open spec fn asked_memory(s: Seq<char>) -> u64 {
    let (digits, factor) = size_parts(trimmed(s));
    match number_of(trimmed(digits)) {
        Some(n) => if n * factor <= WASM32_MAX_LINEAR_MEMORY_BYTES {
            (n * factor) as u64
        } else {
            WASM32_MAX_LINEAR_MEMORY_BYTES
        },
        None => DEFAULT_MAX_LINEAR_MEMORY_BYTES,
    }
}

proof fn lemma_digits_grow(s: Seq<char>, k: int)
    requires
        0 <= k <= s.len(),
        forall|i: int| 0 <= i < s.len() ==> is_digit(#[trigger] s[i]),
    ensures
        0 <= digits_value(s.take(k)) <= digits_value(s),
    decreases s.len(),
{
    if s.len() == 0 {
        assert(s.take(k) =~= s);
    } else {
        assert forall|i: int| 0 <= i < s.drop_last().len() implies is_digit(
            #[trigger] s.drop_last()[i],
        ) by {
            assert(s.drop_last()[i] == s[i]);
        }
        assert(is_digit(s[s.len() - 1]));
        if k == s.len() {
            assert(s.take(k) =~= s);
            lemma_digits_grow(s.drop_last(), s.len() - 1);
            assert(s.drop_last().take(s.len() - 1) =~= s.drop_last());
        } else {
            lemma_digits_grow(s.drop_last(), k);
            assert(s.drop_last().take(k) =~= s.take(k));
        }
    }
}

/// The unsigned number that the part of `chars` between `from` and `to` writes.
fn parse_number(chars: &Vec<char>, from: usize, to: usize) -> (r: Option<u64>)
    requires
        from <= to <= chars@.len(),
    ensures
        r == number_of(chars@.subrange(from as int, to as int)),
{
    let ghost whole = chars@.subrange(from as int, to as int);
    let start: usize = if to - from > 1 && chars[from] == '+' {
        from + 1
    } else {
        from
    };
    let ghost d = chars@.subrange(start as int, to as int);
    assert(unsigned_digits(whole) =~= d) by {
        if whole.len() > 0 {
            assert(whole[0] == chars@[from as int]);
        }
    }
    if start == to {
        return None;
    }
    let mut value: u64 = 0;
    let mut i: usize = start;
    assert(d.take(0) =~= Seq::empty());
    while i < to
        invariant
            start <= i <= to <= chars@.len(),
            d == chars@.subrange(start as int, to as int),
            d == unsigned_digits(whole),
            whole == chars@.subrange(from as int, to as int),
            forall|j: int| 0 <= j < i - start ==> is_digit(#[trigger] d[j]),
            value == digits_value(d.take(i - start)),
        decreases to - i,
    {
        let digit: u64 = match digit_value(chars[i]) {
            Some(v) => v,
            None => {
                assert(!is_digit(d[i - start]));
                return None;
            },
        };
        assert(d.take(i + 1 - start).drop_last() =~= d.take(i - start));
        assert(d.take(i + 1 - start).last() == d[i - start]);
        let next: u128 = value as u128 * 10 + digit as u128;
        if next > u64::MAX as u128 {
            proof {
                if forall|j: int| 0 <= j < d.len() ==> is_digit(#[trigger] d[j]) {
                    lemma_digits_grow(d, i + 1 - start);
                }
            }
            return None;
        }
        value = next as u64;
        i += 1;
    }
    assert(d.take(to - start) =~= d);
    Some(value)
}

/// Where the digits of a size end, and what they are multiplied with.
fn split_size(chars: &Vec<char>, from: usize, to: usize) -> (r: (usize, u64))
    requires
        from <= to <= chars@.len(),
    ensures
        from <= r.0 <= to,
        (chars@.subrange(from as int, r.0 as int), r.1) == size_parts(
            chars@.subrange(from as int, to as int),
        ),
{
    let ghost t = chars@.subrange(from as int, to as int);
    if to > from {
        let c = chars[to - 1];
        assert(t.last() == c);
        assert(t.drop_last() =~= chars@.subrange(from as int, to - 1));
        if c == 'K' || c == 'k' {
            return (to - 1, 1024);
        } else if c == 'M' || c == 'm' {
            return (to - 1, 1_048_576);
        } else if c == 'G' || c == 'g' {
            return (to - 1, 1_073_741_824);
        }
    }
    (to, 1)
}

/// `n` times `factor`, up to what an instance can have.
fn scaled(n: u64, factor: u64) -> (r: u64)
    ensures
        r == (if n * factor <= WASM32_MAX_LINEAR_MEMORY_BYTES {
            n * factor
        } else {
            WASM32_MAX_LINEAR_MEMORY_BYTES as int
        }),
{
    assert(0 <= n * factor <= u64::MAX * u64::MAX) by (nonlinear_arith)
        requires
            0 <= n <= u64::MAX,
            0 <= factor <= u64::MAX,
    ;
    let whole: u128 = n as u128 * factor as u128;
    if whole <= WASM32_MAX_LINEAR_MEMORY_BYTES as u128 {
        whole as u64
    } else {
        WASM32_MAX_LINEAR_MEMORY_BYTES
    }
}

/// Bytes of linear memory that an instance may have, by the value of the variable
/// `BURN_MAX_LINEAR_MEMORY`, if it is set.
pub fn max_linear_memory_bytes(setting: Option<&str>) -> (r: u64)
    ensures
        r == (match setting {
            Some(s) => asked_memory(s@),
            None => DEFAULT_MAX_LINEAR_MEMORY_BYTES,
        }),
{
    let s = match setting {
        Some(s) => s,
        None => return DEFAULT_MAX_LINEAR_MEMORY_BYTES,
    };
    let chars = chars_of(s);
    assert(chars@.subrange(0, chars@.len() as int) =~= s@);
    let (a, b) = trim_range(&chars, 0, chars.len());
    let (end, factor) = split_size(&chars, a, b);
    let (x, y) = trim_range(&chars, a, end);
    match parse_number(&chars, x, y) {
        Some(n) => scaled(n, factor),
        None => DEFAULT_MAX_LINEAR_MEMORY_BYTES,
    }
}

/// No instance gets more than it can have.
pub proof fn memory_is_bounded(s: Seq<char>)
    ensures
        asked_memory(s) <= WASM32_MAX_LINEAR_MEMORY_BYTES,
{
}

/// Ticks after which a run is ended, where it may take `timeout_ms` milliseconds: at least one, and
/// as good as never where it may take any time.
pub fn deadline_ticks(timeout_ms: Option<u64>) -> (r: u64)
    ensures
        is_deadline(timeout_ms, r),
        match timeout_ms {
            Some(ms) => r >= 1 && r * 10 >= ms && (r > 1 ==> (r - 1) * 10 < ms),
            None => r == 0x7fff_ffff_ffff_ffffu64,
        },
{
    match timeout_ms {
        Some(ms) => {
            let whole: u64 = ms / TICK_PERIOD_MS;
            let ticks: u64 = if ms % TICK_PERIOD_MS == 0 {
                whole
            } else {
                whole + 1
            };
            if ticks == 0 {
                1
            } else {
                ticks
            }
        },
        None => 0x7fff_ffff_ffff_ffff,
    }
}

/// Whether a run that may take `timeout_ms` milliseconds is ended after `ticks`.
pub open spec fn is_deadline(timeout_ms: Option<u64>, ticks: u64) -> bool {
    match timeout_ms {
        Some(ms) => ticks >= 1 && ticks * 10 >= ms && (ticks > 1 ==> (ticks - 1) * 10 < ms),
        None => ticks == 0x7fff_ffff_ffff_ffffu64,
    }
}

/// Fuel of a run.
pub fn fuel_of(limit: Option<u64>) -> (r: u64)
    ensures
        r == (match limit {
            Some(n) => n,
            None => u64::MAX,
        }),
{
    match limit {
        Some(n) => n,
        None => u64::MAX,
    }
}

/// Whether a byte is padding behind what the guest wrote.
pub open spec fn is_padding(b: u8) -> bool {
    b == 0 || b == 32 || b == 9 || b == 10 || b == 12 || b == 13
}

/// `s` without the padding at its end.
pub open spec fn without_padding(s: Seq<u8>) -> Seq<u8>
    decreases s.len(),
{
    if s.len() > 0 && is_padding(s.last()) {
        without_padding(s.drop_last())
    } else {
        s
    }
}

proof fn lemma_padding(s: Seq<u8>, k: int)
    requires
        0 <= k <= s.len(),
        forall|i: int| k <= i < s.len() ==> is_padding(#[trigger] s[i]),
        k > 0 ==> !is_padding(s[k - 1]),
    ensures
        without_padding(s) == s.take(k),
    decreases s.len() - k,
{
    if k < s.len() {
        assert(is_padding(s[s.len() - 1]));
        assert forall|i: int| k <= i < s.drop_last().len() implies is_padding(
            #[trigger] s.drop_last()[i],
        ) by {
            assert(s.drop_last()[i] == s[i]);
        }
        lemma_padding(s.drop_last(), k);
        assert(s.drop_last().take(k) =~= s.take(k));
    } else {
        assert(s.take(k) =~= s);
    }
}

/// `bytes` without the white space and zeros at its end.
pub fn trim_trailing_whitespace(bytes: &[u8]) -> (r: Vec<u8>)
    ensures
        r@ == without_padding(bytes@),
{
    let mut end: usize = bytes.len();
    while end > 0
        invariant_except_break
            end <= bytes@.len(),
            forall|i: int| end <= i < bytes@.len() ==> is_padding(#[trigger] bytes@[i]),
        ensures
            end <= bytes@.len(),
            forall|i: int| end <= i < bytes@.len() ==> is_padding(#[trigger] bytes@[i]),
            end > 0 ==> !is_padding(bytes@[end - 1]),
        decreases end,
    {
        let b: u8 = bytes[end - 1];
        if b == 0 || b == 32 || b == 9 || b == 10 || b == 12 || b == 13 {
            end -= 1;
        } else {
            break;
        }
    }
    proof {
        lemma_padding(bytes@, end as int);
    }
    let r = slice_of(bytes, 0, end);
    assert(r@ =~= bytes@.take(end as int));
    r
}

/// The bytecode that the guest wrote as base64, or the error for output that is none; `what` stands
/// in front of the error's text.
pub fn decode_bytecode(stdout: &[u8], what: &str) -> (r: Result<Vec<u8>, AfterburnerError>)
    ensures
        match r {
            Ok(b) => is_base64_of(without_padding(stdout@), b@),
            Err(e) => (forall|b: Seq<u8>| !#[trigger] is_base64_of(without_padding(stdout@), b))
                && e@ == ErrorView::CompileFailed(
                what@ + ": "@ + base64_error_text(without_padding(stdout@)),
            ),
        },
{
    let trimmed = trim_trailing_whitespace(stdout);
    match base64_decode_bytes(&trimmed) {
        Ok(b) => Ok(b),
        Err(e) => {
            let mut m = what.to_owned();
            m.append(": ");
            m.append(&e);
            Err(AfterburnerError::CompileFailed(m))
        },
    }
}

/// The envelope that has the guest compile `source`: `mode` says into what.
pub fn compile_envelope(mode: &str, source: &str) -> (r: Json)
    ensures
        r@ == JsonView::Object(
            seq![("mode"@, JsonView::Text(mode@)), ("source"@, JsonView::Text(source@))],
        ),
{
    let mut o = object_with_text("mode", mode);
    put(&mut o, "source", json_text(source));
    assert(members(o@) =~= seq![
        ("mode"@, JsonView::Text(mode@)),
        ("source"@, JsonView::Text(source@)),
    ]);
    json_object(o)
}

/// The envelope that has the guest run `bytecode`, as JSON text: `mode` says on what input.
pub open spec fn invoke_text(mode: Seq<char>, bytecode: Seq<u8>) -> Seq<char> {
    "{\"bytecode_b64\":"@ + string_literal(base64_of(bytecode)) + ",\"mode\":"@ + string_literal(
        mode,
    ) + "}"@
}

/// The envelope that has the guest run `bytecode`, as JSON text: `mode` says on what input.
pub fn invoke_envelope(mode: &str, bytecode: &[u8]) -> (r: Vec<u8>)
    ensures
        r@ == encode_utf8(invoke_text(mode@, bytecode@)),
{
    let mut out = "{\"bytecode_b64\":".to_owned();
    out.append(&js_string_literal(&base64_encode(bytecode)));
    out.append(",\"mode\":");
    out.append(&js_string_literal(mode));
    out.append("}");
    bytes_of(&out)
}

/// What a script is told of how it was started.
pub open spec fn script_members(
    mode: Seq<char>,
    source: Seq<char>,
    invocation: ScriptInvocation,
) -> Seq<(Seq<char>, JsonView)> {
    seq![
        ("mode"@, JsonView::Text(mode)),
        ("source"@, JsonView::Text(source)),
        ("argv"@, text_list(invocation.argv@)),
        ("env"@, text_object(invocation.env@)),
        (
            "cwd"@,
            match invocation.cwd {
                Some(dir) => JsonView::Text(dir@),
                None => JsonView::Null,
            },
        ),
    ]
}

/// The envelope that has the guest start `source` as a script: `mode` says whether to run it, to
/// compile it, or to keep it as a server.
pub fn script_envelope(mode: &str, source: &str, invocation: &ScriptInvocation) -> (r: Json)
    ensures
        r@ == JsonView::Object(script_members(mode@, source@, *invocation)),
{
    let mut o = object_with_text("mode", mode);
    put(&mut o, "source", json_text(source));
    put(&mut o, "argv", texts_json(&invocation.argv));
    put(&mut o, "env", pairs_json(&invocation.env));
    put(&mut o, "cwd", json_maybe(&invocation.cwd));
    assert(members(o@) =~= script_members(mode@, source@, *invocation));
    json_object(o)
}

/// A trap's text with what the guest wrote to its error stream, as far as that is shown.
pub open spec fn trap_text(base: Seq<char>, stderr: Seq<u8>) -> Seq<char> {
    if stderr.len() == 0 {
        base
    } else if stderr.len() > STDERR_DIAGNOSIS_CAP {
        base + "\nstderr"@ + " (truncated)"@ + ": "@ + lossy_text(
            stderr.take(STDERR_DIAGNOSIS_CAP as int),
        )
    } else {
        base + "\nstderr"@ + ": "@ + lossy_text(stderr)
    }
}

/// A trap's text with what the guest wrote to its error stream, as far as that is shown.
pub fn format_trap_with_stderr(base: &str, stderr: &[u8]) -> (r: String)
    ensures
        r@ == trap_text(base@, stderr@),
{
    let mut m = base.to_owned();
    if stderr.len() == 0 {
        return m;
    }
    m.append("\nstderr");
    if stderr.len() > STDERR_DIAGNOSIS_CAP {
        let visible = slice_of(stderr, 0, STDERR_DIAGNOSIS_CAP);
        assert(visible@ =~= stderr@.take(STDERR_DIAGNOSIS_CAP as int));
        m.append(" (truncated)");
        m.append(": ");
        m.append(&text_lossy(&visible));
    } else {
        m.append(": ");
        m.append(&text_lossy(stderr));
    }
    m
}

/// Whether a failure that prints as `text` is about the size of the linear memory.
pub open spec fn is_memory_failure(text: Seq<char>) -> bool {
    occurs_in("memory minimum size"@, text) || occurs_in("memory size"@, text)
}

fn about_memory(text: &str) -> (r: bool)
    ensures
        r == is_memory_failure(text@),
{
    let chars = chars_of(text);
    let minimum = chars_of("memory minimum size");
    let size = chars_of("memory size");
    chars_occur(&minimum, &chars) || chars_occur(&size, &chars)
}

/// The error for a run of a function that ended in `trap`; `None` where that was a regular end.
pub open spec fn thrust_error(trap: GuestTrap, stderr: Seq<u8>) -> Option<ErrorView> {
    match trap {
        GuestTrap::Exit(code) => if code == 0 {
            None
        } else {
            Some(
                ErrorView::WasmTrap(
                    trap_text("script exited with non-zero code "@ + decimal(code as int), stderr),
                ),
            )
        },
        GuestTrap::Interrupt => Some(ErrorView::Timeout),
        GuestTrap::OutOfFuel => Some(ErrorView::FuelExhausted),
        GuestTrap::Trap(text) => Some(ErrorView::WasmTrap(trap_text(text@, stderr))),
        GuestTrap::Chain(parts) => {
            let text = joined(texts(parts@), " => "@, parts@.len() as int);
            Some(
                if is_memory_failure(text) {
                    ErrorView::MemoryLimit
                } else {
                    ErrorView::WasmTrap(trap_text(text, stderr))
                },
            )
        },
    }
}

/// The error of a run that ended in `trap`, or without one.
pub open spec fn run_error(trap: Option<GuestTrap>, stderr: Seq<u8>) -> Option<ErrorView> {
    match trap {
        Some(t) => thrust_error(t, stderr),
        None => None,
    }
}

/// The error for a run of a function that ended in `trap`; `None` where that was a regular end.
pub fn thrust_failure(trap: &GuestTrap, stderr: &[u8]) -> (r: Option<AfterburnerError>)
    ensures
        r is Some <==> thrust_error(*trap, stderr@) is Some,
        r matches Some(e) ==> Some(e@) == thrust_error(*trap, stderr@),
{
    match trap {
        GuestTrap::Exit(code) => {
            if *code == 0 {
                return None;
            }
            let mut m = "script exited with non-zero code ".to_owned();
            push_i64(&mut m, *code as i64);
            Some(AfterburnerError::WasmTrap(format_trap_with_stderr(&m, stderr)))
        },
        GuestTrap::Interrupt => Some(AfterburnerError::Timeout),
        GuestTrap::OutOfFuel => Some(AfterburnerError::FuelExhausted),
        GuestTrap::Trap(text) => Some(
            AfterburnerError::WasmTrap(format_trap_with_stderr(text, stderr)),
        ),
        GuestTrap::Chain(parts) => {
            let text = join(parts, " => ");
            if about_memory(&text) {
                return Some(AfterburnerError::MemoryLimit);
            }
            Some(AfterburnerError::WasmTrap(format_trap_with_stderr(&text, stderr)))
        },
    }
}

/// The error for a trap while the guest compiled; `what` names the mode, and `trap` is the text of
/// the trap.
pub fn compile_failure(what: &str, trap: &str, stderr: &[u8]) -> (r: AfterburnerError)
    ensures
        r@ == ErrorView::CompileFailed(trap_text(what@ + ": "@ + trap@, stderr@)),
{
    let mut m = what.to_owned();
    m.append(": ");
    m.append(trap);
    AfterburnerError::CompileFailed(format_trap_with_stderr(&m, stderr))
}

/// The output of a run, which must not have filled its buffer.
pub fn checked_output(stdout: Vec<u8>, capacity: usize) -> (r: Result<Vec<u8>, AfterburnerError>)
    ensures
        stdout@.len() >= capacity ==> (r matches Err(e) && e@ == ErrorView::OutputTooLarge(
            capacity as u64,
        )),
        stdout@.len() < capacity ==> r == Ok::<Vec<u8>, AfterburnerError>(stdout),
{
    if stdout.len() >= capacity {
        return Err(AfterburnerError::OutputTooLarge(capacity as u64));
    }
    Ok(stdout)
}

/// What is said of a guest that returned without a columnar reply.
pub const NO_COLUMNAR_REPLY: &'static str = "columnar-invoke: guest returned without calling host_columnar_reply (the plugin .wasm probably doesn't ship a columnar-invoke handler — rebuild via crates/afterburner-plugin/build.sh)";

/// The columnar reply of a run, which the guest must have given.
pub fn columnar_reply(reply: Option<Vec<u8>>) -> (r: Result<Vec<u8>, AfterburnerError>)
    ensures
        match reply {
            Some(bytes) => r == Ok::<Vec<u8>, AfterburnerError>(bytes),
            None => r matches Err(e) && e@ == ErrorView::Engine(NO_COLUMNAR_REPLY@),
        },
{
    match reply {
        Some(bytes) => Ok(bytes),
        None => Err(AfterburnerError::Engine(NO_COLUMNAR_REPLY.to_owned())),
    }
}

/// How a run of a function ends that takes and gives JSON: the output, or why there is none. A
/// guest that left with code zero has succeeded.
pub fn thrust_outcome(
    trap: &Option<GuestTrap>,
    stdout: Vec<u8>,
    stderr: &[u8],
    capacity: usize,
) -> (r: Result<Vec<u8>, AfterburnerError>)
    ensures
        match run_error(*trap, stderr@) {
            Some(error) => r matches Err(e) && e@ == error,
            None => if stdout@.len() >= capacity {
                r matches Err(e) && e@ == ErrorView::OutputTooLarge(capacity as u64)
            } else {
                r == Ok::<Vec<u8>, AfterburnerError>(stdout)
            },
        },
{
    if let Some(t) = trap {
        if let Some(e) = thrust_failure(t, stderr) {
            return Err(e);
        }
    }
    checked_output(stdout, capacity)
}

/// How a run of a function ends that takes and gives columns: its reply, or why there is none.
pub fn columnar_outcome(
    trap: &Option<GuestTrap>,
    stderr: &[u8],
    reply: Option<Vec<u8>>,
) -> (r: Result<Vec<u8>, AfterburnerError>)
    ensures
        match run_error(*trap, stderr@) {
            Some(error) => r matches Err(e) && e@ == error,
            None => match reply {
                Some(bytes) => r == Ok::<Vec<u8>, AfterburnerError>(bytes),
                None => r matches Err(e) && e@ == ErrorView::Engine(NO_COLUMNAR_REPLY@),
            },
        },
{
    if let Some(t) = trap {
        if let Some(e) = thrust_failure(t, stderr) {
            return Err(e);
        }
    }
    columnar_reply(reply)
}

/// What a script left behind.
#[derive(Debug)]
pub struct ScriptOutcome {
    pub stdout: Vec<u8>,
    pub stderr: Vec<u8>,
    pub exit_code: i32,
}

/// Whether what was written to the error stream says that the script does not compile.
pub open spec fn says_compile_failed(stderr: Seq<u8>) -> bool {
    occurs_in("compile_src (script):"@, lossy_text(stderr))
}

/// What a script that trapped comes to: an error where it does not compile, and otherwise a script
/// that ended with code one, as after an exception that it did not catch.
pub fn map_script_trap(stdout: Vec<u8>, stderr: Vec<u8>) -> (r: Result<
    ScriptOutcome,
    AfterburnerError,
>)
    ensures
        says_compile_failed(stderr@) ==> (r matches Err(e) && e@ == ErrorView::CompileFailed(
            lossy_text(stderr@),
        )),
        !says_compile_failed(stderr@) ==> r == Ok::<ScriptOutcome, AfterburnerError>(
            ScriptOutcome { stdout, stderr, exit_code: 1 },
        ),
{
    let text = text_lossy(&stderr);
    let chars = chars_of(&text);
    let needle = chars_of("compile_src (script):");
    if chars_occur(&needle, &chars) {
        return Err(AfterburnerError::CompileFailed(text));
    }
    Ok(ScriptOutcome { stdout, stderr, exit_code: 1 })
}

/// What a script's end comes to: the code that it ended with, or the error of the run.
pub open spec fn script_end(trap: Option<GuestTrap>, stderr: Seq<u8>) -> Result<i32, ErrorView> {
    match trap {
        None => Ok(0),
        Some(GuestTrap::Exit(code)) => Ok(code),
        Some(GuestTrap::Interrupt) => Err(ErrorView::Timeout),
        Some(GuestTrap::OutOfFuel) => Err(ErrorView::FuelExhausted),
        Some(t) => if t matches GuestTrap::Chain(parts) && is_memory_failure(
            joined(texts(parts@), " => "@, parts@.len() as int),
        ) {
            Err(ErrorView::MemoryLimit)
        } else if says_compile_failed(stderr) {
            Err(ErrorView::CompileFailed(lossy_text(stderr)))
        } else {
            Ok(1)
        },
    }
}

/// What a script's end comes to; `trap` is `None` where it returned.
pub fn script_outcome(trap: &Option<GuestTrap>, stdout: Vec<u8>, stderr: Vec<u8>) -> (r: Result<
    ScriptOutcome,
    AfterburnerError,
>)
    ensures
        match script_end(*trap, stderr@) {
            Ok(code) => r == Ok::<ScriptOutcome, AfterburnerError>(
                ScriptOutcome { stdout, stderr, exit_code: code },
            ),
            Err(error) => r matches Err(e) && e@ == error,
        },
        match *trap {
            None => r == Ok::<ScriptOutcome, AfterburnerError>(
                ScriptOutcome { stdout, stderr, exit_code: 0 },
            ),
            Some(GuestTrap::Exit(code)) => r == Ok::<ScriptOutcome, AfterburnerError>(
                ScriptOutcome { stdout, stderr, exit_code: code },
            ),
            Some(GuestTrap::Interrupt) => r matches Err(e) && e@ == ErrorView::Timeout,
            Some(GuestTrap::OutOfFuel) => r matches Err(e) && e@ == ErrorView::FuelExhausted,
            Some(t) => if t matches GuestTrap::Chain(parts) && is_memory_failure(
                joined(texts(parts@), " => "@, parts@.len() as int),
            ) {
                r matches Err(e) && e@ == ErrorView::MemoryLimit
            } else if says_compile_failed(stderr@) {
                r matches Err(e) && e@ == ErrorView::CompileFailed(lossy_text(stderr@))
            } else {
                r == Ok::<ScriptOutcome, AfterburnerError>(
                    ScriptOutcome { stdout, stderr, exit_code: 1 },
                )
            },
        },
{
    match trap {
        None => Ok(ScriptOutcome { stdout, stderr, exit_code: 0 }),
        Some(GuestTrap::Exit(code)) => Ok(ScriptOutcome { stdout, stderr, exit_code: *code }),
        Some(GuestTrap::Interrupt) => Err(AfterburnerError::Timeout),
        Some(GuestTrap::OutOfFuel) => Err(AfterburnerError::FuelExhausted),
        Some(GuestTrap::Trap(_)) => map_script_trap(stdout, stderr),
        Some(GuestTrap::Chain(parts)) => {
            let text = join(parts, " => ");
            if about_memory(&text) {
                return Err(AfterburnerError::MemoryLimit);
            }
            map_script_trap(stdout, stderr)
        },
    }
}

/// The first eight bytes of a hash in hexadecimal.
pub fn hex8(hash: &[u8; 32]) -> (r: String)
    ensures
        r@ == hex_of(hash@.take(8)),
{
    let head = slice_of(hash, 0, 8);
    assert(head@ =~= hash@.take(8));
    hex_encode(&head)
}

/// What is kept of a script: its source, its bytecode, its bytecode for batches of columns, and the
/// envelopes that run the two, as the guest gets them.
pub type ScriptParts = (String, Vec<u8>, Vec<u8>, Vec<u8>, Vec<u8>);

/// [`ScriptParts`] over sequences.
#[verifier::ext_equal]
pub struct ScriptView {
    pub source: Seq<char>,
    pub raw: Seq<u8>,
    pub columnar_raw: Seq<u8>,
    pub invoke: Seq<u8>,
    pub columnar_invoke: Seq<u8>,
}

/// What is kept of a script, over sequences.
pub open spec fn script_view(p: ScriptParts) -> ScriptView {
    ScriptView {
        source: p.0@,
        raw: p.1@,
        columnar_raw: p.2@,
        invoke: p.3@,
        columnar_invoke: p.4@,
    }
}

/// What is kept of a script with this source that was compiled to these bytecodes: with each goes
/// the envelope that runs it.
pub open spec fn kept(source: Seq<char>, raw: Seq<u8>, columnar_raw: Seq<u8>) -> ScriptView {
    ScriptView {
        source,
        raw,
        columnar_raw,
        invoke: encode_utf8(invoke_text("invoke"@, raw)),
        columnar_invoke: encode_utf8(invoke_text("columnar-invoke"@, columnar_raw)),
    }
}

/// Where taking up a script stands.
#[derive(Debug)]
pub enum Ignition {
    /// The script is registered.
    Done,
    /// The guest has to compile the script.
    Plain,
    /// The guest has compiled the script to this bytecode, and has to compile it for batches of
    /// columns.
    Columnar(Vec<u8>),
    /// The script did not compile.
    Failed(AfterburnerError),
}

/// [`Ignition`] over sequences.
#[verifier::ext_equal]
pub enum IgnitionView {
    Done,
    Plain,
    Columnar(Seq<u8>),
    Failed(ErrorView),
}

impl View for Ignition {
    type V = IgnitionView;

    open spec fn view(&self) -> IgnitionView {
        match self {
            Ignition::Done => IgnitionView::Done,
            Ignition::Plain => IgnitionView::Plain,
            Ignition::Columnar(raw) => IgnitionView::Columnar(raw@),
            Ignition::Failed(e) => IgnitionView::Failed(e@),
        }
    }
}

/// What came of asking the guest to compile, over sequences.
pub open spec fn compile_view(r: Result<Vec<u8>, AfterburnerError>) -> Result<Seq<u8>, ErrorView> {
    match r {
        Ok(b) => Ok(b@),
        Err(e) => Err(e@),
    }
}

impl Ignition {
    /// What the guest is asked to do next: the mode of the envelope for it. Nothing where the
    /// script is registered or did not compile.
    pub fn asks(&self) -> (r: Option<&'static str>)
        ensures
            match (self@, r) {
                (IgnitionView::Plain, Some(mode)) => mode@ == "compile"@,
                (IgnitionView::Columnar(_), Some(mode)) => mode@ == "compile-columnar"@,
                (IgnitionView::Done, None) | (IgnitionView::Failed(_), None) => true,
                _ => false,
            },
    {
        match self {
            Ignition::Plain => Some("compile"),
            Ignition::Columnar(_) => Some("compile-columnar"),
            _ => None,
        }
    }
}

/// Scripts by the hash of their source, held in the hash map of the `kovan_map` crate.
#[verifier::external_body]
pub struct ScriptMap {
    inner: HopscotchMap<[u8; 32], ScriptParts>,
}

/// The scripts that a map holds.
pub uninterp spec fn scripts(m: ScriptMap) -> Map<Seq<u8>, ScriptView>;

/// The map without scripts.
pub open spec fn no_scripts() -> Map<Seq<u8>, ScriptView> {
    Map::empty()
}

/// Whether `found` is what `m` holds under `key`.
pub open spec fn is_script_at(
    m: Map<Seq<u8>, ScriptView>,
    key: Seq<u8>,
    found: Option<ScriptParts>,
) -> bool {
    match found {
        Some(p) => m.contains_key(key) && m[key] == script_view(p),
        None => !m.contains_key(key),
    }
}

impl ScriptMap {
    /// `HopscotchMap::new` gives a map without entries.
    #[verifier::external_body]
    pub(crate) fn new() -> (r: Self)
        ensures
            scripts(r) == no_scripts(),
    {
        ScriptMap { inner: HopscotchMap::new() }
    }

    /// `HopscotchMap::get` gives a copy of the value under a key, or `None` where there is none.
    #[verifier::external_body]
    pub(crate) fn get(&self, key: &[u8; 32]) -> (r: Option<ScriptParts>)
        ensures
            is_script_at(scripts(*self), key@, r),
    {
        self.inner.get(key)
    }

    /// `HopscotchMap::insert` puts a value under a key, in place of the value that was there, and
    /// gives that one back.
    #[verifier::external_body]
    pub(crate) fn insert(&mut self, key: [u8; 32], value: ScriptParts) -> (r: Option<ScriptParts>)
        ensures
            is_script_at(scripts(*old(self)), key@, r),
            scripts(*final(self)) == scripts(*old(self)).insert(key@, script_view(value)),
    {
        self.inner.insert(key, value)
    }

    /// `HopscotchMap::remove` takes a key out and gives back the value that was under it.
    #[verifier::external_body]
    pub(crate) fn remove(&mut self, key: &[u8; 32]) -> (r: Option<ScriptParts>)
        ensures
            is_script_at(scripts(*old(self)), key@, r),
            scripts(*final(self)) == scripts(*old(self)).remove(key@),
    {
        self.inner.remove(key)
    }
}

/// The scripts that are registered.
pub struct ScriptCache {
    scripts: ScriptMap,
    compile_count: u64,
}

/// The scripts that are registered, over sequences.
#[verifier::ext_equal]
pub struct CacheView {
    pub scripts: Map<Seq<u8>, ScriptView>,
    /// How often the guest was asked to compile, up to wrapping.
    pub compiles: u64,
}

impl View for ScriptCache {
    type V = CacheView;

    closed spec fn view(&self) -> CacheView {
        CacheView { scripts: scripts(self.scripts), compiles: self.compile_count }
    }
}

impl CacheView {
    /// Whether every script is kept with the envelopes that run its bytecodes.
    pub open spec fn wf(self) -> bool {
        forall|hash: Seq<u8>| #[trigger]
            self.scripts.contains_key(hash) ==> self.scripts[hash] == kept(
                self.scripts[hash].source,
                self.scripts[hash].raw,
                self.scripts[hash].columnar_raw,
            )
    }

    /// After the guest was asked to compile once more.
    pub open spec fn counted(self) -> CacheView {
        CacheView {
            compiles: if self.compiles == u64::MAX {
                0
            } else {
                (self.compiles + 1) as u64
            },
            ..self
        }
    }

    /// What taking up the script with this hash begins with: nothing is left to do where it is
    /// registered, and otherwise the guest is asked to compile it.
    pub open spec fn begun(self, hash: Seq<u8>) -> (CacheView, IgnitionView) {
        if self.scripts.contains_key(hash) {
            (self, IgnitionView::Done)
        } else {
            (self.counted(), IgnitionView::Plain)
        }
    }

    /// What follows after the guest was asked: it is asked for the other bytecode, or the script is
    /// registered with both. A failure ends it, and nothing is registered.
    pub open spec fn advanced(
        self,
        hash: Seq<u8>,
        source: Seq<char>,
        at: IgnitionView,
        outcome: Result<Seq<u8>, ErrorView>,
    ) -> (CacheView, IgnitionView) {
        match (at, outcome) {
            (IgnitionView::Plain, Ok(raw)) => (self.counted(), IgnitionView::Columnar(raw)),
            (IgnitionView::Columnar(raw), Ok(columnar_raw)) => (
                self.ignited(hash, kept(source, raw, columnar_raw)),
                IgnitionView::Done,
            ),
            (IgnitionView::Plain, Err(e)) | (IgnitionView::Columnar(_), Err(e)) => (
                self,
                IgnitionView::Failed(e),
            ),
            _ => (self, at),
        }
    }

    /// With `script` under `hash`.
    pub open spec fn ignited(self, hash: Seq<u8>, script: ScriptView) -> CacheView {
        CacheView { scripts: self.scripts.insert(hash, script), ..self }
    }

    /// Without the script under `hash`.
    pub open spec fn extinguished(self, hash: Seq<u8>) -> CacheView {
        CacheView { scripts: self.scripts.remove(hash), ..self }
    }
}

impl ScriptCache {
    /// Without scripts.
    pub fn new() -> (r: Self)
        ensures
            r@.wf(),
            r@ == (CacheView { scripts: no_scripts(), compiles: 0 }),
    {
        ScriptCache { scripts: ScriptMap::new(), compile_count: 0 }
    }

    /// Whether the script with this hash is registered: then it need not be compiled.
    pub fn is_cached(&self, hash: &[u8; 32]) -> (r: bool)
        ensures
            r == self@.scripts.contains_key(hash@),
    {
        self.scripts.get(hash).is_some()
    }

    /// How often the guest was asked to compile.
    pub fn compile_count(&self) -> (r: u64)
        ensures
            r == self@.compiles,
    {
        self.compile_count
    }

    fn count_compile(&mut self)
        ensures
            final(self)@ == old(self)@.counted(),
    {
        self.compile_count = if self.compile_count == u64::MAX {
            0
        } else {
            self.compile_count + 1
        };
    }

    /// Begins to take up the script with this hash.
    pub fn ignite(&mut self, hash: &[u8; 32]) -> (r: Ignition)
        requires
            old(self)@.wf(),
        ensures
            final(self)@.wf(),
            (final(self)@, r@) == old(self)@.begun(hash@),
    {
        if self.is_cached(hash) {
            return Ignition::Done;
        }
        self.count_compile();
        Ignition::Plain
    }

    /// Goes on to take up the script with this hash and source, after the guest was asked to do
    /// what `at` asks for.
    pub fn compiled(
        &mut self,
        hash: &[u8; 32],
        source: &str,
        at: Ignition,
        outcome: Result<Vec<u8>, AfterburnerError>,
    ) -> (r: Ignition)
        requires
            old(self)@.wf(),
        ensures
            final(self)@.wf(),
            (final(self)@, r@) == old(self)@.advanced(
                hash@,
                source@,
                at@,
                compile_view(outcome),
            ),
    {
        match at {
            Ignition::Plain => match outcome {
                Ok(raw) => {
                    self.count_compile();
                    Ignition::Columnar(raw)
                },
                Err(e) => Ignition::Failed(e),
            },
            Ignition::Columnar(raw) => match outcome {
                Ok(columnar_raw) => {
                    let invoke = invoke_envelope("invoke", &raw);
                    let columnar_invoke = invoke_envelope("columnar-invoke", &columnar_raw);
                    let ghost script = kept(source@, raw@, columnar_raw@);
                    self.scripts.insert(
                        *hash,
                        (source.to_owned(), raw, columnar_raw, invoke, columnar_invoke),
                    );
                    assert(self@ =~= old(self)@.ignited(hash@, script));
                    assert forall|k: Seq<u8>| #[trigger]
                        self@.scripts.contains_key(k) implies self@.scripts[k] == kept(
                        self@.scripts[k].source,
                        self@.scripts[k].raw,
                        self@.scripts[k].columnar_raw,
                    ) by {
                        if k != hash@ {
                            assert(old(self)@.scripts.contains_key(k));
                        }
                    }
                    Ignition::Done
                },
                Err(e) => Ignition::Failed(e),
            },
            Ignition::Done => Ignition::Done,
            Ignition::Failed(e) => Ignition::Failed(e),
        }
    }

    /// What is kept of the script with this hash.
    pub fn script(&self, hash: &[u8; 32]) -> (r: Option<ScriptParts>)
        ensures
            is_script_at(self@.scripts, hash@, r),
    {
        self.scripts.get(hash)
    }

    /// The envelope that runs the script with this hash.
    pub fn invoke_envelope_of(&self, hash: &[u8; 32]) -> (r: Result<Vec<u8>, AfterburnerError>)
        ensures
            match r {
                Ok(bytes) => self@.scripts.contains_key(hash@) && bytes@
                    == self@.scripts[hash@].invoke,
                Err(e) => !self@.scripts.contains_key(hash@) && e@ == ErrorView::ScriptNotFound,
            },
    {
        match self.scripts.get(hash) {
            Some(parts) => Ok(parts.3),
            None => Err(AfterburnerError::ScriptNotFound),
        }
    }

    /// The envelope that runs the script with this hash on a batch of columns.
    pub fn columnar_envelope_of(&self, hash: &[u8; 32]) -> (r: Result<Vec<u8>, AfterburnerError>)
        ensures
            match r {
                Ok(bytes) => self@.scripts.contains_key(hash@) && bytes@
                    == self@.scripts[hash@].columnar_invoke,
                Err(e) => !self@.scripts.contains_key(hash@) && e@ == ErrorView::ScriptNotFound,
            },
    {
        match self.scripts.get(hash) {
            Some(parts) => Ok(parts.4),
            None => Err(AfterburnerError::ScriptNotFound),
        }
    }

    /// Forgets the script with this hash.
    pub fn extinguish(&mut self, hash: &[u8; 32])
        ensures
            final(self)@ == old(self)@.extinguished(hash@),
            old(self)@.wf() ==> final(self)@.wf(),
    {
        self.scripts.remove(hash);
        assert forall|k: Seq<u8>|
            old(self)@.wf() && #[trigger] self@.scripts.contains_key(k) implies self@.scripts[k]
            == kept(
            self@.scripts[k].source,
            self@.scripts[k].raw,
            self@.scripts[k].columnar_raw,
        ) by {
            assert(old(self)@.scripts.contains_key(k));
        }
    }
}

/// A script that is taken up for the first time is compiled exactly twice, and then registered with
/// both bytecodes and the envelopes that run them. Taking it up again compiles nothing and changes
/// nothing.
pub proof fn script_is_compiled_once(
    v: CacheView,
    hash: Seq<u8>,
    source: Seq<char>,
    raw: Seq<u8>,
    columnar_raw: Seq<u8>,
)
    requires
        !v.scripts.contains_key(hash),
    ensures
        ({
            let first = v.begun(hash);
            let second = first.0.advanced(hash, source, first.1, Ok(raw));
            let third = second.0.advanced(hash, source, second.1, Ok(columnar_raw));
            &&& first.1 == IgnitionView::Plain
            &&& second.1 == IgnitionView::Columnar(raw)
            &&& third.1 == IgnitionView::Done
            &&& third.0.compiles == v.counted().counted().compiles
            &&& third.0.scripts == v.scripts.insert(hash, kept(source, raw, columnar_raw))
            &&& third.0.begun(hash) == (third.0, IgnitionView::Done)
        }),
{
}

/// A script that does not compile leaves nothing behind: whichever of the two bytecodes fails, the
/// scripts that are registered stay as they were, and its own is not among them.
pub proof fn failed_script_is_not_kept(
    v: CacheView,
    hash: Seq<u8>,
    source: Seq<char>,
    raw: Seq<u8>,
    e: ErrorView,
)
    requires
        !v.scripts.contains_key(hash),
    ensures
        ({
            let first = v.begun(hash);
            let failed = first.0.advanced(hash, source, first.1, Err(e));
            let second = first.0.advanced(hash, source, first.1, Ok(raw));
            let late = second.0.advanced(hash, source, second.1, Err(e));
            &&& failed.1 == IgnitionView::Failed(e)
            &&& failed.0.scripts == v.scripts
            &&& late.1 == IgnitionView::Failed(e)
            &&& late.0.scripts == v.scripts
        }),
{
}

/// A script that was registered is found until it is forgotten, and not after that; no other
/// script is touched.
pub proof fn scripts_stay_until_forgotten(
    v: CacheView,
    hash: Seq<u8>,
    other: Seq<u8>,
    script: ScriptView,
)
    ensures
        v.ignited(hash, script).scripts.contains_key(hash),
        v.ignited(hash, script).scripts[hash] == script,
        !v.extinguished(hash).scripts.contains_key(hash),
        hash != other ==> v.ignited(hash, script).scripts.contains_key(other)
            == v.scripts.contains_key(other),
        hash != other ==> v.extinguished(hash).scripts.contains_key(other)
            == v.scripts.contains_key(other),
        hash != other && v.scripts.contains_key(other) ==> v.ignited(hash, script).scripts[other]
            == v.scripts[other] && v.extinguished(hash).scripts[other] == v.scripts[other],
        v.ignited(hash, script).compiles == v.compiles,
        v.extinguished(hash).compiles == v.compiles,
{
}

proof fn lemma_digits_value(n: nat)
    ensures
        digits_value(digits(n)) == n,
        digits(n).len() > 0,
        forall|i: int| 0 <= i < digits(n).len() ==> is_digit(#[trigger] digits(n)[i]),
    decreases n,
{
    if n >= 10 {
        lemma_digits_value(n / 10);
        assert(digits(n).drop_last() =~= digits(n / 10));
    } else {
        assert(digits(n).drop_last() =~= Seq::empty());
        assert(digits_value(digits(n).drop_last()) == 0);
    }
}

proof fn lemma_asked(n: u64, s: Seq<char>, factor: u64)
    requires
        ({
            let (d, f) = size_parts(s);
            d == digits(n as nat) && f == factor
        }),
        s.len() > 0,
        forall|i: int| 0 <= i < s.len() ==> !is_space(#[trigger] s[i]),
    ensures
        asked_memory(s) == if n * factor <= 4294967296 {
            n * factor
        } else {
            4294967296int
        },
{
    let d = digits(n as nat);
    lemma_digits_value(n as nat);
    lemma_nothing_to_trim(s);
    assert forall|i: int| 0 <= i < d.len() implies !is_space(#[trigger] d[i]) by {
        assert(is_digit(d[i]));
    }
    lemma_nothing_to_trim(d);
    assert(is_digit(d[0]));
    assert(unsigned_digits(d) == d);
    assert(number_of(d) == Some(n));
}

/// An instance gets as much memory as is asked for: so many bytes, or times 1024, 1048576 or
/// 1073741824 where a letter for it follows, up to four gigabytes.
pub proof fn memory_is_what_is_asked_for(n: u64, c: char)
    ensures
        asked_memory(decimal(n as int)) == if n <= 4294967296 {
            n as int
        } else {
            4294967296int
        },
        c == 'K' || c == 'k' ==> asked_memory(decimal(n as int).push(c)) == if n * 1024
            <= 4294967296 {
            n * 1024
        } else {
            4294967296int
        },
        c == 'M' || c == 'm' ==> asked_memory(decimal(n as int).push(c)) == if n * 1048576
            <= 4294967296 {
            n * 1048576
        } else {
            4294967296int
        },
        c == 'G' || c == 'g' ==> asked_memory(decimal(n as int).push(c)) == if n * 1073741824
            <= 4294967296 {
            n * 1073741824
        } else {
            4294967296int
        },
{
    let d = digits(n as nat);
    lemma_digits_value(n as nat);
    assert forall|i: int| 0 <= i < d.len() implies !is_space(#[trigger] d[i]) by {
        assert(is_digit(d[i]));
    }
    assert(is_digit(d[d.len() - 1]));
    assert(suffix_factor(d.last()) is None);
    lemma_asked(n, d, 1);
    if suffix_factor(c) is Some {
        let s = d.push(c);
        assert(s.drop_last() =~= d);
        assert forall|i: int| 0 <= i < s.len() implies !is_space(#[trigger] s[i]) by {
            if i < d.len() {
                assert(is_digit(d[i]));
                assert(s[i] == d[i]);
            }
        }
        lemma_asked(n, s, suffix_factor(c)->0);
    }
}

/// What is no size leaves the default of one gigabyte: nothing at all, or a text in which something
/// stands before its last character that is no digit.
pub proof fn nonsense_leaves_the_default(s: Seq<char>, i: int)
    requires
        forall|k: int| 0 <= k < s.len() ==> !is_space(#[trigger] s[k]),
        s.len() == 0 || (0 < i < s.len() - 1 && !is_digit(s[i])),
    ensures
        asked_memory(s) == 1073741824,
{
    lemma_nothing_to_trim(s);
    let (d, f) = size_parts(s);
    assert forall|k: int| 0 <= k < d.len() implies !is_space(#[trigger] d[k]) by {
        assert(d[k] == s[k]);
    }
    lemma_nothing_to_trim(d);
    if s.len() > 0 {
        let u = unsigned_digits(d);
        if u == d {
            assert(!is_digit(u[i]));
        } else {
            assert(u[i - 1] == s[i]);
            assert(!is_digit(u[i - 1]));
        }
    }
}

/// Padding behind an output is taken off and nothing else: what is left is the front of the output,
/// behind it stand only zeros and blanks, and it does not end in one.
pub proof fn padding_is_taken_off(s: Seq<u8>)
    ensures
        without_padding(s).len() <= s.len(),
        without_padding(s) == s.take(without_padding(s).len() as int),
        forall|i: int|
            without_padding(s).len() <= i < s.len() ==> s[i] == 0 || s[i] == 9 || s[i] == 10 || s[i]
                == 12 || s[i] == 13 || s[i] == 32,
        without_padding(s).len() > 0 ==> {
            let last = without_padding(s).last();
            last != 0 && last != 9 && last != 10 && last != 12 && last != 13 && last != 32
        },
    decreases s.len(),
{
    if s.len() > 0 && is_padding(s.last()) {
        padding_is_taken_off(s.drop_last());
        let n = without_padding(s).len() as int;
        assert(s.take(n) =~= s.drop_last().take(n));
        assert forall|i: int| n <= i < s.len() implies s[i] == 0 || s[i] == 9 || s[i] == 10 || s[i]
            == 12 || s[i] == 13 || s[i] == 32 by {
            if i < s.len() - 1 {
                assert(s.drop_last()[i] == s[i]);
            }
        }
    } else {
        assert(s.take(s.len() as int) =~= s);
    }
}

/// The envelope that runs a bytecode is an object with that bytecode in base64 and the mode.
pub proof fn envelope_holds_the_bytecode(mode: Seq<char>, bytecode: Seq<u8>)
    ensures
        invoke_text(mode, bytecode) == object_text(
            seq![
                ("bytecode_b64"@, string_literal(base64_of(bytecode))),
                ("mode"@, string_literal(mode)),
            ],
        ),
{
    reveal_strlit("{\"bytecode_b64\":");
    reveal_strlit(",\"mode\":");
    reveal_strlit("}");
    reveal_strlit("bytecode_b64");
    reveal_strlit("mode");
    reveal_with_fuel(joined, 4);
    assert(invoke_text(mode, bytecode) =~= object_text(
        seq![
            ("bytecode_b64"@, string_literal(base64_of(bytecode))),
            ("mode"@, string_literal(mode)),
        ],
    ));
}

/// What is kept of a script is its own source and bytecodes, and for each bytecode the envelope that
/// runs it in its own mode.
pub proof fn scripts_are_kept_whole(source: Seq<char>, raw: Seq<u8>, columnar_raw: Seq<u8>)
    ensures
        kept(source, raw, columnar_raw).source == source,
        kept(source, raw, columnar_raw).raw == raw,
        kept(source, raw, columnar_raw).columnar_raw == columnar_raw,
        kept(source, raw, columnar_raw).invoke == encode_utf8(
            object_text(
                seq![
                    ("bytecode_b64"@, string_literal(base64_of(raw))),
                    ("mode"@, string_literal("invoke"@)),
                ],
            ),
        ),
        kept(source, raw, columnar_raw).columnar_invoke == encode_utf8(
            object_text(
                seq![
                    ("bytecode_b64"@, string_literal(base64_of(columnar_raw))),
                    ("mode"@, string_literal("columnar-invoke"@)),
                ],
            ),
        ),
{
    envelope_holds_the_bytecode("invoke"@, raw);
    envelope_holds_the_bytecode("columnar-invoke"@, columnar_raw);
}

/// Every request to compile counts one.
pub proof fn compiles_are_counted(v: CacheView)
    requires
        v.compiles < u64::MAX,
    ensures
        v.counted().compiles == v.compiles + 1,
        v.counted().scripts == v.scripts,
{
}

/// A script is told how it was started: its source, arguments, environment and directory, each as it
/// was given.
pub proof fn scripts_are_told_how_they_were_started(
    mode: Seq<char>,
    source: Seq<char>,
    invocation: ScriptInvocation,
)
    ensures
        member_of(JsonView::Object(script_members(mode, source, invocation)), "mode"@) == Some(
            JsonView::Text(mode),
        ),
        member_of(JsonView::Object(script_members(mode, source, invocation)), "source"@) == Some(
            JsonView::Text(source),
        ),
        member_of(JsonView::Object(script_members(mode, source, invocation)), "argv"@) matches Some(
            JsonView::List(e),
        ) && e.len() == invocation.argv@.len() && forall|i: int|
            0 <= i < e.len() ==> #[trigger] e[i] == JsonView::Text(invocation.argv@[i]@),
        member_of(JsonView::Object(script_members(mode, source, invocation)), "env"@) matches Some(
            JsonView::Object(m),
        ) && m.len() == invocation.env@.len() && forall|i: int|
            0 <= i < m.len() ==> #[trigger] m[i] == (
                invocation.env@[i].0@,
                JsonView::Text(invocation.env@[i].1@),
            ),
        member_of(JsonView::Object(script_members(mode, source, invocation)), "cwd"@) == Some(
            match invocation.cwd {
                Some(dir) => JsonView::Text(dir@),
                None => JsonView::Null,
            },
        ),
{
    reveal_strlit("mode");
    reveal_strlit("source");
    reveal_strlit("argv");
    reveal_strlit("env");
    reveal_strlit("cwd");
    assert("mode"@[0] == 'm' && "source"@[0] == 's' && "argv"@[0] == 'a' && "env"@[0] == 'e'
        && "cwd"@[0] == 'c');
    let m = script_members(mode, source, invocation);
    member_is_the_first_of_its_name(m, "mode"@, 0);
    member_is_the_first_of_its_name(m, "source"@, 1);
    member_is_the_first_of_its_name(m, "argv"@, 2);
    member_is_the_first_of_its_name(m, "env"@, 3);
    member_is_the_first_of_its_name(m, "cwd"@, 4);
}

/// A trap is told in its own words, followed by what was written to the error stream; of a longer
/// stream the first 4096 bytes, and that it was cut off.
pub proof fn traps_tell_the_error_stream(base: Seq<char>, stderr: Seq<u8>)
    ensures
        stderr.len() == 0 ==> trap_text(base, stderr) == base,
        0 < stderr.len() <= 4096 ==> trap_text(base, stderr) == base + "\nstderr: "@ + lossy_text(
            stderr,
        ),
        stderr.len() > 4096 ==> trap_text(base, stderr) == base + "\nstderr (truncated): "@
            + lossy_text(stderr.take(4096)),
{
    reveal_strlit("\nstderr");
    reveal_strlit(": ");
    reveal_strlit(" (truncated)");
    reveal_strlit("\nstderr: ");
    reveal_strlit("\nstderr (truncated): ");
    if stderr.len() > 4096 {
        assert(trap_text(base, stderr) =~= base + "\nstderr (truncated): "@ + lossy_text(
            stderr.take(4096),
        ));
    } else if stderr.len() > 0 {
        assert(trap_text(base, stderr) =~= base + "\nstderr: "@ + lossy_text(stderr));
    }
}

/// A run fails exactly where it trapped otherwise than by leaving with code zero, and each way to end
/// has its own error: running out of time, out of fuel, out of memory, or any other trap.
pub proof fn runs_fail_as_they_end(trap: Option<GuestTrap>, stderr: Seq<u8>)
    ensures
        run_error(trap, stderr) is None <==> trap is None || trap == Some(GuestTrap::Exit(0)),
        trap == Some(GuestTrap::Interrupt) ==> run_error(trap, stderr) == Some(ErrorView::Timeout),
        trap == Some(GuestTrap::OutOfFuel) ==> run_error(trap, stderr) == Some(
            ErrorView::FuelExhausted,
        ),
        trap matches Some(GuestTrap::Exit(code)) ==> (code != 0 ==> run_error(trap, stderr) == Some(
            ErrorView::WasmTrap(
                trap_text("script exited with non-zero code "@ + decimal(code as int), stderr),
            ),
        )),
        trap matches Some(GuestTrap::Trap(text)) ==> run_error(trap, stderr) == Some(
            ErrorView::WasmTrap(trap_text(text@, stderr)),
        ),
        trap matches Some(GuestTrap::Chain(parts)) ==> {
            let text = joined(texts(parts@), " => "@, parts@.len() as int);
            let memory = occurs_in("memory minimum size"@, text) || occurs_in("memory size"@, text);
            &&& memory ==> run_error(trap, stderr) == Some(ErrorView::MemoryLimit)
            &&& !memory ==> run_error(trap, stderr) == Some(
                ErrorView::WasmTrap(trap_text(text, stderr)),
            )
        },
{
}

/// A run gets at least the time that it may take, and less than a tick of ten milliseconds more; the
/// least is one tick. Without a limit it gets more than it could ever use.
pub proof fn runs_get_their_time(timeout_ms: Option<u64>, ticks: u64)
    requires
        is_deadline(timeout_ms, ticks),
    ensures
        ticks >= 1,
        timeout_ms matches Some(ms) ==> ticks * TICK_PERIOD_MS >= ms,
        timeout_ms matches Some(ms) ==> (ms > 0 ==> ticks * TICK_PERIOD_MS < ms + 10),
        timeout_ms is None ==> ticks >= 0x7fff_ffff_ffff_ffff,
{
}

/// The limits of a run and of the pool of instances.
pub proof fn limits_are_fixed()
    ensures
        TICK_PERIOD_MS == 10,
        STDERR_DIAGNOSIS_CAP == 4096,
        STDOUT_CAPACITY == 1048576,
        DEFAULT_MAX_LINEAR_MEMORY_BYTES == 1073741824,
        WASM32_MAX_LINEAR_MEMORY_BYTES == 4294967296,
        POOL_TOTAL_MEMORIES == 128,
        LINEAR_MEMORY_KEEP_RESIDENT == 1048576,
        TABLE_KEEP_RESIDENT == 1048576,
        POOL_TABLE_ELEMENTS == 65536,
{
}

/// A script that returned has code zero, and one that left has the code it left with. Time, fuel and
/// memory that ran out are errors, as for any run; so is a trap of a script that does not compile,
/// which tells the error stream. Any other trap is code one.
pub proof fn scripts_end_with_their_code(trap: Option<GuestTrap>, stderr: Seq<u8>)
    ensures
        trap is None ==> script_end(trap, stderr) == Ok::<i32, ErrorView>(0),
        trap matches Some(GuestTrap::Exit(code)) ==> script_end(trap, stderr) == Ok::<i32, ErrorView>(
            code,
        ),
        run_error(trap, stderr) matches Some(error) ==> (error is Timeout || error is FuelExhausted
            || error is MemoryLimit ==> script_end(trap, stderr) == Err::<i32, ErrorView>(error)),
        run_error(trap, stderr) matches Some(error) ==> (error is WasmTrap && !(trap->0 is Exit) ==> {
            &&& occurs_in("compile_src (script):"@, lossy_text(stderr)) ==> script_end(trap, stderr)
                == Err::<i32, ErrorView>(ErrorView::CompileFailed(lossy_text(stderr)))
            &&& !occurs_in("compile_src (script):"@, lossy_text(stderr)) ==> script_end(trap, stderr)
                == Ok::<i32, ErrorView>(1)
        }),
        run_error(trap, stderr) is None ==> script_end(trap, stderr) == Ok::<i32, ErrorView>(0),
{
}

} // verus!
