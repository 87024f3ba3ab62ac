//! What a guest hands to its host in a call.
use vstd::prelude::*;
use vstd::utf8::{encode_utf8, valid_utf8};

use crate::codec::{
    base64_bytes, base64_decode, base64_error_text, base64_of, base64_round_trip, hex_bytes,
    hex_decode, hex_digit_value, hex_of, hex_round_trip, is_hex,
};
use crate::host_imports::{
    arg_views, code_number, crypto_denial, crypto_gate, shape, shape_of, width_of, Arg, ArgView, Broken, BrokenView, Code,
    Codes, Form, Import, Presence, PresenceView, ShapeView,
};
use crate::host_memory::{
    bytes_at, places_hold_what_lies_there, read_bytes, read_str, text_at, texts_are_read, E_OTHER,
};
use crate::text::{decimal, is_space, lemma_nothing_to_trim, push_i64, trim_text, trimmed};

verus! {

/// What one thing that parameters stand for turned out to be.
#[derive(Debug)]
pub enum ArgValue {
    Text(String),
    Bytes(Vec<u8>),
    Absent,
    Number(i64),
    /// A place for the answer: where it is, and how much room it has.
    Place(i64, i64),
}

/// [`ArgValue`] over sequences.
pub enum ValueView {
    Text(Seq<char>),
    Bytes(Seq<u8>),
    Absent,
    Number(i64),
    Place(i64, i64),
}

impl View for ArgValue {
    type V = ValueView;

    open spec fn view(&self) -> ValueView {
        match self {
            ArgValue::Text(s) => ValueView::Text(s@),
            ArgValue::Bytes(b) => ValueView::Bytes(b@),
            ArgValue::Absent => ValueView::Absent,
            ArgValue::Number(n) => ValueView::Number(*n),
            ArgValue::Place(p, n) => ValueView::Place(*p, *n),
        }
    }
}

/// Values over sequences.
pub open spec fn value_views(v: Seq<ArgValue>) -> Seq<ValueView> {
    Seq::new(v.len(), |i: int| v[i]@)
}

/// Why a call is not served: the code that is answered, and what is said.
pub struct Refusal {
    pub code: Code,
    pub note: Option<String>,
}

/// [`Refusal`] over sequences.
pub struct RefusalView {
    pub code: Code,
    pub note: Option<Seq<char>>,
}

impl View for Refusal {
    type V = RefusalView;

    open spec fn view(&self) -> RefusalView {
        RefusalView {
            code: self.code,
            note: match self.note {
                Some(s) => Some(s@),
                None => None,
            },
        }
    }
}

/// The refusal of a place that cannot be read.
pub open spec fn unreadable(arg: ArgView) -> RefusalView {
    RefusalView { code: arg.code, note: arg.note }
}

/// The refusal of text that is no base64.
pub open spec fn not_base64(arg: ArgView, text: Seq<char>) -> RefusalView {
    RefusalView {
        code: arg.code,
        note: match arg.broken {
            BrokenView::Silent => None,
            BrokenView::Says(s) => Some(s),
            BrokenView::Prefix(s) => Some(s + base64_error_text(encode_utf8(text))),
        },
    }
}

/// The refusal of a number that is no port.
pub open spec fn not_a_port(arg: ArgView, p: i64) -> RefusalView {
    RefusalView {
        code: arg.code,
        note: match arg.note {
            Some(s) => Some(s + decimal(p as int)),
            None => None,
        },
    }
}

/// What the parameters `p` and `q` stand for.
pub open spec fn value_at(arg: ArgView, mem: Seq<u8>, p: i64, q: i64) -> Result<
    ValueView,
    RefusalView,
> {
    match arg.form {
        Form::Text => match text_at(mem, p as int, q as int) {
            Some(t) => Ok(ValueView::Text(t)),
            None => Err(unreadable(arg)),
        },
        Form::TextOrEmpty => match text_at(mem, p as int, q as int) {
            Some(t) => Ok(ValueView::Text(t)),
            None => Ok(ValueView::Text(Seq::empty())),
        },
        Form::Bytes => match bytes_at(mem, p as int, q as int) {
            Some(b) => Ok(ValueView::Bytes(b)),
            None => Err(unreadable(arg)),
        },
        Form::BytesIfAny => if q > 0 {
            match bytes_at(mem, p as int, q as int) {
                Some(b) => Ok(ValueView::Bytes(b)),
                None => Err(unreadable(arg)),
            }
        } else {
            Ok(ValueView::Absent)
        },
        Form::Base64 => match text_at(mem, p as int, q as int) {
            Some(t) => match base64_bytes(t) {
                Some(b) => Ok(ValueView::Bytes(b)),
                None => Err(not_base64(arg, t)),
            },
            None => Err(unreadable(arg)),
        },
        Form::Hex => match text_at(mem, p as int, q as int) {
            Some(t) => if is_hex(trimmed(t)) {
                Ok(ValueView::Bytes(hex_bytes(trimmed(t))))
            } else {
                Err(RefusalView { code: arg.code, note: None })
            },
            None => Err(unreadable(arg)),
        },
        Form::Encoding => if q == 0 {
            Ok(ValueView::Text("hex"@))
        } else {
            match text_at(mem, p as int, q as int) {
                Some(t) => Ok(ValueView::Text(t)),
                None => Err(unreadable(arg)),
            }
        },
        Form::Port(low) => if low <= p <= 65535 {
            Ok(ValueView::Number(p))
        } else {
            Err(not_a_port(arg, p))
        },
        Form::Interval => if p < 0 {
            Err(RefusalView { code: arg.code, note: None })
        } else {
            Ok(ValueView::Number(p))
        },
        Form::Word | Form::Long => Ok(ValueView::Number(p)),
        Form::Out => Ok(ValueView::Place(p, q)),
    }
}

/// Whether `r` is this value, or this refusal.
pub open spec fn is_value(
    r: Result<ArgValue, Refusal>,
    expected: Result<ValueView, RefusalView>,
) -> bool {
    match expected {
        Ok(v) => r matches Ok(x) && x@ == v,
        Err(e) => r matches Err(x) && x@ == e,
    }
}

fn refuse_unreadable(arg: &Arg) -> (r: Refusal)
    ensures
        r@ == unreadable(arg@),
{
    Refusal {
        code: arg.code,
        note: match arg.note {
            Some(s) => Some(s.to_owned()),
            None => None,
        },
    }
}

fn refuse_base64(arg: &Arg, problem: &str, text: &str) -> (r: Refusal)
    requires
        problem@ == base64_error_text(encode_utf8(text@)),
    ensures
        r@ == not_base64(arg@, text@),
{
    Refusal {
        code: arg.code,
        note: match &arg.broken {
            Broken::Silent => None,
            Broken::Says(s) => Some((*s).to_owned()),
            Broken::Prefix(s) => {
                let mut m = (*s).to_owned();
                m.append(problem);
                Some(m)
            },
        },
    }
}

fn refuse_port(arg: &Arg, p: i64) -> (r: Refusal)
    ensures
        r@ == not_a_port(arg@, p),
{
    Refusal {
        code: arg.code,
        note: match arg.note {
            Some(s) => {
                let mut m = s.to_owned();
                push_i64(&mut m, p);
                Some(m)
            },
            None => None,
        },
    }
}

/// Reads what the parameters `p` and `q` stand for.
pub fn read_value(arg: &Arg, mem: &[u8], p: i64, q: i64) -> (r: Result<ArgValue, Refusal>)
    ensures
        is_value(r, value_at(arg@, mem@, p, q)),
{
    match arg.form {
        Form::Text => match read_str(mem, p, q) {
            Some(t) => Ok(ArgValue::Text(t)),
            None => Err(refuse_unreadable(arg)),
        },
        Form::TextOrEmpty => match read_str(mem, p, q) {
            Some(t) => Ok(ArgValue::Text(t)),
            None => {
                let t = String::new();
                assert(t@ =~= Seq::empty());
                Ok(ArgValue::Text(t))
            },
        },
        Form::Bytes => match read_bytes(mem, p, q) {
            Some(b) => Ok(ArgValue::Bytes(b)),
            None => Err(refuse_unreadable(arg)),
        },
        Form::BytesIfAny => {
            if q > 0 {
                match read_bytes(mem, p, q) {
                    Some(b) => Ok(ArgValue::Bytes(b)),
                    None => Err(refuse_unreadable(arg)),
                }
            } else {
                Ok(ArgValue::Absent)
            }
        },
        Form::Base64 => match read_str(mem, p, q) {
            Some(t) => match base64_decode(&t) {
                Ok(b) => Ok(ArgValue::Bytes(b)),
                Err(e) => Err(refuse_base64(arg, &e, &t)),
            },
            None => Err(refuse_unreadable(arg)),
        },
        Form::Hex => match read_str(mem, p, q) {
            Some(t) => match hex_decode(&trim_text(&t)) {
                Some(b) => Ok(ArgValue::Bytes(b)),
                None => Err(Refusal { code: arg.code, note: None }),
            },
            None => Err(refuse_unreadable(arg)),
        },
        Form::Encoding => {
            if q == 0 {
                return Ok(ArgValue::Text("hex".to_owned()));
            }
            match read_str(mem, p, q) {
                Some(t) => Ok(ArgValue::Text(t)),
                None => Err(refuse_unreadable(arg)),
            }
        },
        Form::Port(low) => {
            if low as i64 <= p && p <= 65535 {
                Ok(ArgValue::Number(p))
            } else {
                Err(refuse_port(arg, p))
            }
        },
        Form::Interval => {
            if p < 0 {
                Err(Refusal { code: arg.code, note: None })
            } else {
                Ok(ArgValue::Number(p))
            }
        },
        Form::Word | Form::Long => Ok(ArgValue::Number(p)),
        Form::Out => Ok(ArgValue::Place(p, q)),
    }
}

/// How many parameters stand for the first `n` things.
pub open spec fn offset_of(args: Seq<ArgView>, n: int) -> int
    decreases n,
{
    if n <= 0 {
        0
    } else {
        offset_of(args, n - 1) + width_of(args[n - 1].form)
    }
}

/// What thing `n` turned out to be.
pub open spec fn nth_value(args: Seq<ArgView>, mem: Seq<u8>, params: Seq<i64>, n: int) -> Result<
    ValueView,
    RefusalView,
> {
    value_at(
        args[n],
        mem,
        params[offset_of(args, n)],
        if width_of(args[n].form) == 2 {
            params[offset_of(args, n) + 1]
        } else {
            0
        },
    )
}

/// What the first `n` things turned out to be, or the first refusal among them.
pub open spec fn values_of(args: Seq<ArgView>, mem: Seq<u8>, params: Seq<i64>, n: int) -> Result<
    Seq<ValueView>,
    RefusalView,
>
    decreases n,
{
    if n <= 0 {
        Ok(Seq::empty())
    } else {
        match values_of(args, mem, params, n - 1) {
            Err(e) => Err(e),
            Ok(before) => match nth_value(args, mem, params, n - 1) {
                Err(e) => Err(e),
                Ok(v) => Ok(before.push(v)),
            },
        }
    }
}

/// Whether a thing of this form lies in the guest's memory.
pub open spec fn lies_in_memory(f: Form) -> bool {
    !(f is Port || f is Interval || f is Word || f is Long)
}

/// Whether any of these things lies in the guest's memory.
pub open spec fn use_memory(args: Seq<ArgView>) -> bool {
    exists|i: int| 0 <= i < args.len() && lies_in_memory((#[trigger] args[i]).form)
}

/// What a call hands over: its values, or the code that is answered at once and what is said.
pub open spec fn call_of(
    shape: ShapeView,
    codes: Codes,
    present: bool,
    memory: Option<Seq<u8>>,
    params: Seq<i64>,
) -> Result<Seq<ValueView>, (i32, Option<Seq<char>>)> {
    if !present && shape.presence is First {
        Err((code_number(shape.presence->First_0, codes), shape.presence->First_1))
    } else if memory is None && use_memory(shape.args) {
        Err((code_number(shape.no_memory, codes), shape.memory_note))
    } else {
        let mem = match memory {
            Some(m) => m,
            None => Seq::empty(),
        };
        match values_of(shape.args, mem, params, shape.args.len() as int) {
            Err(e) => Err((code_number(e.code, codes), e.note)),
            Ok(v) => if !present && shape.presence is Last {
                Err((code_number(shape.presence->Last_0, codes), shape.presence->Last_1))
            } else {
                Ok(v)
            },
        }
    }
}

fn in_memory(f: Form) -> (r: bool)
    ensures
        r == lies_in_memory(f),
{
    match f {
        Form::Port(_) | Form::Interval | Form::Word | Form::Long => false,
        _ => true,
    }
}

fn any_in_memory(args: &Vec<Arg>) -> (r: bool)
    ensures
        r == use_memory(arg_views(args@)),
{
    let mut i: usize = 0;
    while i < args.len()
        invariant
            i <= args@.len(),
            forall|j: int|
                0 <= j < i ==> !lies_in_memory((#[trigger] arg_views(args@)[j]).form),
        decreases args@.len() - i,
    {
        if in_memory(args[i].form) {
            assert(lies_in_memory(arg_views(args@)[i as int].form));
            return true;
        }
        i += 1;
    }
    false
}

proof fn lemma_refusal_stays(args: Seq<ArgView>, mem: Seq<u8>, params: Seq<i64>, a: int, b: int)
    requires
        0 <= a <= b,
        values_of(args, mem, params, a) is Err,
    ensures
        values_of(args, mem, params, b) == values_of(args, mem, params, a),
    decreases b - a,
{
    if a < b {
        lemma_refusal_stays(args, mem, params, a, b - 1);
    }
}

proof fn lemma_offsets_grow(args: Seq<ArgView>, a: int, b: int)
    requires
        0 <= a <= b,
    ensures
        0 <= offset_of(args, a) <= offset_of(args, b),
    decreases b,
{
    if a < b {
        lemma_offsets_grow(args, a, b - 1);
    } else if b > 0 {
        lemma_offsets_grow(args, b - 1, b - 1);
    }
}

/// Reads what all the parameters stand for.
pub fn read_values(args: &Vec<Arg>, mem: &[u8], params: &Vec<i64>) -> (r: Result<
    Vec<ArgValue>,
    Refusal,
>)
    requires
        params@.len() == offset_of(arg_views(args@), args@.len() as int),
    ensures
        match values_of(arg_views(args@), mem@, params@, args@.len() as int) {
            Ok(v) => r matches Ok(x) && value_views(x@) == v,
            Err(e) => r matches Err(x) && x@ == e,
        },
{
    let ghost views = arg_views(args@);
    let mut out: Vec<ArgValue> = Vec::new();
    let mut i: usize = 0;
    let mut at: usize = 0;
    let total: usize = params.len();
    assert(value_views(out@) =~= Seq::empty());
    while i < args.len()
        invariant
            i <= args@.len(),
            views == arg_views(args@),
            at == offset_of(views, i as int),
            total == params@.len(),
            total == offset_of(views, args@.len() as int),
            values_of(views, mem@, params@, i as int) == Ok::<Seq<ValueView>, RefusalView>(
                value_views(out@),
            ),
        decreases args@.len() - i,
    {
        let arg = &args[i];
        let ghost before = out@;
        proof {
            lemma_offsets_grow(views, i + 1, args@.len() as int);
            assert(views[i as int] == arg@);
            assert(offset_of(views, i + 1) == at + width_of(arg.form));
        }
        let p: i64 = params[at];
        let width: usize = arg.form.width();
        let q: i64 = if width == 2 {
            params[at + 1]
        } else {
            0
        };
        match read_value(arg, mem, p, q) {
            Ok(v) => {
                out.push(v);
                assert(value_views(out@) =~= value_views(before).push(v@));
            },
            Err(e) => {
                proof {
                    lemma_refusal_stays(views, mem@, params@, i + 1, args@.len() as int);
                }
                return Err(e);
            },
        }
        at += width;
        i += 1;
    }
    Ok(out)
}

/// Keeps a note for the guest, if there is one.
fn keep_note(last_error: &mut String, note: Option<String>)
    ensures
        final(last_error)@ == (match note {
            Some(s) => s@,
            None => old(last_error)@,
        }),
{
    if let Some(s) = note {
        *last_error = s;
    }
}

fn keep_fixed(last_error: &mut String, note: Option<&'static str>)
    ensures
        final(last_error)@ == (match note {
            Some(s) => s@,
            None => old(last_error)@,
        }),
{
    if let Some(s) = note {
        *last_error = s.to_owned();
    }
}

/// What the guest is told last, where a call says `note`.
pub open spec fn said(note: Option<Seq<char>>, before: Seq<char>) -> Seq<char> {
    match note {
        Some(s) => s,
        None => before,
    }
}

/// Takes a call of the function `i`: what the parameters stand for, or the code that is answered at
/// once. `present` says whether the service is there that the function needs, and `codes` are the
/// codes of the coordinator in charge.
pub fn open_call(
    i: Import,
    codes: &Codes,
    present: bool,
    memory: Option<&[u8]>,
    params: &Vec<i64>,
    last_error: &mut String,
) -> (r: Result<Vec<ArgValue>, i32>)
    requires
        params@.len() == offset_of(shape_of(i).args, shape_of(i).args.len() as int),
    ensures
        match call_of(
            shape_of(i),
            *codes,
            present,
            match memory {
                Some(m) => Some(m@),
                None => None,
            },
            params@,
        ) {
            Ok(v) => (r matches Ok(x) && value_views(x@) == v) && final(last_error)@ == old(
                last_error,
            )@,
            Err((code, note)) => r == Err::<Vec<ArgValue>, i32>(code) && final(last_error)@ == said(
                note,
                old(last_error)@,
            ),
        },
{
    let s = shape(i);
    assert(arg_views(s.args@).len() == s.args@.len());
    if let Presence::First(c, n) = s.presence {
        if !present {
            keep_fixed(last_error, n);
            return Err(codes.number(c));
        }
    }
    let empty: Vec<u8> = Vec::new();
    let mem: &[u8] = match memory {
        Some(m) => m,
        None => {
            if any_in_memory(&s.args) {
                keep_fixed(last_error, s.memory_note);
                return Err(codes.number(s.no_memory));
            }
            &empty
        },
    };
    assert(empty@ =~= Seq::empty());
    match read_values(&s.args, mem, params) {
        Err(e) => {
            keep_note(last_error, e.note);
            Err(codes.number(e.code))
        },
        Ok(v) => {
            if let Presence::Last(c, n) = s.presence {
                if !present {
                    keep_fixed(last_error, n);
                    return Err(codes.number(c));
                }
            }
            Ok(v)
        },
    }
}

/// Takes a call of the function `i` as [`open_call`] does, and then asks whether cryptography is
/// allowed where the function needs it: what the parameters stand for, or the number that is
/// answered at once.
pub fn admit_call(
    i: Import,
    codes: &Codes,
    present: bool,
    crypto_allowed: bool,
    memory: Option<&[u8]>,
    params: &Vec<i64>,
    last_error: &mut String,
) -> (r: Result<Vec<ArgValue>, i64>)
    requires
        params@.len() == offset_of(shape_of(i).args, shape_of(i).args.len() as int),
    ensures
        match call_of(
            shape_of(i),
            *codes,
            present,
            match memory {
                Some(m) => Some(m@),
                None => None,
            },
            params@,
        ) {
            Ok(v) => if !crypto_allowed && crypto_denial(i) is Some {
                r == Err::<Vec<ArgValue>, i64>(0) && final(last_error)@ == crypto_denial(i)->0
            } else {
                (r matches Ok(x) && value_views(x@) == v) && final(last_error)@ == old(last_error)@
            },
            Err((code, note)) => r == Err::<Vec<ArgValue>, i64>(code as i64) && final(last_error)@
                == said(note, old(last_error)@),
        },
{
    match open_call(i, codes, present, memory, params, last_error) {
        Ok(args) => match crypto_gate(i, crypto_allowed, last_error) {
            Some(denied) => Err(denied),
            None => Ok(args),
        },
        Err(code) => Err(code as i64),
    }
}

/// The bytes of a columnar reply, which a guest hands over as a place.
pub fn columnar_reply_bytes(
    memory: Option<&[u8]>,
    ptr: i64,
    len: i64,
    last_error: &mut String,
) -> (r: Result<Vec<u8>, i32>)
    ensures
        r is Ok <==> len >= 0 && (memory matches Some(m) && bytes_at(
            m@,
            ptr as int,
            len as int,
        ) is Some),
        r matches Ok(b) ==> Some(b@) == bytes_at(memory->0@, ptr as int, len as int)
            && final(last_error)@ == old(last_error)@,
        r matches Err(c) ==> c == E_OTHER && final(last_error)@ == (if len < 0 {
            "columnar reply: negative blob_len"@
        } else if memory is None {
            old(last_error)@
        } else {
            "columnar reply: blob slice out of bounds"@
        }),
{
    if len < 0 {
        *last_error = "columnar reply: negative blob_len".to_owned();
        return Err(E_OTHER);
    }
    match memory {
        Some(m) => match read_bytes(m, ptr, len) {
            Some(b) => Ok(b),
            None => {
                *last_error = "columnar reply: blob slice out of bounds".to_owned();
                Err(E_OTHER)
            },
        },
        None => Err(E_OTHER),
    }
}

/// A call is served only if everything in it does: where any thing is refused, so is the call, with
/// the code of the first that is.
pub proof fn first_refusal_is_answered(
    args: Seq<ArgView>,
    mem: Seq<u8>,
    params: Seq<i64>,
    n: int,
    k: int,
)
    requires
        0 <= k < n <= args.len(),
        values_of(args, mem, params, k) is Ok,
        nth_value(args, mem, params, k) is Err,
    ensures
        values_of(args, mem, params, n) == Err::<Seq<ValueView>, RefusalView>(
            nth_value(args, mem, params, k)->Err_0,
        ),
{
    lemma_refusal_stays(args, mem, params, k + 1, n);
}

/// Whether a place of `q` bytes from `p` on lies in `mem`, below two gigabytes.
pub open spec fn lies_in(mem: Seq<u8>, p: int, q: int) -> bool {
    0 <= p && 0 <= q && p + q <= mem.len() && p + q <= 0x7fff_ffff
}

/// What a call hands over is what lies in the guest's memory. Raw bytes are the bytes of the place;
/// where they may be left out, they are exactly where the length is not above zero. Where the place
/// does not lie in the memory, the call is refused with the argument's code and note.
pub proof fn bytes_are_handed_over(arg: ArgView, mem: Seq<u8>, p: i64, q: i64)
    requires
        arg.form is Bytes || arg.form is BytesIfAny,
    ensures
        lies_in(mem, p as int, q as int) && q > 0 ==> value_at(arg, mem, p, q) == Ok::<
            ValueView,
            RefusalView,
        >(ValueView::Bytes(mem.subrange(p as int, p + q))),
        value_at(arg, mem, p, q) == Ok::<ValueView, RefusalView>(ValueView::Absent) <==> arg.form
            is BytesIfAny && q <= 0,
        arg.form is Bytes && lies_in(mem, p as int, q as int) ==> value_at(arg, mem, p, q) == Ok::<
            ValueView,
            RefusalView,
        >(ValueView::Bytes(mem.subrange(p as int, p + q))),
        !lies_in(mem, p as int, q as int) && (arg.form is Bytes || q > 0) ==> value_at(
            arg,
            mem,
            p,
            q,
        ) == Err::<ValueView, RefusalView>(RefusalView { code: arg.code, note: arg.note }),
{
    places_hold_what_lies_there(mem, p as int, q as int);
}

/// A text that lies in the guest's memory is handed over as that text; where there is none, the call
/// is refused, or no text is handed over where that will do.
pub proof fn texts_are_handed_over(arg: ArgView, mem: Seq<u8>, p: i64, q: i64, text: Seq<char>)
    requires
        arg.form is Text || arg.form is TextOrEmpty || arg.form is Encoding,
    ensures
        lies_in(mem, p as int, q as int) && mem.subrange(p as int, p + q) == encode_utf8(text) && (
        q > 0 || !(arg.form is Encoding)) ==> value_at(arg, mem, p, q) == Ok::<
            ValueView,
            RefusalView,
        >(ValueView::Text(text)),
        arg.form is Encoding && q == 0 ==> value_at(arg, mem, p, q) == Ok::<ValueView, RefusalView>(
            ValueView::Text(seq!['h', 'e', 'x']),
        ),
        ({
            let none = !lies_in(mem, p as int, q as int) || !valid_utf8(
                mem.subrange(p as int, p + q),
            );
            &&& none && arg.form is TextOrEmpty ==> value_at(arg, mem, p, q) == Ok::<
                ValueView,
                RefusalView,
            >(ValueView::Text(Seq::empty()))
            &&& none && (arg.form is Text || arg.form is Encoding && q != 0) ==> value_at(
                arg,
                mem,
                p,
                q,
            ) == Err::<ValueView, RefusalView>(RefusalView { code: arg.code, note: arg.note })
        }),
{
    places_hold_what_lies_there(mem, p as int, q as int);
    if lies_in(mem, p as int, q as int) && mem.subrange(p as int, p + q) == encode_utf8(text) {
        texts_are_read(mem, p as int, text);
    }
    reveal_strlit("hex");
    assert("hex"@ =~= seq!['h', 'e', 'x']);
}

/// Bytes that a guest hands over in base64 or in hexadecimal are handed over as those bytes.
pub proof fn encoded_bytes_are_handed_over(arg: ArgView, mem: Seq<u8>, p: i64, q: i64, b: Seq<u8>)
    requires
        lies_in(mem, p as int, q as int),
    ensures
        arg.form is Base64 && mem.subrange(p as int, p + q) == encode_utf8(base64_of(b))
            ==> value_at(arg, mem, p, q) == Ok::<ValueView, RefusalView>(ValueView::Bytes(b)),
        arg.form is Hex && mem.subrange(p as int, p + q) == encode_utf8(hex_of(b)) ==> value_at(
            arg,
            mem,
            p,
            q,
        ) == Ok::<ValueView, RefusalView>(ValueView::Bytes(b)),
{
    if mem.subrange(p as int, p + q) == encode_utf8(base64_of(b)) {
        texts_are_read(mem, p as int, base64_of(b));
        base64_round_trip(b);
    }
    if mem.subrange(p as int, p + q) == encode_utf8(hex_of(b)) {
        texts_are_read(mem, p as int, hex_of(b));
        hex_round_trip(b);
        let t = hex_of(b);
        assert forall|i: int| 0 <= i < t.len() implies !is_space(#[trigger] t[i]) by {
            assert(hex_digit_value(t[i]) is Some);
        }
        lemma_nothing_to_trim(t);
    }
}

/// Numbers are handed over as they are: ports from the lowest that will do up to 65535, spans of time
/// from zero on, and any other number whatever it is. A number that will not do is refused with the
/// argument's code.
pub proof fn numbers_are_handed_over(arg: ArgView, mem: Seq<u8>, p: i64, q: i64)
    ensures
        arg.form is Word || arg.form is Long ==> value_at(arg, mem, p, q) == Ok::<
            ValueView,
            RefusalView,
        >(ValueView::Number(p)),
        arg.form matches Form::Port(low) ==> if low <= p <= 65535 {
            value_at(arg, mem, p, q) == Ok::<ValueView, RefusalView>(ValueView::Number(p))
        } else {
            value_at(arg, mem, p, q) matches Err(e) && e.code == arg.code
        },
        arg.form is Interval ==> if p >= 0 {
            value_at(arg, mem, p, q) == Ok::<ValueView, RefusalView>(ValueView::Number(p))
        } else {
            value_at(arg, mem, p, q) matches Err(e) && e.code == arg.code
        },
        arg.form is Out ==> value_at(arg, mem, p, q) == Ok::<ValueView, RefusalView>(
            ValueView::Place(p, q),
        ),
{
}

/// One parameter stands for a number, and two for a place: where it is and how long.
pub proof fn parameters_stand_for_arguments(args: Seq<ArgView>, n: int)
    requires
        0 <= n < args.len(),
    ensures
        offset_of(args, 0) == 0,
        offset_of(args, n + 1) == offset_of(args, n) + (if args[n].form is Port || args[n].form
            is Interval || args[n].form is Word || args[n].form is Long {
            1int
        } else {
            2int
        }),
{
}

proof fn lemma_values(args: Seq<ArgView>, mem: Seq<u8>, params: Seq<i64>, n: int)
    requires
        0 <= n <= args.len(),
        values_of(args, mem, params, n) is Ok,
    ensures
        values_of(args, mem, params, n)->Ok_0.len() == n,
        forall|k: int|
            0 <= k < n ==> nth_value(args, mem, params, k) == Ok::<ValueView, RefusalView>(
                #[trigger] values_of(args, mem, params, n)->Ok_0[k],
            ),
    decreases n,
{
    if n > 0 {
        lemma_values(args, mem, params, n - 1);
    }
}

/// A call that is served hands over one value for each argument, in their order, each read with the
/// parameters that stand for it.
pub proof fn every_argument_is_handed_over(
    shape: ShapeView,
    codes: Codes,
    mem: Seq<u8>,
    params: Seq<i64>,
    k: int,
)
    requires
        call_of(shape, codes, true, Some(mem), params) is Ok,
        0 <= k < shape.args.len(),
    ensures
        call_of(shape, codes, true, Some(mem), params)->Ok_0.len() == shape.args.len(),
        value_at(
            shape.args[k],
            mem,
            params[offset_of(shape.args, k)],
            if offset_of(shape.args, k + 1) == offset_of(shape.args, k) + 2 {
                params[offset_of(shape.args, k) + 1]
            } else {
                0
            },
        ) == Ok::<ValueView, RefusalView>(
            call_of(shape, codes, true, Some(mem), params)->Ok_0[k],
        ),
{
    lemma_values(shape.args, mem, params, shape.args.len() as int);
}

proof fn lemma_all_values(args: Seq<ArgView>, mem: Seq<u8>, params: Seq<i64>, n: int)
    requires
        0 <= n <= args.len(),
        forall|k: int| 0 <= k < n ==> #[trigger] nth_value(args, mem, params, k) is Ok,
    ensures
        values_of(args, mem, params, n) is Ok,
    decreases n,
{
    if n > 0 {
        lemma_all_values(args, mem, params, n - 1);
        assert(nth_value(args, mem, params, n - 1) is Ok);
    }
}

/// A call is served where the service is there, the guest has a memory and every argument is in order;
/// it is refused where the service is not there.
pub proof fn call_is_served_where_all_is_in_order(
    shape: ShapeView,
    codes: Codes,
    present: bool,
    mem: Seq<u8>,
    params: Seq<i64>,
)
    ensures
        (forall|k: int|
            0 <= k < shape.args.len() ==> #[trigger] nth_value(shape.args, mem, params, k) is Ok)
            && (present || shape.presence is Needless) ==> call_of(
            shape,
            codes,
            present,
            Some(mem),
            params,
        ) is Ok,
        !present && !(shape.presence is Needless) ==> call_of(
            shape,
            codes,
            present,
            Some(mem),
            params,
        ) is Err,
        call_of(shape, codes, true, Some(mem), params) is Ok ==> forall|k: int|
            0 <= k < shape.args.len() ==> #[trigger] nth_value(shape.args, mem, params, k) is Ok,
{
    let n = shape.args.len() as int;
    if forall|k: int| 0 <= k < n ==> #[trigger] nth_value(shape.args, mem, params, k) is Ok {
        lemma_all_values(shape.args, mem, params, n);
    }
    if call_of(shape, codes, true, Some(mem), params) is Ok {
        lemma_values(shape.args, mem, params, n);
        assert forall|k: int| 0 <= k < n implies #[trigger] nth_value(
            shape.args,
            mem,
            params,
            k,
        ) is Ok by {
            assert(nth_value(shape.args, mem, params, k) == Ok::<ValueView, RefusalView>(
                values_of(shape.args, mem, params, n)->Ok_0[k],
            ));
        }
    }
}

/// A refused call is answered with the code of what refused it, and what is said of it is kept; where
/// nothing is said, what was said before stays.
pub proof fn refusals_are_answered(
    shape: ShapeView,
    codes: Codes,
    mem: Seq<u8>,
    params: Seq<i64>,
    c: Code,
    note: Seq<char>,
    before: Seq<char>,
)
    ensures
        shape.presence == PresenceView::First(c, Some(note)) ==> call_of(
            shape,
            codes,
            false,
            Some(mem),
            params,
        ) == Err::<Seq<ValueView>, (i32, Option<Seq<char>>)>((code_number(c, codes), Some(note))),
        values_of(shape.args, mem, params, shape.args.len() as int) matches Err(e) ==> call_of(
            shape,
            codes,
            true,
            Some(mem),
            params,
        ) == Err::<Seq<ValueView>, (i32, Option<Seq<char>>)>((code_number(e.code, codes), e.note)),
        said(Some(note), before) == note,
        said(None, before) == before,
        forall|n: i32| code_number(#[trigger] fixed_code(n), codes) == n,
        code_number(Code::Other, codes) == codes.other,
        code_number(Code::NoDaemon, codes) == codes.no_daemon,
        code_number(Code::BadPort, codes) == codes.bad_port,
        code_number(Code::BadHost, codes) == codes.bad_host,
        code_number(Code::BadPayload, codes) == codes.bad_payload,
        code_number(Code::BadCert, codes) == codes.bad_cert,
{
}

/// A code that is the same whichever coordinator is in charge.
pub open spec fn fixed_code(n: i32) -> Code {
    Code::Fixed(n)
}

} // verus!
