//! What a service is asked for, made out of what a guest handed over.
//!
//! Some arguments of a call mean more than they are: a list of servers in one text, an offset in two
//! words, options as JSON. Here they become what the service behind the call works on, so that a
//! service sees only values that are in order.
use vstd::prelude::*;

use crate::error::ErrorView;
use crate::host_calls::{value_views, ArgValue, ValueView};
use crate::host_imports::Import;
use crate::host_values::{
    all_servers_csv, argon2_variant, as_texts, chunk_length, chunk_offset, command_arguments,
    cost_of, listed_texts, option_of, parse_params, parse_servers_csv, parse_tls_connect_opts,
    servers_of, text_or_empty, trimmed_pieces, unsigned_word, words_are_read_without_a_sign,
    ConnectOptions, Unready, UnreadyView,
};
use crate::json::{elements, member_of, Json, JsonView};
use crate::text::pieces;

verus! {

/// Which argument of a call is JSON, and of what kind.
#[derive(Debug, Clone, Copy, PartialEq, Eq, Structural)]
pub enum JsonForm {
    /// None is.
    Nothing,
    /// The one at this place, of any kind.
    Value(usize),
    /// The one at this place, a list of texts.
    Texts(usize),
}

/// Which argument of a call is JSON, and of what kind.
pub open spec fn json_form_of(i: Import) -> JsonForm {
    match i {
        Import::TlsConnect | Import::SqliteRun | Import::SqliteGet
        | Import::SqliteAll => JsonForm::Value(2),
        Import::ChildProcessExec => JsonForm::Texts(1),
        _ => JsonForm::Nothing,
    }
}

/// Which argument of a call is JSON, and of what kind.
pub fn json_form(i: Import) -> (r: JsonForm)
    ensures
        r == json_form_of(i),
{
    match i {
        Import::TlsConnect | Import::SqliteRun | Import::SqliteGet
        | Import::SqliteAll => JsonForm::Value(2),
        Import::ChildProcessExec => JsonForm::Texts(1),
        _ => JsonForm::Nothing,
    }
}

/// What a service is asked for beside the arguments themselves.
#[derive(Debug)]
pub enum Details {
    Plain,
    /// The servers to ask for a name; those of the system where there is none.
    Servers(Vec<String>),
    /// The part of a file to read.
    Chunk { offset: u64, length: u64 },
    /// Where in a file to write.
    Offset(u64),
    /// The cost of a hash; the default where it is zero.
    Cost(u32),
    /// How to hash; the default for each number that is zero.
    Hashing { variant: u8, time: u32, memory: u32, parallelism: u32 },
    /// How to secure a connection.
    Secured(ConnectOptions),
    /// The parameters of a statement.
    Params(Vec<Json>),
    /// The arguments of a command.
    Arguments(Vec<String>),
}

/// [`ConnectOptions`] over sequences.
#[verifier::ext_equal]
pub struct OptionsView {
    pub reject_unauthorized: bool,
    pub servername: Seq<char>,
    pub alpn: Seq<Seq<char>>,
    pub ca_pem: Seq<char>,
}

/// [`Details`] over sequences.
#[verifier::ext_equal]
pub enum DetailsView {
    Plain,
    Servers(Seq<Seq<char>>),
    Chunk { offset: u64, length: u64 },
    Offset(u64),
    Cost(u32),
    Hashing { variant: u8, time: u32, memory: u32, parallelism: u32 },
    Secured(OptionsView),
    Params(Seq<JsonView>),
    Arguments(Seq<Seq<char>>),
}

impl View for Details {
    type V = DetailsView;

    open spec fn view(&self) -> DetailsView {
        match self {
            Details::Plain => DetailsView::Plain,
            Details::Servers(v) => DetailsView::Servers(as_texts(v@)),
            Details::Chunk { offset, length } => DetailsView::Chunk {
                offset: *offset,
                length: *length,
            },
            Details::Offset(offset) => DetailsView::Offset(*offset),
            Details::Cost(cost) => DetailsView::Cost(*cost),
            Details::Hashing { variant, time, memory, parallelism } => DetailsView::Hashing {
                variant: *variant,
                time: *time,
                memory: *memory,
                parallelism: *parallelism,
            },
            Details::Secured(o) => DetailsView::Secured(
                OptionsView {
                    reject_unauthorized: o.reject_unauthorized,
                    servername: o.servername@,
                    alpn: as_texts(o.alpn@),
                    ca_pem: o.ca_pem@,
                },
            ),
            Details::Params(v) => DetailsView::Params(elements(v@)),
            Details::Arguments(v) => DetailsView::Arguments(as_texts(v@)),
        }
    }
}

/// The text at place `n`, or no text.
pub open spec fn text_given(args: Seq<ValueView>, n: int) -> Seq<char> {
    if 0 <= n < args.len() {
        match args[n] {
            ValueView::Text(t) => t,
            _ => Seq::empty(),
        }
    } else {
        Seq::empty()
    }
}

/// The word at place `n`, or zero.
pub open spec fn word_given(args: Seq<ValueView>, n: int) -> i32 {
    if 0 <= n < args.len() {
        match args[n] {
            ValueView::Number(x) => if i32::MIN <= x <= i32::MAX {
                x as i32
            } else {
                0
            },
            _ => 0,
        }
    } else {
        0
    }
}

/// The offset in a file whose two words begin at place `n`.
pub open spec fn offset_given(args: Seq<ValueView>, n: int) -> u64 {
    (unsigned_word(word_given(args, n + 1)) * 0x1_0000_0000 + unsigned_word(
        word_given(args, n),
    )) as u64
}

/// A number from zero on; one below stands for zero.
pub open spec fn natural(n: i32) -> u32 {
    if n < 0 {
        0
    } else {
        n as u32
    }
}

/// How a connection is to be secured, where these are the options that were given, if any.
pub open spec fn secured(v: Option<JsonView>) -> OptionsView {
    OptionsView {
        reject_unauthorized: match option_of(v, "rejectUnauthorized"@) {
            Some(JsonView::Bool(b)) => b,
            _ => true,
        },
        servername: text_or_empty(option_of(v, "servername"@)),
        alpn: listed_texts(option_of(v, "alpn"@)),
        ca_pem: text_or_empty(option_of(v, "ca"@)),
    }
}

/// JSON or what is wrong with it, over sequences.
pub open spec fn value_given(v: Result<Json, String>) -> Result<JsonView, Seq<char>> {
    match v {
        Ok(j) => Ok(j@),
        Err(text) => Err(text@),
    }
}

/// A list of texts or what is wrong with it, over sequences.
pub open spec fn texts_given(v: Result<Vec<String>, String>) -> Result<Seq<Seq<char>>, Seq<char>> {
    match v {
        Ok(l) => Ok(as_texts(l@)),
        Err(text) => Err(text@),
    }
}

/// What the service behind `i` is asked for with these arguments. `value` and `texts` are what the
/// argument that is JSON is, of either kind.
pub open spec fn details_of(
    i: Import,
    args: Seq<ValueView>,
    value: Result<JsonView, Seq<char>>,
    texts: Result<Seq<Seq<char>>, Seq<char>>,
) -> Result<DetailsView, UnreadyView> {
    match i {
        Import::DnsResolve4 | Import::DnsResolve6 | Import::DnsResolveCname | Import::DnsResolveNs
        | Import::DnsReverse | Import::DnsResolveMx | Import::DnsResolveTxt => Ok(
            DetailsView::Servers(servers_of(text_given(args, 1))),
        ),
        Import::DnsResolveSoa => Ok(
            DetailsView::Servers(
                if text_given(args, 1).len() == 0 {
                    Seq::empty()
                } else {
                    trimmed_pieces(pieces(text_given(args, 1), ',', 0))
                },
            ),
        ),
        Import::FsReadChunk => Ok(
            DetailsView::Chunk {
                offset: offset_given(args, 1),
                length: (if word_given(args, 3) < 0 {
                    word_given(args, 3) + 0x1_0000_0000_0000_0000
                } else {
                    word_given(args, 3) as int
                }) as u64,
            },
        ),
        Import::FsWriteChunk => Ok(DetailsView::Offset(offset_given(args, 1))),
        Import::BcryptHash => Ok(DetailsView::Cost(natural(word_given(args, 1)))),
        Import::BcryptGenSalt => Ok(DetailsView::Cost(natural(word_given(args, 0)))),
        Import::Argon2Hash | Import::Argon2NeedsRehash => Ok(
            DetailsView::Hashing {
                variant: (if word_given(args, 1) < 0 {
                    2
                } else {
                    word_given(args, 1) % 256
                }) as u8,
                time: natural(word_given(args, 2)),
                memory: natural(word_given(args, 3)),
                parallelism: natural(word_given(args, 4)),
            },
        ),
        Import::TlsConnect => Ok(
            DetailsView::Secured(
                secured(
                    match value {
                        Ok(v) => Some(v),
                        Err(_) => None,
                    },
                ),
            ),
        ),
        Import::SqliteRun | Import::SqliteGet | Import::SqliteAll => match value {
            Ok(JsonView::List(e)) => Ok(DetailsView::Params(e)),
            Ok(_) => Err(
                UnreadyView::Error(ErrorView::Host("sqlite3: params must be a JSON array"@)),
            ),
            Err(text) => Err(
                UnreadyView::Error(ErrorView::Host("sqlite3: params JSON parse: "@ + text)),
            ),
        },
        Import::ChildProcessExec => if text_given(args, 1).len() == 0 {
            Ok(DetailsView::Arguments(Seq::empty()))
        } else {
            match texts {
                Ok(l) => Ok(DetailsView::Arguments(l)),
                Err(text) => Err(UnreadyView::Note("child_process: argv parse: "@ + text)),
            }
        },
        _ => Ok(DetailsView::Plain),
    }
}

/// Whether `r` is the result `expected`.
pub open spec fn is_details(
    r: Result<Details, Unready>,
    expected: Result<DetailsView, UnreadyView>,
) -> bool {
    match r {
        Ok(d) => expected == Ok::<DetailsView, UnreadyView>(d@),
        Err(u) => expected == Err::<DetailsView, UnreadyView>(u@),
    }
}

/// The text at place `n`, or no text.
pub fn text_argument(args: &Vec<ArgValue>, n: usize) -> (r: &str)
    ensures
        r@ == text_given(value_views(args@), n as int),
{
    proof {
        reveal_strlit("");
        assert(""@ =~= Seq::<char>::empty());
    }
    if n < args.len() {
        assert(value_views(args@)[n as int] == args@[n as int]@);
        match &args[n] {
            ArgValue::Text(t) => t.as_str(),
            _ => "",
        }
    } else {
        ""
    }
}

fn word_argument(args: &Vec<ArgValue>, n: usize) -> (r: i32)
    ensures
        r == word_given(value_views(args@), n as int),
{
    if n < args.len() {
        assert(value_views(args@)[n as int] == args@[n as int]@);
        match &args[n] {
            ArgValue::Number(x) => if -0x8000_0000 <= *x && *x <= 0x7fff_ffff {
                *x as i32
            } else {
                0
            },
            _ => 0,
        }
    } else {
        0
    }
}

fn offset_argument(args: &Vec<ArgValue>, n: usize) -> (r: u64)
    requires
        n < 8,
    ensures
        r == offset_given(value_views(args@), n as int),
{
    chunk_offset(word_argument(args, n), word_argument(args, n + 1))
}

fn params(value: Result<Json, String>) -> (r: Result<Details, Unready>)
    ensures
        is_details(
            r,
            match value_given(value) {
                Ok(JsonView::List(e)) => Ok(DetailsView::Params(e)),
                Ok(_) => Err(
                    UnreadyView::Error(ErrorView::Host("sqlite3: params must be a JSON array"@)),
                ),
                Err(text) => Err(
                    UnreadyView::Error(ErrorView::Host("sqlite3: params JSON parse: "@ + text)),
                ),
            },
        ),
{
    proof {
        reveal_with_fuel(<Json as View>::view, 2);
        if value is Ok && value->Ok_0 is List {
            assert(value->Ok_0@->List_0 =~= elements(value->Ok_0->List_0@));
        }
    }
    match parse_params(value) {
        Ok(l) => Ok(Details::Params(l)),
        Err(e) => Err(Unready::Error(e)),
    }
}

fn arguments(given: &str, texts: Result<Vec<String>, String>) -> (r: Result<Details, Unready>)
    ensures
        is_details(
            r,
            if given@.len() == 0 {
                Ok(DetailsView::Arguments(Seq::empty()))
            } else {
                match texts_given(texts) {
                    Ok(l) => Ok(DetailsView::Arguments(l)),
                    Err(text) => Err(UnreadyView::Note("child_process: argv parse: "@ + text)),
                }
            },
        ),
{
    match command_arguments(given, texts) {
        Ok(v) => {
            assert(given@.len() == 0 ==> as_texts(v@) =~= Seq::empty());
            Ok(Details::Arguments(v))
        },
        Err(m) => Err(Unready::Note(m)),
    }
}

fn connection(value: &Result<Json, String>) -> (r: Details)
    ensures
        r@ == DetailsView::Secured(
            secured(
                match value_given(*value) {
                    Ok(v) => Some(v),
                    Err(_) => None,
                },
            ),
        ),
{
    let given = match value {
        Ok(v) => Some(v),
        Err(_) => None,
    };
    Details::Secured(parse_tls_connect_opts(given))
}

/// What the service behind `i` is asked for with these arguments. `value` and `texts` are what the
/// argument that is JSON is, of either kind, as [`json_form`] says.
pub fn details(
    i: Import,
    args: &Vec<ArgValue>,
    value: Result<Json, String>,
    texts: Result<Vec<String>, String>,
) -> (r: Result<Details, Unready>)
    ensures
        is_details(
            r,
            details_of(i, value_views(args@), value_given(value), texts_given(texts)),
        ),
{
    match i {
        Import::DnsResolve4 | Import::DnsResolve6 | Import::DnsResolveCname | Import::DnsResolveNs
        | Import::DnsReverse | Import::DnsResolveMx | Import::DnsResolveTxt => Ok(
            Details::Servers(parse_servers_csv(text_argument(args, 1))),
        ),
        Import::DnsResolveSoa => Ok(Details::Servers(all_servers_csv(text_argument(args, 1)))),
        Import::FsReadChunk => Ok(
            Details::Chunk {
                offset: offset_argument(args, 1),
                length: chunk_length(word_argument(args, 3)),
            },
        ),
        Import::FsWriteChunk => Ok(Details::Offset(offset_argument(args, 1))),
        Import::BcryptHash => Ok(Details::Cost(cost_of(word_argument(args, 1)))),
        Import::BcryptGenSalt => Ok(Details::Cost(cost_of(word_argument(args, 0)))),
        Import::Argon2Hash | Import::Argon2NeedsRehash => Ok(
            Details::Hashing {
                variant: argon2_variant(word_argument(args, 1)),
                time: cost_of(word_argument(args, 2)),
                memory: cost_of(word_argument(args, 3)),
                parallelism: cost_of(word_argument(args, 4)),
            },
        ),
        Import::TlsConnect => Ok(connection(&value)),
        Import::SqliteRun | Import::SqliteGet | Import::SqliteAll => params(value),
        Import::ChildProcessExec => arguments(text_argument(args, 1), texts),
        _ => Ok(Details::Plain),
    }
}

/// A service is asked for the part of a file that the guest names: the offset has the second word for
/// its upper half and the first for its lower, both without a sign, and the length is the third.
pub proof fn file_parts_are_the_guests(
    args: Seq<ValueView>,
    lo: i32,
    hi: i32,
    len: i32,
    value: Result<JsonView, Seq<char>>,
    texts: Result<Seq<Seq<char>>, Seq<char>>,
)
    requires
        args.len() >= 4,
        args[1] == ValueView::Number(lo as i64),
        args[2] == ValueView::Number(hi as i64),
        args[3] == ValueView::Number(len as i64),
    ensures
        details_of(Import::FsReadChunk, args, value, texts) matches Ok(
            DetailsView::Chunk { offset, length },
        ) && {
            &&& offset as int % 4294967296 == lo as int % 4294967296
            &&& offset as int / 4294967296 == hi as int % 4294967296
            &&& len >= 0 ==> length == len
            &&& len < 0 ==> length == len + 18446744073709551616
        },
        details_of(Import::FsWriteChunk, args, value, texts) matches Ok(
            DetailsView::Offset(offset),
        ) && {
            &&& offset as int % 4294967296 == lo as int % 4294967296
            &&& offset as int / 4294967296 == hi as int % 4294967296
        },
{
    let u = unsigned_word(hi);
    let l = unsigned_word(lo);
    words_are_read_without_a_sign(hi);
    words_are_read_without_a_sign(lo);
    assert(u == hi as int % 4294967296);
    assert(l == lo as int % 4294967296);
    let offset = u * 0x1_0000_0000 + l;
    assert(0 <= offset <= u64::MAX);
    assert(offset % 4294967296 == l && offset / 4294967296 == u);
}

/// A hash gets the costs that the guest names, and the default for each that is below zero; its
/// variant is the low byte of the number that the guest names, and the third where that is below
/// zero.
pub proof fn hash_costs_are_the_guests(
    args: Seq<ValueView>,
    a: i32,
    b: i32,
    c: i32,
    d: i32,
    e: i32,
    value: Result<JsonView, Seq<char>>,
    texts: Result<Seq<Seq<char>>, Seq<char>>,
)
    requires
        args.len() >= 5,
        args[0] == ValueView::Number(e as i64),
        args[1] == ValueView::Number(a as i64),
        args[2] == ValueView::Number(b as i64),
        args[3] == ValueView::Number(c as i64),
        args[4] == ValueView::Number(d as i64),
    ensures
        details_of(Import::BcryptHash, args, value, texts) matches Ok(DetailsView::Cost(n)) && n
            == if a >= 0 {
            a as int
        } else {
            0
        },
        details_of(Import::BcryptGenSalt, args, value, texts) matches Ok(DetailsView::Cost(n)) && n
            == if e >= 0 {
            e as int
        } else {
            0
        },
        forall|i: Import|
            i == Import::Argon2Hash || i == Import::Argon2NeedsRehash ==> (#[trigger] details_of(
                i,
                args,
                value,
                texts,
            ) matches Ok(DetailsView::Hashing { variant, time, memory, parallelism }) && {
                &&& a >= 0 ==> variant as int == a as int % 256
                &&& a < 0 ==> variant == 2
                &&& b >= 0 ==> time == b
                &&& b < 0 ==> time == 0
                &&& c >= 0 ==> memory == c
                &&& c < 0 ==> memory == 0
                &&& d >= 0 ==> parallelism == d
                &&& d < 0 ==> parallelism == 0
            }),
{
}

/// Names are looked up at the servers that the guest lists, between commas; the function for one
/// kind of record counts empty ones too.
pub proof fn servers_are_the_guests(
    args: Seq<ValueView>,
    list: Seq<char>,
    i: Import,
    value: Result<JsonView, Seq<char>>,
    texts: Result<Seq<Seq<char>>, Seq<char>>,
)
    requires
        args.len() >= 2,
        args[1] == ValueView::Text(list),
    ensures
        i == Import::DnsResolve4 || i == Import::DnsResolve6 || i == Import::DnsResolveCname || i
            == Import::DnsResolveNs || i == Import::DnsReverse || i == Import::DnsResolveMx || i
            == Import::DnsResolveTxt ==> details_of(i, args, value, texts) == Ok::<
            DetailsView,
            UnreadyView,
        >(DetailsView::Servers(servers_of(list))),
        details_of(Import::DnsResolveSoa, args, value, texts) == Ok::<DetailsView, UnreadyView>(
            DetailsView::Servers(
                if list.len() == 0 {
                    Seq::empty()
                } else {
                    trimmed_pieces(pieces(list, ',', 0))
                },
            ),
        ),
{
}

/// A statement gets the elements of the list that the script hands over, and what is no list is
/// refused; a command gets the texts of its list, and none where the script hands over no text.
pub proof fn lists_are_the_guests(
    args: Seq<ValueView>,
    given: Seq<char>,
    e: Seq<JsonView>,
    words: Seq<Seq<char>>,
    i: Import,
    other: JsonView,
    fault: Seq<char>,
)
    requires
        args.len() >= 2,
        args[1] == ValueView::Text(given),
        !(other is List),
    ensures
        i == Import::SqliteRun || i == Import::SqliteGet || i == Import::SqliteAll ==> {
            &&& details_of(i, args, Ok(JsonView::List(e)), Ok(words)) == Ok::<
                DetailsView,
                UnreadyView,
            >(DetailsView::Params(e))
            &&& details_of(i, args, Ok(other), Ok(words)) is Err
            &&& details_of(i, args, Err(fault), Ok(words)) is Err
        },
        given.len() > 0 ==> details_of(Import::ChildProcessExec, args, Ok(other), Ok(words)) == Ok::<
            DetailsView,
            UnreadyView,
        >(DetailsView::Arguments(words)),
        given.len() > 0 ==> details_of(
            Import::ChildProcessExec,
            args,
            Ok(other),
            Err(fault),
        ) is Err,
        given.len() == 0 ==> (details_of(
            Import::ChildProcessExec,
            args,
            Ok(other),
            Err(fault),
        ) matches Ok(DetailsView::Arguments(none)) && none.len() == 0),
{
}

/// A secured connection gets what the script asks for, and its certificates are checked unless the
/// script says otherwise.
pub proof fn connections_are_secured(
    args: Seq<ValueView>,
    v: JsonView,
    t: Seq<char>,
    fault: Seq<char>,
    texts: Result<Seq<Seq<char>>, Seq<char>>,
)
    ensures
        details_of(Import::TlsConnect, args, Ok(v), texts) matches Ok(DetailsView::Secured(o)) && {
            &&& !o.reject_unauthorized <==> member_of(v, "rejectUnauthorized"@) == Some(
                JsonView::Bool(false),
            )
            &&& member_of(v, "servername"@) == Some(JsonView::Text(t)) ==> o.servername == t
            &&& member_of(v, "ca"@) == Some(JsonView::Text(t)) ==> o.ca_pem == t
            &&& o.alpn == listed_texts(member_of(v, "alpn"@))
        },
        details_of(Import::TlsConnect, args, Err(fault), texts) matches Ok(DetailsView::Secured(o))
            && o.reject_unauthorized && o.servername.len() == 0 && o.alpn.len() == 0 && o.ca_pem.len()
            == 0,
{
}

/// The third argument is JSON where a secured connection is made or a statement is run, the second is
/// a list of texts where a program is run, and nothing else is JSON.
pub proof fn arguments_in_json(i: Import)
    ensures
        json_form_of(i) == JsonForm::Value(2) <==> (i is TlsConnect || i is SqliteRun || i is SqliteGet
            || i is SqliteAll),
        json_form_of(i) == JsonForm::Texts(1) <==> i is ChildProcessExec,
        json_form_of(i) is Nothing <==> !(i is TlsConnect || i is SqliteRun || i is SqliteGet
            || i is SqliteAll || i is ChildProcessExec),
{
}

} // verus!
