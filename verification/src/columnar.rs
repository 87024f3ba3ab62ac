//! Columnar batch format of the host/guest call path.
//!
//! A batch is one contiguous blob: a header, a table of column headers, and then for each column
//! its data, its validity bitmap where it has one, and its name. Every place in the blob is
//! addressed by its offset from the blob's start, so that the guest can lay typed views over it
//! without copying. A reply comes back in the same shape.
//!
//! Data and validity regions start on multiples of eight, as typed views require. In a validity
//! bitmap bit `i` (least significant first) belongs to row `i`, and a set bit means that the row
//! is valid. A column without a bitmap has no invalid row.
use vstd::prelude::*;
use vstd::utf8::{decode_utf8, encode_utf8, valid_utf8};

use crate::bytes::{
    aligned_up, le_bytes, le_word, le_word_of_le_bytes, lemma_aligned_up, push_all, push_u32_le,
    read_u32_le, slice_of, text_from_utf8, utf8_error_text,
};
use crate::error::{AfterburnerError, ErrorView};
use crate::text::{decimal, digits, push_u128, push_u64};

verus! {

/// Physical type of a column.
///
/// The tag of each type on the wire is given by [`ColumnDtype::tag`] and never changes.
#[derive(Debug, Clone, Copy, PartialEq, Eq, Structural)]
pub enum ColumnDtype {
    Bool,
    Int8,
    Int16,
    Int32,
    Int64,
    UInt8,
    UInt16,
    UInt32,
    UInt64,
    Float32,
    Float64,
    /// Text in inline-or-pointer slots; reserved.
    Utf8,
    /// Days since 1970-01-01.
    Date32,
    /// Microseconds since 1970-01-01T00:00:00Z.
    Timestamp,
    /// Sixteen-byte decimal; reserved.
    Decimal128,
    /// Months, days and microseconds in sixteen bytes; reserved.
    Interval,
    /// Sixteen-byte identifier; reserved.
    Uuid,
    /// Bytes in inline-or-pointer slots; reserved.
    Bytea,
    /// JSON body in inline-or-pointer slots; reserved.
    Jsonb,
}

/// The tag of `d` on the wire.
pub open spec fn dtype_tag(d: ColumnDtype) -> u8 {
    match d {
        ColumnDtype::Bool => 1,
        ColumnDtype::Int8 => 2,
        ColumnDtype::Int16 => 3,
        ColumnDtype::Int32 => 4,
        ColumnDtype::Int64 => 5,
        ColumnDtype::UInt8 => 6,
        ColumnDtype::UInt16 => 7,
        ColumnDtype::UInt32 => 8,
        ColumnDtype::UInt64 => 9,
        ColumnDtype::Float32 => 10,
        ColumnDtype::Float64 => 11,
        ColumnDtype::Utf8 => 12,
        ColumnDtype::Date32 => 13,
        ColumnDtype::Timestamp => 14,
        ColumnDtype::Decimal128 => 15,
        ColumnDtype::Interval => 16,
        ColumnDtype::Uuid => 17,
        ColumnDtype::Bytea => 18,
        ColumnDtype::Jsonb => 19,
    }
}

/// The name that messages give to `d`.
pub open spec fn dtype_name(d: ColumnDtype) -> Seq<char> {
    match d {
        ColumnDtype::Bool => "Bool"@,
        ColumnDtype::Int8 => "Int8"@,
        ColumnDtype::Int16 => "Int16"@,
        ColumnDtype::Int32 => "Int32"@,
        ColumnDtype::Int64 => "Int64"@,
        ColumnDtype::UInt8 => "UInt8"@,
        ColumnDtype::UInt16 => "UInt16"@,
        ColumnDtype::UInt32 => "UInt32"@,
        ColumnDtype::UInt64 => "UInt64"@,
        ColumnDtype::Float32 => "Float32"@,
        ColumnDtype::Float64 => "Float64"@,
        ColumnDtype::Utf8 => "Utf8"@,
        ColumnDtype::Date32 => "Date32"@,
        ColumnDtype::Timestamp => "Timestamp"@,
        ColumnDtype::Decimal128 => "Decimal128"@,
        ColumnDtype::Interval => "Interval"@,
        ColumnDtype::Uuid => "Uuid"@,
        ColumnDtype::Bytea => "Bytea"@,
        ColumnDtype::Jsonb => "Jsonb"@,
    }
}

/// Whether each row of `d` takes the same number of bytes.
pub open spec fn fixed_width(d: ColumnDtype) -> bool {
    !(d is Utf8 || d is Bytea || d is Jsonb)
}

/// Bytes per row of a type of fixed width.
pub open spec fn width(d: ColumnDtype) -> int {
    match d {
        ColumnDtype::Bool | ColumnDtype::Int8 | ColumnDtype::UInt8 => 1,
        ColumnDtype::Int16 | ColumnDtype::UInt16 => 2,
        ColumnDtype::Int32
        | ColumnDtype::UInt32
        | ColumnDtype::Float32
        | ColumnDtype::Date32 => 4,
        ColumnDtype::Int64
        | ColumnDtype::UInt64
        | ColumnDtype::Float64
        | ColumnDtype::Timestamp => 8,
        _ => 16,
    }
}

/// Whether a batch may hold a column of type `d`: the fixed-width types of at most eight bytes.
pub open spec fn supported(d: ColumnDtype) -> bool {
    fixed_width(d) && width(d) <= 8
}

/// What [`ColumnDtype::size_bytes`] says of a type of no fixed width.
pub open spec fn variable_width_message(d: ColumnDtype) -> Seq<char> {
    "ColumnDtype::"@ + dtype_name(d)
        + " is variable-width — call inline_slot_bytes() + heap separately"@
}

/// What [`ColumnDtype::from_u8`] says of a tag that belongs to no type.
pub open spec fn unknown_tag_message(tag: u8) -> Seq<char> {
    "unknown ColumnDtype tag "@ + digits(tag as nat)
}

impl ColumnDtype {
    /// The tag of this type on the wire.
    pub fn tag(self) -> (r: u8)
        ensures
            r == dtype_tag(self),
    {
        match self {
            ColumnDtype::Bool => 1,
            ColumnDtype::Int8 => 2,
            ColumnDtype::Int16 => 3,
            ColumnDtype::Int32 => 4,
            ColumnDtype::Int64 => 5,
            ColumnDtype::UInt8 => 6,
            ColumnDtype::UInt16 => 7,
            ColumnDtype::UInt32 => 8,
            ColumnDtype::UInt64 => 9,
            ColumnDtype::Float32 => 10,
            ColumnDtype::Float64 => 11,
            ColumnDtype::Utf8 => 12,
            ColumnDtype::Date32 => 13,
            ColumnDtype::Timestamp => 14,
            ColumnDtype::Decimal128 => 15,
            ColumnDtype::Interval => 16,
            ColumnDtype::Uuid => 17,
            ColumnDtype::Bytea => 18,
            ColumnDtype::Jsonb => 19,
        }
    }

    /// The name that messages give to this type.
    pub fn name(self) -> (r: &'static str)
        ensures
            r@ == dtype_name(self),
    {
        match self {
            ColumnDtype::Bool => "Bool",
            ColumnDtype::Int8 => "Int8",
            ColumnDtype::Int16 => "Int16",
            ColumnDtype::Int32 => "Int32",
            ColumnDtype::Int64 => "Int64",
            ColumnDtype::UInt8 => "UInt8",
            ColumnDtype::UInt16 => "UInt16",
            ColumnDtype::UInt32 => "UInt32",
            ColumnDtype::UInt64 => "UInt64",
            ColumnDtype::Float32 => "Float32",
            ColumnDtype::Float64 => "Float64",
            ColumnDtype::Utf8 => "Utf8",
            ColumnDtype::Date32 => "Date32",
            ColumnDtype::Timestamp => "Timestamp",
            ColumnDtype::Decimal128 => "Decimal128",
            ColumnDtype::Interval => "Interval",
            ColumnDtype::Uuid => "Uuid",
            ColumnDtype::Bytea => "Bytea",
            ColumnDtype::Jsonb => "Jsonb",
        }
    }

    /// Bytes per row, for the types of fixed width; an error for the others.
    pub fn size_bytes(self) -> (r: Result<usize, AfterburnerError>)
        ensures
            match r {
                Ok(n) => fixed_width(self) && n == width(self),
                Err(e) => !fixed_width(self) && e@ == ErrorView::Engine(
                    variable_width_message(self),
                ),
            },
    {
        match self {
            ColumnDtype::Bool | ColumnDtype::Int8 | ColumnDtype::UInt8 => Ok(1),
            ColumnDtype::Int16 | ColumnDtype::UInt16 => Ok(2),
            ColumnDtype::Int32
            | ColumnDtype::UInt32
            | ColumnDtype::Float32
            | ColumnDtype::Date32 => Ok(4),
            ColumnDtype::Int64
            | ColumnDtype::UInt64
            | ColumnDtype::Float64
            | ColumnDtype::Timestamp => Ok(8),
            ColumnDtype::Decimal128 | ColumnDtype::Interval | ColumnDtype::Uuid => Ok(16),
            ColumnDtype::Utf8 | ColumnDtype::Bytea | ColumnDtype::Jsonb => {
                let mut m = "ColumnDtype::".to_owned();
                m.append(self.name());
                m.append(" is variable-width — call inline_slot_bytes() + heap separately");
                Err(AfterburnerError::Engine(m))
            },
        }
    }

    /// Whether each row takes the same number of bytes.
    pub fn is_fixed_width(self) -> (r: bool)
        ensures
            r == fixed_width(self),
    {
        !matches!(self, ColumnDtype::Utf8 | ColumnDtype::Bytea | ColumnDtype::Jsonb)
    }

    /// Whether a batch may hold a column of this type.
    pub fn is_phase1_supported(self) -> (r: bool)
        ensures
            r == supported(self),
    {
        matches!(
            self,
            ColumnDtype::Bool
                | ColumnDtype::Int8
                | ColumnDtype::Int16
                | ColumnDtype::Int32
                | ColumnDtype::Int64
                | ColumnDtype::UInt8
                | ColumnDtype::UInt16
                | ColumnDtype::UInt32
                | ColumnDtype::UInt64
                | ColumnDtype::Float32
                | ColumnDtype::Float64
                | ColumnDtype::Date32
                | ColumnDtype::Timestamp
        )
    }

    /// The type that `tag` stands for; an error where it stands for none.
    pub fn from_u8(tag: u8) -> (r: Result<Self, AfterburnerError>)
        ensures
            match r {
                Ok(d) => dtype_tag(d) == tag,
                Err(e) => !(1 <= tag <= 19) && e@ == ErrorView::Engine(unknown_tag_message(tag)),
            },
    {
        Ok(
            match tag {
                1 => ColumnDtype::Bool,
                2 => ColumnDtype::Int8,
                3 => ColumnDtype::Int16,
                4 => ColumnDtype::Int32,
                5 => ColumnDtype::Int64,
                6 => ColumnDtype::UInt8,
                7 => ColumnDtype::UInt16,
                8 => ColumnDtype::UInt32,
                9 => ColumnDtype::UInt64,
                10 => ColumnDtype::Float32,
                11 => ColumnDtype::Float64,
                12 => ColumnDtype::Utf8,
                13 => ColumnDtype::Date32,
                14 => ColumnDtype::Timestamp,
                15 => ColumnDtype::Decimal128,
                16 => ColumnDtype::Interval,
                17 => ColumnDtype::Uuid,
                18 => ColumnDtype::Bytea,
                19 => ColumnDtype::Jsonb,
                _ => {
                    let mut m = "unknown ColumnDtype tag ".to_owned();
                    push_u64(&mut m, tag as u64);
                    return Err(AfterburnerError::Engine(m));
                },
            },
        )
    }
}

/// The type that a tag between 1 and 19 stands for.
pub open spec fn dtype_of_tag(tag: u8) -> ColumnDtype {
    match tag {
        1 => ColumnDtype::Bool,
        2 => ColumnDtype::Int8,
        3 => ColumnDtype::Int16,
        4 => ColumnDtype::Int32,
        5 => ColumnDtype::Int64,
        6 => ColumnDtype::UInt8,
        7 => ColumnDtype::UInt16,
        8 => ColumnDtype::UInt32,
        9 => ColumnDtype::UInt64,
        10 => ColumnDtype::Float32,
        11 => ColumnDtype::Float64,
        12 => ColumnDtype::Utf8,
        13 => ColumnDtype::Date32,
        14 => ColumnDtype::Timestamp,
        15 => ColumnDtype::Decimal128,
        16 => ColumnDtype::Interval,
        17 => ColumnDtype::Uuid,
        18 => ColumnDtype::Bytea,
        _ => ColumnDtype::Jsonb,
    }
}

/// Tags and types stand for each other one to one, over the tags from 1 to 19.
pub proof fn tags_round_trip(d: ColumnDtype, tag: u8)
    ensures
        1 <= dtype_tag(d) <= 19,
        dtype_of_tag(dtype_tag(d)) == d,
        1 <= tag <= 19 ==> dtype_tag(dtype_of_tag(tag)) == tag,
{
}

/// One column of a batch to encode. The caller owns the bytes.
pub struct ColumnRef<'a> {
    pub name: &'a str,
    pub dtype: ColumnDtype,
    /// Exactly `row_count` times the width of `dtype` bytes.
    pub data: &'a [u8],
    /// `None` where every row is valid; otherwise one bit for each row, in at least as many bytes
    /// as that takes.
    pub validity: Option<&'a [u8]>,
}

/// A batch to encode.
pub struct ColumnarBatch<'a> {
    pub row_count: u32,
    pub columns: Vec<ColumnRef<'a>>,
}

/// One decoded column.
#[derive(Debug)]
pub struct OwnedColumn {
    pub name: String,
    pub dtype: ColumnDtype,
    pub data: Vec<u8>,
    /// `None` where every row is valid.
    pub validity: Option<Vec<u8>>,
}

/// A decoded batch.
#[derive(Debug)]
pub struct ColumnarOutput {
    pub row_count: u32,
    pub columns: Vec<OwnedColumn>,
}

/// What a column holds.
#[verifier::ext_equal]
pub struct ColumnView {
    pub name: Seq<char>,
    pub dtype: ColumnDtype,
    pub data: Seq<u8>,
    pub validity: Option<Seq<u8>>,
}

impl<'a> View for ColumnRef<'a> {
    type V = ColumnView;

    open spec fn view(&self) -> ColumnView {
        ColumnView {
            name: self.name@,
            dtype: self.dtype,
            data: self.data@,
            validity: match self.validity {
                Some(bits) => Some(bits@),
                None => None,
            },
        }
    }
}

impl View for OwnedColumn {
    type V = ColumnView;

    open spec fn view(&self) -> ColumnView {
        ColumnView {
            name: self.name@,
            dtype: self.dtype,
            data: self.data@,
            validity: match self.validity {
                Some(bits) => Some(bits@),
                None => None,
            },
        }
    }
}

impl<'a> ColumnarBatch<'a> {
    /// What the columns of this batch hold, in order.
    pub open spec fn contents(&self) -> Seq<ColumnView> {
        Seq::new(self.columns@.len(), |i: int| self.columns@[i]@)
    }

    /// A batch of `row_count` rows with no column.
    pub fn new(row_count: u32) -> (r: Self)
        ensures
            r.row_count == row_count,
            r.columns@ == Seq::<ColumnRef<'a>>::empty(),
    {
        Self { row_count, columns: Vec::new() }
    }

    /// Adds `col` behind the columns that are there, and gives the batch back.
    pub fn push(&mut self, col: ColumnRef<'a>) -> (r: &mut Self)
        ensures
            r.row_count == old(self).row_count,
            r.columns@ == old(self).columns@.push(col),
            *final(self) == *final(r),
    {
        self.columns.push(col);
        self
    }
}

/// Header at the start of a blob.
#[derive(Debug, Clone, Copy, PartialEq, Eq, Structural)]
pub struct BatchHeader {
    pub row_count: u32,
    pub column_count: u32,
    /// Where the table of column headers starts.
    pub columns_offset: u32,
    /// Zero.
    pub _reserved: u32,
}

/// Header of one column.
#[derive(Debug, Clone, Copy, PartialEq, Eq)]
pub struct ColumnHeader {
    /// Tag of the column's type.
    pub dtype: u8,
    pub _pad: [u8; 3],
    /// Where the data starts.
    pub data_offset: u32,
    /// Where the validity bitmap starts, or zero where the column has none.
    pub validity_offset: u32,
    /// Where the name starts.
    pub name_offset: u32,
    /// Bytes of the name.
    pub name_len: u32,
}

/// Bytes that a [`BatchHeader`] takes in a blob.
pub const BATCH_HEADER_BYTES: usize = 16;

/// Bytes that a [`ColumnHeader`] takes in a blob.
pub const COLUMN_HEADER_BYTES: usize = 20;

/// An encoded batch.
#[derive(Debug)]
pub struct EncodedBatch {
    pub bytes: Vec<u8>,
    /// Where the data of each column starts, in the order of the columns.
    pub column_data_offsets: Vec<u32>,
}

/// Where the data of a column starts whose part of the blob begins at `start`.
pub open spec fn data_place(start: int) -> int {
    aligned_up(start, 8)
}

/// Where the validity bitmap goes: the next multiple of eight behind the data.
pub open spec fn validity_place(start: int, c: ColumnView) -> int {
    aligned_up(data_place(start) + c.data.len(), 8)
}

/// Where the name goes: behind the bitmap, if there is one, or else behind the data.
pub open spec fn name_place(start: int, c: ColumnView) -> int {
    match c.validity {
        Some(bits) => aligned_up(validity_place(start, c) + bits.len(), 8),
        None => validity_place(start, c),
    }
}

/// Where the part of the column ends.
pub open spec fn end_place(start: int, c: ColumnView) -> int {
    aligned_up(name_place(start, c) + encode_utf8(c.name).len(), 4)
}

/// Where the part of column `i` begins. The first begins behind the table of column headers.
pub open spec fn column_place(cols: Seq<ColumnView>, i: int) -> int
    decreases i,
{
    if i <= 0 {
        BATCH_HEADER_BYTES + COLUMN_HEADER_BYTES * cols.len()
    } else {
        end_place(column_place(cols, i - 1), cols[i - 1])
    }
}

/// Zeros from `at` up to the next multiple of `alignment`.
pub open spec fn padding(at: int, alignment: int) -> Seq<u8> {
    Seq::new((aligned_up(at, alignment) - at) as nat, |k: int| 0u8)
}

/// The bytes of a validity bitmap with the padding behind it; nothing where there is no bitmap.
pub open spec fn validity_part(start: int, c: ColumnView) -> Seq<u8> {
    match c.validity {
        Some(bits) => bits + padding(validity_place(start, c) + bits.len(), 8),
        None => Seq::empty(),
    }
}

/// The part of the blob that belongs to a column.
pub open spec fn column_part(start: int, c: ColumnView) -> Seq<u8> {
    padding(start, 8) + c.data + padding(data_place(start) + c.data.len(), 8) + validity_part(
        start,
        c,
    ) + encode_utf8(c.name) + padding(name_place(start, c) + encode_utf8(c.name).len(), 4)
}

/// The parts of the first `n` columns, one after the other.
pub open spec fn column_parts(cols: Seq<ColumnView>, n: int) -> Seq<u8>
    decreases n,
{
    if n <= 0 {
        Seq::empty()
    } else {
        column_parts(cols, n - 1) + column_part(column_place(cols, n - 1), cols[n - 1])
    }
}

/// The header of a column whose part begins at `start`.
pub open spec fn column_row(start: int, c: ColumnView) -> Seq<u8> {
    seq![dtype_tag(c.dtype), 0u8, 0u8, 0u8] + le_bytes(data_place(start) as u32) + le_bytes(
        match c.validity {
            Some(bits) => validity_place(start, c) as u32,
            None => 0u32,
        },
    ) + le_bytes(name_place(start, c) as u32) + le_bytes(encode_utf8(c.name).len() as u32)
}

/// The headers of the first `n` columns.
pub open spec fn column_rows(cols: Seq<ColumnView>, n: int) -> Seq<u8>
    decreases n,
{
    if n <= 0 {
        Seq::empty()
    } else {
        column_rows(cols, n - 1) + column_row(column_place(cols, n - 1), cols[n - 1])
    }
}

/// The header of a batch of `rows` rows and `n` columns.
pub open spec fn batch_row(rows: u32, n: int) -> Seq<u8> {
    le_bytes(rows) + le_bytes(n as u32) + le_bytes(16) + le_bytes(0)
}

/// The blob that stands for a batch.
pub open spec fn blob_of(rows: u32, cols: Seq<ColumnView>) -> Seq<u8> {
    batch_row(rows, cols.len() as int) + column_rows(cols, cols.len() as int) + column_parts(
        cols,
        cols.len() as int,
    )
}

/// Bytes that a bitmap for `rows` rows takes.
pub open spec fn bitmap_len(rows: int) -> int {
    (rows + 7) / 8
}

/// The start of a message about column `i`.
pub open spec fn column_prefix(i: int, name: Seq<char>) -> Seq<char> {
    "column["@ + decimal(i) + "] '"@ + name
}

/// What is wrong with column `i` of a batch of `rows` rows, if anything. A column must be of a
/// supported type, its data must take the width of the type for each row, and its bitmap must
/// have a bit for each row.
pub open spec fn column_problem(rows: u32, i: int, c: ColumnView) -> Option<Seq<char>> {
    if !supported(c.dtype) {
        Some(
            column_prefix(i, c.name) + "' has dtype "@ + dtype_name(c.dtype)
                + " which is reserved but not yet implemented in this Afterburner version"@,
        )
    } else if width(c.dtype) * rows > usize::MAX {
        Some(
            column_prefix(i, c.name) + "' size overflow: "@ + decimal(rows as int) + " × "@
                + decimal(width(c.dtype)),
        )
    } else if c.data.len() != width(c.dtype) * rows {
        Some(
            column_prefix(i, c.name) + "': data.len() = "@ + decimal(c.data.len() as int)
                + " but expected "@ + decimal(width(c.dtype) * rows) + " ("@ + decimal(rows as int)
                + " rows × "@ + decimal(width(c.dtype)) + " bytes)"@,
        )
    } else {
        match c.validity {
            Some(bits) => if bits.len() < bitmap_len(rows as int) {
                Some(
                    column_prefix(i, c.name) + "': validity bitmap has "@ + decimal(
                        bits.len() as int,
                    ) + " bytes but "@ + decimal(rows as int) + " rows need ≥ "@ + decimal(
                        bitmap_len(rows as int),
                    ),
                )
            } else {
                None
            },
            None => None,
        }
    }
}

/// What is said of an offset or a length that does not fit into 32 bits.
pub open spec fn offset_message(x: int) -> Seq<char> {
    "columnar offset "@ + decimal(x) + " exceeds u32::MAX"@
}

/// The first of the offsets and lengths in the header of a column that does not fit into 32
/// bits, if there is one.
pub open spec fn place_problem(start: int, c: ColumnView) -> Option<Seq<char>> {
    if data_place(start) > u32::MAX {
        Some(offset_message(data_place(start)))
    } else if c.validity is Some && validity_place(start, c) > u32::MAX {
        Some(offset_message(validity_place(start, c)))
    } else if name_place(start, c) > u32::MAX {
        Some(offset_message(name_place(start, c)))
    } else if encode_utf8(c.name).len() > u32::MAX {
        Some(offset_message(encode_utf8(c.name).len() as int))
    } else {
        None
    }
}

/// What is wrong with the first column, from `from` on, that is not well formed.
pub open spec fn first_column_problem(
    rows: u32,
    cols: Seq<ColumnView>,
    from: int,
) -> Option<Seq<char>>
    decreases cols.len() - from,
{
    if from >= cols.len() {
        None
    } else if column_problem(rows, from, cols[from]) is Some {
        column_problem(rows, from, cols[from])
    } else {
        first_column_problem(rows, cols, from + 1)
    }
}

/// The offset that does not fit in the first column, from `from` on, that has one.
pub open spec fn first_place_problem(cols: Seq<ColumnView>, from: int) -> Option<Seq<char>>
    decreases cols.len() - from,
{
    if from >= cols.len() {
        None
    } else if place_problem(column_place(cols, from), cols[from]) is Some {
        place_problem(column_place(cols, from), cols[from])
    } else {
        first_place_problem(cols, from + 1)
    }
}

/// Why a batch cannot be encoded, if so: too many columns, else the first column that is not
/// well formed, else the first that does not fit into the blob.
pub open spec fn encode_problem(rows: u32, cols: Seq<ColumnView>) -> Option<Seq<char>> {
    if cols.len() > u32::MAX {
        Some("ColumnarBatch column_count "@ + decimal(cols.len() as int) + " exceeds u32::MAX"@)
    } else if first_column_problem(rows, cols, 0) is Some {
        first_column_problem(rows, cols, 0)
    } else {
        first_place_problem(cols, 0)
    }
}

fn engine_error(m: String) -> (r: AfterburnerError)
    ensures
        r@ == ErrorView::Engine(m@),
{
    AfterburnerError::Engine(m)
}

fn column_message(i: usize, name: &str) -> (r: String)
    ensures
        r@ == column_prefix(i as int, name@),
{
    let mut m = "column[".to_owned();
    push_u64(&mut m, i as u64);
    m.append("] '");
    m.append(name);
    m
}

/// Fails where column `i` of a batch of `rows` rows is not well formed.
fn check_column(rows: u32, i: usize, col: &ColumnRef<'_>) -> (r: Result<(), AfterburnerError>)
    ensures
        match r {
            Ok(_) => column_problem(rows, i as int, col@) is None,
            Err(e) => column_problem(rows, i as int, col@) is Some && e@ == ErrorView::Engine(
                column_problem(rows, i as int, col@)->0,
            ),
        },
{
    if !col.dtype.is_phase1_supported() {
        let mut m = column_message(i, col.name);
        m.append("' has dtype ");
        m.append(col.dtype.name());
        m.append(" which is reserved but not yet implemented in this Afterburner version");
        return Err(engine_error(m));
    }
    let stride: usize = col.dtype.size_bytes()?;
    assert(0 <= stride as int * rows as int <= 16 * 0xffff_ffff) by (nonlinear_arith)
        requires
            0 <= stride <= 16,
            0 <= rows <= 0xffff_ffff,
    ;
    let expected: u64 = stride as u64 * rows as u64;
    if expected > usize::MAX as u64 {
        let mut m = column_message(i, col.name);
        m.append("' size overflow: ");
        push_u64(&mut m, rows as u64);
        m.append(" × ");
        push_u64(&mut m, stride as u64);
        return Err(engine_error(m));
    }
    if col.data.len() as u64 != expected {
        let mut m = column_message(i, col.name);
        m.append("': data.len() = ");
        push_u64(&mut m, col.data.len() as u64);
        m.append(" but expected ");
        push_u64(&mut m, expected);
        m.append(" (");
        push_u64(&mut m, rows as u64);
        m.append(" rows × ");
        push_u64(&mut m, stride as u64);
        m.append(" bytes)");
        return Err(engine_error(m));
    }
    if let Some(bits) = col.validity {
        let need: u64 = (rows as u64 + 7) / 8;
        if (bits.len() as u64) < need {
            let mut m = column_message(i, col.name);
            m.append("': validity bitmap has ");
            push_u64(&mut m, bits.len() as u64);
            m.append(" bytes but ");
            push_u64(&mut m, rows as u64);
            m.append(" rows need ≥ ");
            push_u64(&mut m, need);
            return Err(engine_error(m));
        }
    }
    Ok(())
}

/// `x`, where it fits into 32 bits.
fn u32_from_u128(x: u128) -> (r: Result<u32, AfterburnerError>)
    ensures
        match r {
            Ok(v) => v == x,
            Err(e) => x > u32::MAX && e@ == ErrorView::Engine(offset_message(x as int)),
        },
{
    if x > u32::MAX as u128 {
        let mut m = "columnar offset ".to_owned();
        push_u128(&mut m, x);
        m.append(" exceeds u32::MAX");
        return Err(engine_error(m));
    }
    Ok(x as u32)
}

/// `x` raised to the next multiple of `a`.
fn align_up(x: u128, a: u128) -> (r: u128)
    requires
        a > 0,
        x + a - 1 <= u128::MAX,
    ensures
        r == aligned_up(x as int, a as int),
        r % a == 0,
        x <= r < x + a,
{
    proof {
        lemma_aligned_up(x as int, a as int);
    }
    reveal(aligned_up);
    let n: u128 = (x + (a - 1)) / a;
    assert(n * a == aligned_up(x as int, a as int));
    assert(n * a <= x + (a - 1));
    n * a
}

/// The header of a column whose part begins at `start`, and where that part ends; an error where
/// an offset does not fit.
fn place_column(start: u128, col: &ColumnRef<'_>) -> (r: Result<
    (ColumnHeader, u128),
    AfterburnerError,
>)
    requires
        start <= 0x100_0000_0000,
    ensures
        match r {
            Ok((h, end)) => {
                &&& place_problem(start as int, col@) is None
                &&& header_stands_for(h, start as int, col@)
                &&& end == end_place(start as int, col@)
                &&& end <= 0x3_0000_0000
            },
            Err(e) => place_problem(start as int, col@) is Some && e@ == ErrorView::Engine(
                place_problem(start as int, col@)->0,
            ),
        },
{
    let at: u128 = align_up(start, 8);
    let data_offset: u32 = u32_from_u128(at)?;
    let mut cursor: u128 = align_up(at + col.data.len() as u128, 8);
    let mut validity_offset: u32 = 0;
    if let Some(bits) = col.validity {
        validity_offset = u32_from_u128(cursor)?;
        cursor = align_up(cursor + bits.len() as u128, 8);
    }
    let name_offset: u32 = u32_from_u128(cursor)?;
    let name_bytes = col.name.as_bytes();
    let name_len: u32 = u32_from_u128(name_bytes.len() as u128)?;
    let end: u128 = align_up(cursor + name_bytes.len() as u128, 4);
    Ok(
        (
            ColumnHeader {
                dtype: col.dtype.tag(),
                _pad: [0, 0, 0],
                data_offset,
                validity_offset,
                name_offset,
                name_len,
            },
            end,
        ),
    )
}

/// Appends zeros up to the next multiple of `a`.
fn push_padding(out: &mut Vec<u8>, a: usize)
    requires
        a == 4 || a == 8,
    ensures
        final(out)@ == old(out)@ + padding(old(out)@.len() as int, a as int),
{
    let ghost start = out@;
    let ghost len = out@.len() as int;
    let rest: usize = out.len() % a;
    let count: usize = if rest == 0 {
        0
    } else {
        a - rest
    };
    assert(aligned_up(len, a as int) == len + count) by {
        reveal(aligned_up);
        if a == 4 {
        } else {
        }
    }
    let mut i: usize = 0;
    while i < count
        invariant
            i <= count,
            out@ == start + Seq::new(i as nat, |k: int| 0u8),
        decreases count - i,
    {
        out.push(0);
        i += 1;
        assert(out@ =~= start + Seq::new(i as nat, |k: int| 0u8));
    }
}

/// Appends the header of a column.
fn push_row(out: &mut Vec<u8>, h: &ColumnHeader)
    ensures
        final(out)@ == old(out)@ + (seq![h.dtype, 0u8, 0u8, 0u8] + le_bytes(h.data_offset)
            + le_bytes(h.validity_offset) + le_bytes(h.name_offset) + le_bytes(h.name_len)),
{
    out.push(h.dtype);
    out.push(0);
    out.push(0);
    out.push(0);
    push_u32_le(out, h.data_offset);
    push_u32_le(out, h.validity_offset);
    push_u32_le(out, h.name_offset);
    push_u32_le(out, h.name_len);
    assert(out@ =~= old(out)@ + (seq![h.dtype, 0u8, 0u8, 0u8] + le_bytes(h.data_offset) + le_bytes(
        h.validity_offset,
    ) + le_bytes(h.name_offset) + le_bytes(h.name_len)));
}

/// Appends the part of a column, which begins where `out` ends.
fn push_part(out: &mut Vec<u8>, col: &ColumnRef<'_>)
    ensures
        final(out)@ == old(out)@ + column_part(old(out)@.len() as int, col@),
{
    let ghost before = out@;
    let ghost start = out@.len() as int;
    let ghost c = col@;
    proof {
        lemma_part_len(start, c);
    }
    push_padding(out, 8);
    push_all(out, col.data);
    assert(out@.len() == data_place(start) + c.data.len());
    push_padding(out, 8);
    if let Some(bits) = col.validity {
        push_all(out, bits);
        assert(out@.len() == validity_place(start, c) + bits@.len());
        push_padding(out, 8);
    }
    push_all(out, col.name.as_bytes());
    assert(out@.len() == name_place(start, c) + encode_utf8(c.name).len());
    push_padding(out, 4);
    assert(out@ =~= before + column_part(start, c));
}

/// The part of a column reaches from `start` to its end place.
proof fn lemma_part_len(start: int, c: ColumnView)
    requires
        start >= 0,
    ensures
        start <= data_place(start),
        data_place(start) + c.data.len() <= validity_place(start, c) <= name_place(start, c),
        name_place(start, c) + encode_utf8(c.name).len() <= end_place(start, c),
        column_part(start, c).len() == end_place(start, c) - start,
        c.validity matches Some(bits) ==> validity_place(start, c) + bits.len() <= name_place(
            start,
            c,
        ),
{
    reveal(aligned_up);
}

/// The parts of the first `n` columns reach from the first column's place to the place of
/// column `n`.
proof fn lemma_parts_len(cols: Seq<ColumnView>, n: int)
    requires
        0 <= n <= cols.len(),
    ensures
        column_parts(cols, n).len() == column_place(cols, n) - column_place(cols, 0),
        column_place(cols, 0) <= column_place(cols, n),
    decreases n,
{
    if n > 0 {
        lemma_parts_len(cols, n - 1);
        lemma_part_len(column_place(cols, n - 1), cols[n - 1]);
    }
}

proof fn lemma_rows_len(cols: Seq<ColumnView>, n: int)
    requires
        0 <= n <= cols.len(),
    ensures
        column_rows(cols, n).len() == 20 * n,
    decreases n,
{
    if n > 0 {
        lemma_rows_len(cols, n - 1);
    }
}

proof fn lemma_first_column_problem(rows: u32, cols: Seq<ColumnView>, from: int, at: int)
    requires
        0 <= from <= at <= cols.len(),
        forall|j: int| from <= j < at ==> column_problem(rows, j, #[trigger] cols[j]) is None,
        at < cols.len() ==> column_problem(rows, at, cols[at]) is Some,
    ensures
        at < cols.len() ==> first_column_problem(rows, cols, from) == column_problem(
            rows,
            at,
            cols[at],
        ),
        at == cols.len() ==> first_column_problem(rows, cols, from) is None,
    decreases at - from,
{
    if from < at {
        assert(column_problem(rows, from, cols[from]) is None);
        lemma_first_column_problem(rows, cols, from + 1, at);
    }
}

proof fn lemma_first_place_problem(cols: Seq<ColumnView>, from: int, at: int)
    requires
        0 <= from <= at <= cols.len(),
        forall|j: int|
            from <= j < at ==> place_problem(column_place(cols, j), #[trigger] cols[j]) is None,
        at < cols.len() ==> place_problem(column_place(cols, at), cols[at]) is Some,
    ensures
        at < cols.len() ==> first_place_problem(cols, from) == place_problem(
            column_place(cols, at),
            cols[at],
        ),
        at == cols.len() ==> first_place_problem(cols, from) is None,
    decreases at - from,
{
    if from < at {
        assert(place_problem(column_place(cols, from), cols[from]) is None);
        lemma_first_place_problem(cols, from + 1, at);
    }
}

/// Fails where a column of `batch` is not well formed.
fn check_columns(batch: &ColumnarBatch<'_>) -> (r: Result<(), AfterburnerError>)
    ensures
        match r {
            Ok(_) => first_column_problem(batch.row_count, batch.contents(), 0) is None,
            Err(e) => first_column_problem(batch.row_count, batch.contents(), 0) is Some && e@
                == ErrorView::Engine(
                first_column_problem(batch.row_count, batch.contents(), 0)->0,
            ),
        },
{
    let rows: u32 = batch.row_count;
    let n: usize = batch.columns.len();
    let ghost cols = batch.contents();
    let mut i: usize = 0;
    while i < n
        invariant
            i <= n,
            n == batch.columns@.len(),
            rows == batch.row_count,
            cols == batch.contents(),
            forall|j: int| 0 <= j < i ==> column_problem(rows, j, #[trigger] cols[j]) is None,
        decreases n - i,
    {
        let checked = check_column(rows, i, &batch.columns[i]);
        assert(cols[i as int] == batch.columns@[i as int]@);
        if checked.is_err() {
            proof {
                lemma_first_column_problem(rows, cols, 0, i as int);
            }
            return checked;
        }
        i += 1;
    }
    proof {
        lemma_first_column_problem(rows, cols, 0, n as int);
    }
    Ok(())
}

/// The headers of all columns of `batch`; an error where an offset does not fit.
fn place_columns(batch: &ColumnarBatch<'_>) -> (r: Result<Vec<ColumnHeader>, AfterburnerError>)
    requires
        batch.columns@.len() <= u32::MAX,
    ensures
        match r {
            Ok(headers) => {
                &&& first_place_problem(batch.contents(), 0) is None
                &&& headers@.len() == batch.contents().len()
                &&& forall|j: int|
                    0 <= j < headers@.len() ==> header_stands_for(
                        #[trigger] headers@[j],
                        column_place(batch.contents(), j),
                        batch.contents()[j],
                    )
            },
            Err(e) => first_place_problem(batch.contents(), 0) is Some && e@ == ErrorView::Engine(
                first_place_problem(batch.contents(), 0)->0,
            ),
        },
{
    let n: usize = batch.columns.len();
    let ghost cols = batch.contents();
    let mut headers: Vec<ColumnHeader> = Vec::new();
    assert(COLUMN_HEADER_BYTES * n == 20 * n);
    let mut cursor: u128 = BATCH_HEADER_BYTES as u128 + COLUMN_HEADER_BYTES as u128 * n as u128;
    let mut i: usize = 0;
    while i < n
        invariant
            i <= n,
            n == batch.columns@.len(),
            cols == batch.contents(),
            cursor == column_place(cols, i as int),
            cursor <= 0x100_0000_0000,
            headers@.len() == i,
            forall|j: int|
                0 <= j < i ==> place_problem(column_place(cols, j), #[trigger] cols[j]) is None,
            forall|j: int|
                0 <= j < i ==> header_stands_for(
                    #[trigger] headers@[j],
                    column_place(cols, j),
                    cols[j],
                ),
        decreases n - i,
    {
        assert(cols[i as int] == batch.columns@[i as int]@);
        match place_column(cursor, &batch.columns[i]) {
            Ok((h, end)) => {
                headers.push(h);
                cursor = end;
            },
            Err(e) => {
                proof {
                    lemma_first_place_problem(cols, 0, i as int);
                }
                return Err(e);
            },
        }
        i += 1;
    }
    proof {
        lemma_first_place_problem(cols, 0, n as int);
    }
    Ok(headers)
}

/// The header of the batch and those of its columns.
fn assemble_rows(rows: u32, headers: &Vec<ColumnHeader>, Ghost(cols): Ghost<Seq<ColumnView>>) -> (r:
    Vec<u8>)
    requires
        headers@.len() == cols.len() <= u32::MAX,
        forall|j: int|
            0 <= j < headers@.len() ==> header_stands_for(
                #[trigger] headers@[j],
                column_place(cols, j),
                cols[j],
            ),
    ensures
        r@ == batch_row(rows, cols.len() as int) + column_rows(cols, cols.len() as int),
{
    let n: usize = headers.len();
    let mut bytes: Vec<u8> = Vec::new();
    push_u32_le(&mut bytes, rows);
    push_u32_le(&mut bytes, n as u32);
    push_u32_le(&mut bytes, BATCH_HEADER_BYTES as u32);
    push_u32_le(&mut bytes, 0);
    let ghost head = batch_row(rows, n as int);
    assert(bytes@ =~= head);
    let mut i: usize = 0;
    assert(bytes@ =~= head + column_rows(cols, 0));
    while i < n
        invariant
            i <= n,
            n == cols.len(),
            headers@.len() == n,
            bytes@ == head + column_rows(cols, i as int),
            forall|j: int|
                0 <= j < n ==> header_stands_for(
                    #[trigger] headers@[j],
                    column_place(cols, j),
                    cols[j],
                ),
        decreases n - i,
    {
        push_row(&mut bytes, &headers[i]);
        assert(header_stands_for(headers@[i as int], column_place(cols, i as int), cols[i as int]));
        assert(bytes@ =~= head + (column_rows(cols, i as int) + column_row(
            column_place(cols, i as int),
            cols[i as int],
        )));
        i += 1;
    }
    bytes
}

/// Appends the parts of all columns of `batch` behind the headers.
fn push_parts(bytes: &mut Vec<u8>, batch: &ColumnarBatch<'_>)
    requires
        old(bytes)@.len() == column_place(batch.contents(), 0),
    ensures
        final(bytes)@ == old(bytes)@ + column_parts(
            batch.contents(),
            batch.contents().len() as int,
        ),
{
    let n: usize = batch.columns.len();
    let ghost cols = batch.contents();
    let ghost top = bytes@;
    let mut i: usize = 0;
    assert(bytes@ =~= top + column_parts(cols, 0));
    while i < n
        invariant
            i <= n,
            n == batch.columns@.len(),
            cols == batch.contents(),
            top.len() == column_place(cols, 0),
            bytes@ == top + column_parts(cols, i as int),
        decreases n - i,
    {
        proof {
            lemma_parts_len(cols, i as int);
        }
        assert(cols[i as int] == batch.columns@[i as int]@);
        push_part(bytes, &batch.columns[i]);
        assert(bytes@ =~= top + (column_parts(cols, i as int) + column_part(
            column_place(cols, i as int),
            cols[i as int],
        )));
        i += 1;
    }
}

/// Encodes `batch` into one contiguous blob.
///
/// Fails, with an engine error that says why, where a column has a reserved type or does not
/// have the bytes that its type and the row count ask for, and where the blob would outgrow
/// 32-bit offsets.
pub fn encode_batch(batch: &ColumnarBatch<'_>) -> (r: Result<EncodedBatch, AfterburnerError>)
    ensures
        match r {
            Ok(e) => {
                &&& encode_problem(batch.row_count, batch.contents()) is None
                &&& e.bytes@ == blob_of(batch.row_count, batch.contents())
                &&& e.column_data_offsets@.len() == batch.contents().len()
                &&& forall|i: int|
                    0 <= i < batch.contents().len() ==> #[trigger] e.column_data_offsets@[i]
                        == data_place(column_place(batch.contents(), i))
            },
            Err(e) => encode_problem(batch.row_count, batch.contents()) is Some && e@
                == ErrorView::Engine(encode_problem(batch.row_count, batch.contents())->0),
        },
{
    let n: usize = batch.columns.len();
    let ghost cols = batch.contents();
    if n as u64 > u32::MAX as u64 {
        let mut m = "ColumnarBatch column_count ".to_owned();
        push_u64(&mut m, n as u64);
        m.append(" exceeds u32::MAX");
        return Err(engine_error(m));
    }
    match check_columns(batch) {
        Ok(_) => {},
        Err(e) => return Err(e),
    }
    let headers = match place_columns(batch) {
        Ok(headers) => headers,
        Err(e) => return Err(e),
    };
    let mut column_data_offsets: Vec<u32> = Vec::new();
    let mut i: usize = 0;
    while i < n
        invariant
            i <= n,
            n == headers@.len(),
            n == cols.len(),
            column_data_offsets@.len() == i,
            forall|j: int|
                0 <= j < i ==> #[trigger] column_data_offsets@[j] == data_place(
                    column_place(cols, j),
                ),
            forall|j: int|
                0 <= j < n ==> header_stands_for(
                    #[trigger] headers@[j],
                    column_place(cols, j),
                    cols[j],
                ),
        decreases n - i,
    {
        column_data_offsets.push(headers[i].data_offset);
        i += 1;
    }
    let mut bytes = assemble_rows(batch.row_count, &headers, Ghost(cols));
    proof {
        lemma_rows_len(cols, n as int);
    }
    push_parts(&mut bytes, batch);
    Ok(EncodedBatch { bytes, column_data_offsets })
}

/// Whether `h` is the header of column `c`, whose part begins at `start`.
pub open spec fn header_stands_for(h: ColumnHeader, start: int, c: ColumnView) -> bool {
    &&& h.dtype == dtype_tag(c.dtype)
    &&& h.data_offset == data_place(start)
    &&& h.validity_offset == (match c.validity {
        Some(bits) => validity_place(start, c),
        None => 0,
    })
    &&& h.name_offset == name_place(start, c)
    &&& h.name_len == encode_utf8(c.name).len()
}

/// The row count that a blob states.
pub open spec fn blob_rows(blob: Seq<u8>) -> int {
    le_word(blob, 0)
}

/// The number of columns that a blob states.
pub open spec fn blob_columns(blob: Seq<u8>) -> int {
    le_word(blob, 4)
}

/// Where the header of column `i` starts in a blob.
pub open spec fn blob_row_place(blob: Seq<u8>, i: int) -> int {
    le_word(blob, 8) + COLUMN_HEADER_BYTES * i
}

/// What keeps the headers of a blob from being read, if anything.
pub open spec fn blob_problem(blob: Seq<u8>) -> Option<Seq<char>> {
    if blob.len() < BATCH_HEADER_BYTES {
        Some(
            "columnar reply too short: "@ + decimal(blob.len() as int)
                + " bytes < BatchHeader 16"@,
        )
    } else if blob_row_place(blob, blob_columns(blob)) > blob.len() {
        Some(
            "columnar reply column-table out of bounds: columns_offset="@ + decimal(
                le_word(blob, 8),
            ) + ", count="@ + decimal(blob_columns(blob)) + ", blob_len="@ + decimal(
                blob.len() as int,
            ),
        )
    } else {
        None
    }
}

/// What is said of a region of column `i` that does not lie in the blob.
pub open spec fn out_of_bounds_message(
    blob: Seq<u8>,
    i: int,
    what: Seq<char>,
    at: int,
    len: int,
) -> Seq<char> {
    "columnar reply column["@ + decimal(i) + "] "@ + what + " out of bounds: "@ + what
        + "_offset="@ + decimal(at) + ", len="@ + decimal(len) + ", blob_len="@ + decimal(
        blob.len() as int,
    )
}

/// What keeps column `i` of a blob from being read, if anything: a tag of no type, a type of no
/// fixed width, a region that does not lie in the blob, or a name that is not UTF-8.
pub open spec fn reply_problem(blob: Seq<u8>, i: int) -> Option<Seq<char>> {
    let h = blob_row_place(blob, i);
    let d = dtype_of_tag(blob[h]);
    let data_len = width(d) * blob_rows(blob);
    let bits_len = bitmap_len(blob_rows(blob));
    if !(1 <= blob[h] <= 19) {
        Some(unknown_tag_message(blob[h]))
    } else if !fixed_width(d) {
        Some(variable_width_message(d))
    } else if data_len > usize::MAX {
        Some(
            "decode column["@ + decimal(i) + "] size overflow: "@ + decimal(blob_rows(blob))
                + " × "@ + decimal(width(d)),
        )
    } else if le_word(blob, h + 4) + data_len > blob.len() {
        Some(out_of_bounds_message(blob, i, "data"@, le_word(blob, h + 4), data_len))
    } else if le_word(blob, h + 8) != 0 && le_word(blob, h + 8) + bits_len > blob.len() {
        Some(out_of_bounds_message(blob, i, "validity"@, le_word(blob, h + 8), bits_len))
    } else if le_word(blob, h + 12) + le_word(blob, h + 16) > blob.len() {
        Some(
            out_of_bounds_message(
                blob,
                i,
                "name"@,
                le_word(blob, h + 12),
                le_word(blob, h + 16),
            ),
        )
    } else if !valid_utf8(reply_name(blob, i)) {
        Some(
            "columnar reply column["@ + decimal(i) + "] name not UTF-8: "@ + utf8_error_text(
                reply_name(blob, i),
            ),
        )
    } else {
        None
    }
}

/// The bytes of the name of column `i`.
pub open spec fn reply_name(blob: Seq<u8>, i: int) -> Seq<u8> {
    let h = blob_row_place(blob, i);
    blob.subrange(le_word(blob, h + 12), le_word(blob, h + 12) + le_word(blob, h + 16))
}

/// What column `i` of a blob holds. Of a validity bitmap that is as many bytes as the row count
/// asks for.
pub open spec fn reply_column(blob: Seq<u8>, i: int) -> ColumnView {
    let h = blob_row_place(blob, i);
    let d = dtype_of_tag(blob[h]);
    ColumnView {
        name: decode_utf8(reply_name(blob, i)),
        dtype: d,
        data: blob.subrange(
            le_word(blob, h + 4),
            le_word(blob, h + 4) + width(d) * blob_rows(blob),
        ),
        validity: if le_word(blob, h + 8) == 0 {
            None
        } else {
            Some(
                blob.subrange(
                    le_word(blob, h + 8),
                    le_word(blob, h + 8) + bitmap_len(blob_rows(blob)),
                ),
            )
        },
    }
}

fn out_of_bounds(blob_len: usize, i: u64, what: &str, at: u64, len: u64, Ghost(blob): Ghost<
    Seq<u8>,
>) -> (r: AfterburnerError)
    requires
        blob_len == blob.len(),
    ensures
        r@ == ErrorView::Engine(
            out_of_bounds_message(blob, i as int, what@, at as int, len as int),
        ),
{
    let mut m = "columnar reply column[".to_owned();
    push_u64(&mut m, i);
    m.append("] ");
    m.append(what);
    m.append(" out of bounds: ");
    m.append(what);
    m.append("_offset=");
    push_u64(&mut m, at);
    m.append(", len=");
    push_u64(&mut m, len);
    m.append(", blob_len=");
    push_u64(&mut m, blob_len as u64);
    engine_error(m)
}

/// Column `i` of `blob`.
fn decode_column(blob: &[u8], i: u32) -> (r: Result<OwnedColumn, AfterburnerError>)
    requires
        blob_problem(blob@) is None,
        i < blob_columns(blob@),
    ensures
        match r {
            Ok(c) => reply_problem(blob@, i as int) is None && c@ == reply_column(blob@, i as int),
            Err(e) => reply_problem(blob@, i as int) is Some && e@ == ErrorView::Engine(
                reply_problem(blob@, i as int)->0,
            ),
        },
{
    let rows: u32 = read_u32_le(blob, 0);
    let base: u32 = read_u32_le(blob, 8);
    let len: u64 = blob.len() as u64;
    let wide: u64 = base as u64 + COLUMN_HEADER_BYTES as u64 * i as u64;
    assert(wide == blob_row_place(blob@, i as int));
    assert(wide + 20 <= blob@.len());
    let h: usize = wide as usize;
    let tag: u8 = blob[h];
    let dtype = match ColumnDtype::from_u8(tag) {
        Ok(d) => d,
        Err(e) => return Err(e),
    };
    proof {
        tags_round_trip(dtype, tag);
    }
    assert(1 <= tag <= 19);
    assert(dtype == dtype_of_tag(tag));
    let data_at: u64 = read_u32_le(blob, h + 4) as u64;
    let bits_at: u64 = read_u32_le(blob, h + 8) as u64;
    let name_at: u64 = read_u32_le(blob, h + 12) as u64;
    let name_len: u64 = read_u32_le(blob, h + 16) as u64;
    let stride: usize = match dtype.size_bytes() {
        Ok(n) => n,
        Err(e) => return Err(e),
    };
    assert(0 <= stride as int * rows as int <= 16 * 0xffff_ffff) by (nonlinear_arith)
        requires
            0 <= stride <= 16,
            0 <= rows <= 0xffff_ffff,
    ;
    let data_len: u64 = stride as u64 * rows as u64;
    assert(data_len == width(dtype) * rows);
    if data_len > usize::MAX as u64 {
        let mut m = "decode column[".to_owned();
        push_u64(&mut m, i as u64);
        m.append("] size overflow: ");
        push_u64(&mut m, rows as u64);
        m.append(" × ");
        push_u64(&mut m, stride as u64);
        return Err(engine_error(m));
    }
    if data_at + data_len > len {
        return Err(
            out_of_bounds(blob.len(), i as u64, "data", data_at, data_len, Ghost(blob@)),
        );
    }
    let data = slice_of(blob, data_at as usize, (data_at + data_len) as usize);
    let validity = if bits_at == 0 {
        None
    } else {
        let bits_len: u64 = (rows as u64 + 7) / 8;
        if bits_at + bits_len > len {
            return Err(
                out_of_bounds(blob.len(), i as u64, "validity", bits_at, bits_len, Ghost(blob@)),
            );
        }
        Some(slice_of(blob, bits_at as usize, (bits_at + bits_len) as usize))
    };
    if name_at + name_len > len {
        return Err(out_of_bounds(blob.len(), i as u64, "name", name_at, name_len, Ghost(blob@)));
    }
    let raw = slice_of(blob, name_at as usize, (name_at + name_len) as usize);
    let name = match text_from_utf8(&raw) {
        Ok(name) => name,
        Err(text) => {
            let mut m = "columnar reply column[".to_owned();
            push_u64(&mut m, i as u64);
            m.append("] name not UTF-8: ");
            m.append(&text);
            return Err(engine_error(m));
        },
    };
    Ok(OwnedColumn { name, dtype, data, validity })
}

/// Decodes a blob into columns of their own.
///
/// Fails, with an engine error that says why, where the headers do not lie in the blob, and at
/// the first column that cannot be read.
pub fn decode_batch(blob: &[u8]) -> (r: Result<ColumnarOutput, AfterburnerError>)
    ensures
        match r {
            Ok(out) => {
                &&& blob_problem(blob@) is None
                &&& out.row_count == blob_rows(blob@)
                &&& out.columns@.len() == blob_columns(blob@)
                &&& forall|i: int|
                    0 <= i < blob_columns(blob@) ==> reply_problem(blob@, i) is None && (
                    #[trigger] out.columns@[i])@ == reply_column(blob@, i)
            },
            Err(e) => {
                ||| (blob_problem(blob@) matches Some(m) && e@ == ErrorView::Engine(m))
                ||| blob_problem(blob@) is None && exists|i: int|
                    0 <= i < blob_columns(blob@) && (#[trigger] reply_problem(blob@, i) matches Some(
                        m,
                    ) && e@ == ErrorView::Engine(m)) && forall|j: int|
                        0 <= j < i ==> #[trigger] reply_problem(blob@, j) is None
            },
        },
{
    if blob.len() < BATCH_HEADER_BYTES {
        let mut m = "columnar reply too short: ".to_owned();
        push_u64(&mut m, blob.len() as u64);
        m.append(" bytes < BatchHeader 16");
        return Err(engine_error(m));
    }
    let row_count: u32 = read_u32_le(blob, 0);
    let column_count: u32 = read_u32_le(blob, 4);
    let columns_offset: u32 = read_u32_le(blob, 8);
    let table_end: u64 = columns_offset as u64 + COLUMN_HEADER_BYTES as u64 * column_count as u64;
    if table_end > blob.len() as u64 {
        let mut m = "columnar reply column-table out of bounds: columns_offset=".to_owned();
        push_u64(&mut m, columns_offset as u64);
        m.append(", count=");
        push_u64(&mut m, column_count as u64);
        m.append(", blob_len=");
        push_u64(&mut m, blob.len() as u64);
        return Err(engine_error(m));
    }
    let mut columns: Vec<OwnedColumn> = Vec::new();
    let mut i: u32 = 0;
    while i < column_count
        invariant
            i <= column_count,
            column_count == blob_columns(blob@),
            blob_problem(blob@) is None,
            columns@.len() == i,
            forall|j: int| 0 <= j < i ==> #[trigger] reply_problem(blob@, j) is None,
            forall|j: int| 0 <= j < i ==> (#[trigger] columns@[j])@ == reply_column(blob@, j),
        decreases column_count - i,
    {
        match decode_column(blob, i) {
            Ok(c) => columns.push(c),
            Err(e) => return Err(e),
        }
        i += 1;
    }
    Ok(ColumnarOutput { row_count, columns })
}

proof fn lemma_row_at(cols: Seq<ColumnView>, i: int, n: int)
    requires
        0 <= i < n <= cols.len(),
    ensures
        column_rows(cols, n).len() == 20 * n,
        column_rows(cols, n).subrange(20 * i, 20 * i + 20) == column_row(
            column_place(cols, i),
            cols[i],
        ),
    decreases n,
{
    lemma_rows_len(cols, n);
    lemma_rows_len(cols, n - 1);
    let last = column_row(column_place(cols, n - 1), cols[n - 1]);
    if i == n - 1 {
        assert(column_rows(cols, n).subrange(20 * i, 20 * i + 20) =~= last);
    } else {
        lemma_row_at(cols, i, n - 1);
        assert(column_rows(cols, n).subrange(20 * i, 20 * i + 20) =~= column_rows(
            cols,
            n - 1,
        ).subrange(20 * i, 20 * i + 20));
    }
}

proof fn lemma_part_at(cols: Seq<ColumnView>, i: int, n: int)
    requires
        0 <= i < n <= cols.len(),
    ensures
        column_place(cols, 0) <= column_place(cols, i) <= column_place(cols, i + 1)
            <= column_place(cols, n),
        column_parts(cols, n).len() == column_place(cols, n) - column_place(cols, 0),
        column_parts(cols, n).subrange(
            column_place(cols, i) - column_place(cols, 0),
            column_place(cols, i + 1) - column_place(cols, 0),
        ) == column_part(column_place(cols, i), cols[i]),
    decreases n,
{
    let base = column_place(cols, 0);
    lemma_parts_len(cols, n);
    lemma_parts_len(cols, n - 1);
    lemma_part_len(column_place(cols, n - 1), cols[n - 1]);
    let last = column_part(column_place(cols, n - 1), cols[n - 1]);
    if i == n - 1 {
        assert(column_parts(cols, n).subrange(
            column_place(cols, i) - base,
            column_place(cols, i + 1) - base,
        ) =~= last);
    } else {
        lemma_part_at(cols, i, n - 1);
        assert(column_parts(cols, n).subrange(
            column_place(cols, i) - base,
            column_place(cols, i + 1) - base,
        ) =~= column_parts(cols, n - 1).subrange(
            column_place(cols, i) - base,
            column_place(cols, i + 1) - base,
        ));
    }
}

/// The regions of a column inside its part.
proof fn lemma_part_regions(start: int, c: ColumnView)
    requires
        start >= 0,
    ensures
        column_part(start, c).len() == end_place(start, c) - start,
        column_part(start, c).subrange(
            data_place(start) - start,
            data_place(start) - start + c.data.len(),
        ) == c.data,
        c.validity matches Some(bits) ==> column_part(start, c).subrange(
            validity_place(start, c) - start,
            validity_place(start, c) - start + bits.len(),
        ) == bits,
        column_part(start, c).subrange(
            name_place(start, c) - start,
            name_place(start, c) - start + encode_utf8(c.name).len(),
        ) == encode_utf8(c.name),
{
    lemma_part_len(start, c);
    let part = column_part(start, c);
    let p1 = padding(start, 8);
    let p2 = padding(data_place(start) + c.data.len(), 8);
    assert(p1.len() == data_place(start) - start);
    assert(p2.len() == validity_place(start, c) - (data_place(start) + c.data.len()));
    assert(part.subrange(
        data_place(start) - start,
        data_place(start) - start + c.data.len(),
    ) =~= c.data);
    match c.validity {
        Some(bits) => {
            assert(validity_part(start, c).len() == name_place(start, c) - validity_place(
                start,
                c,
            ));
            assert(part.subrange(
                validity_place(start, c) - start,
                validity_place(start, c) - start + bits.len(),
            ) =~= bits);
        },
        None => {},
    }
    assert(validity_part(start, c).len() == name_place(start, c) - validity_place(start, c));
    assert(part.subrange(
        name_place(start, c) - start,
        name_place(start, c) - start + encode_utf8(c.name).len(),
    ) =~= encode_utf8(c.name));
}

/// What a column of a batch of `rows` rows comes back as: the column itself, with its bitmap cut
/// to the bytes that the rows ask for.
pub open spec fn read_back(rows: u32, c: ColumnView) -> ColumnView {
    ColumnView {
        validity: match c.validity {
            Some(bits) => Some(bits.take(bitmap_len(rows as int))),
            None => None,
        },
        ..c
    }
}

proof fn lemma_no_problem_at(rows: u32, cols: Seq<ColumnView>, from: int, i: int)
    requires
        0 <= from <= i < cols.len(),
        first_column_problem(rows, cols, from) is None,
        first_place_problem(cols, from) is None,
    ensures
        column_problem(rows, i, cols[i]) is None,
        place_problem(column_place(cols, i), cols[i]) is None,
    decreases i - from,
{
    if from < i {
        lemma_no_problem_at(rows, cols, from + 1, i);
    }
}

/// The headers of an encoded batch are read back as they were written.
proof fn lemma_headers_read_back(rows: u32, cols: Seq<ColumnView>)
    requires
        cols.len() <= u32::MAX,
    ensures
        blob_problem(blob_of(rows, cols)) is None,
        blob_rows(blob_of(rows, cols)) == rows,
        blob_columns(blob_of(rows, cols)) == cols.len(),
        le_word(blob_of(rows, cols), 8) == 16,
{
    let n = cols.len() as int;
    let blob = blob_of(rows, cols);
    lemma_rows_len(cols, n);
    lemma_parts_len(cols, n);
    assert(batch_row(rows, n).len() == 16);
    assert(blob.subrange(0, 4) =~= le_bytes(rows));
    assert(blob.subrange(4, 8) =~= le_bytes(n as u32));
    assert(blob.subrange(8, 12) =~= le_bytes(16));
    le_word_of_le_bytes(blob, 0, rows);
    le_word_of_le_bytes(blob, 4, n as u32);
    le_word_of_le_bytes(blob, 8, 16);
}

/// The row and the part of column `i` stand in the blob where its header and its places say.
proof fn lemma_column_in_blob(rows: u32, cols: Seq<ColumnView>, i: int)
    requires
        0 <= i < cols.len(),
    ensures
        16 + 20 * i + 20 <= blob_of(rows, cols).len(),
        blob_of(rows, cols).subrange(16 + 20 * i, 16 + 20 * i + 20) == column_row(
            column_place(cols, i),
            cols[i],
        ),
        0 <= column_place(cols, i) <= column_place(cols, i + 1) <= blob_of(rows, cols).len(),
        blob_of(rows, cols).subrange(column_place(cols, i), column_place(cols, i + 1))
            == column_part(column_place(cols, i), cols[i]),
{
    let n = cols.len() as int;
    let blob = blob_of(rows, cols);
    lemma_row_at(cols, i, n);
    lemma_part_at(cols, i, n);
    assert(batch_row(rows, n).len() == 16);
    assert(blob.subrange(16 + 20 * i, 16 + 20 * i + 20) =~= column_rows(cols, n).subrange(
        20 * i,
        20 * i + 20,
    ));
    let base = column_place(cols, 0);
    assert(blob.subrange(column_place(cols, i), column_place(cols, i + 1)) =~= column_parts(
        cols,
        n,
    ).subrange(column_place(cols, i) - base, column_place(cols, i + 1) - base));
}

proof fn lemma_word_in_row(blob: Seq<u8>, at: int, row: Seq<u8>, k: int, v: u32)
    requires
        0 <= at,
        at + row.len() <= blob.len(),
        blob.subrange(at, at + row.len()) == row,
        0 <= k,
        k + 4 <= row.len(),
        row.subrange(k, k + 4) == le_bytes(v),
    ensures
        le_word(blob, at + k) == v,
{
    assert(blob.subrange(at + k, at + k + 4) =~= row.subrange(k, k + 4));
    le_word_of_le_bytes(blob, at + k, v);
}

proof fn lemma_region(blob: Seq<u8>, at: int, part: Seq<u8>, from: int, to: int)
    requires
        0 <= at,
        at + part.len() <= blob.len(),
        blob.subrange(at, at + part.len()) == part,
        0 <= from <= to <= part.len(),
    ensures
        blob.subrange(at + from, at + to) == part.subrange(from, to),
{
    assert(blob.subrange(at + from, at + to) =~= part.subrange(from, to));
}

/// The header of column `i` is read back as it was written.
proof fn lemma_row_reads_back(rows: u32, cols: Seq<ColumnView>, i: int)
    requires
        cols.len() <= u32::MAX,
        0 <= i < cols.len(),
        place_problem(column_place(cols, i), cols[i]) is None,
    ensures
        blob_row_place(blob_of(rows, cols), i) == 16 + 20 * i,
        blob_of(rows, cols)[16 + 20 * i] == dtype_tag(cols[i].dtype),
        le_word(blob_of(rows, cols), 16 + 20 * i + 4) == data_place(column_place(cols, i)),
        le_word(blob_of(rows, cols), 16 + 20 * i + 8) == (match cols[i].validity {
            Some(bits) => validity_place(column_place(cols, i), cols[i]),
            None => 0,
        }),
        le_word(blob_of(rows, cols), 16 + 20 * i + 12) == name_place(
            column_place(cols, i),
            cols[i],
        ),
        le_word(blob_of(rows, cols), 16 + 20 * i + 16) == encode_utf8(cols[i].name).len(),
{
    let blob = blob_of(rows, cols);
    let c = cols[i];
    let start = column_place(cols, i);
    let row = column_row(start, c);
    let h = 16 + 20 * i;
    lemma_headers_read_back(rows, cols);
    lemma_column_in_blob(rows, cols, i);
    lemma_part_len(start, c);
    assert(row.len() == 20);
    assert(row[0] == dtype_tag(c.dtype));
    assert(blob[h] == blob.subrange(h, h + 20)[0]);
    let v = match c.validity {
        Some(bits) => validity_place(start, c) as u32,
        None => 0u32,
    };
    let name_len = encode_utf8(c.name).len() as u32;
    assert(row.subrange(4, 8) =~= le_bytes(data_place(start) as u32));
    assert(row.subrange(8, 12) =~= le_bytes(v));
    assert(row.subrange(12, 16) =~= le_bytes(name_place(start, c) as u32));
    assert(row.subrange(16, 20) =~= le_bytes(name_len));
    lemma_word_in_row(blob, h, row, 4, data_place(start) as u32);
    lemma_word_in_row(blob, h, row, 8, v);
    lemma_word_in_row(blob, h, row, 12, name_place(start, c) as u32);
    lemma_word_in_row(blob, h, row, 16, name_len);
}

/// The regions of column `i` stand in the blob at their places.
proof fn lemma_regions_in_blob(rows: u32, cols: Seq<ColumnView>, i: int)
    requires
        0 <= i < cols.len(),
    ensures
        ({
            let blob = blob_of(rows, cols);
            let c = cols[i];
            let start = column_place(cols, i);
            let d = data_place(start);
            let n = name_place(start, c);
            let v = validity_place(start, c);
            &&& 16 <= d && d + c.data.len() <= blob.len()
            &&& blob.subrange(d, d + c.data.len()) == c.data
            &&& 0 <= n && n + encode_utf8(c.name).len() <= blob.len()
            &&& blob.subrange(n, n + encode_utf8(c.name).len()) == encode_utf8(c.name)
            &&& c.validity matches Some(bits) ==> 16 <= v && v + bits.len() <= blob.len()
                && blob.subrange(v, v + bits.len()) == bits
        }),
{
    let blob = blob_of(rows, cols);
    let c = cols[i];
    let start = column_place(cols, i);
    let part = column_part(start, c);
    lemma_column_in_blob(rows, cols, i);
    lemma_parts_len(cols, i);
    lemma_part_len(start, c);
    lemma_part_regions(start, c);
    let d = data_place(start) - start;
    let n = name_place(start, c) - start;
    let v = validity_place(start, c) - start;
    lemma_region(blob, start, part, d, d + c.data.len());
    lemma_region(blob, start, part, n, n + encode_utf8(c.name).len());
    if let Some(bits) = c.validity {
        lemma_region(blob, start, part, v, v + bits.len());
    }
}

proof fn lemma_column_reads_back(rows: u32, cols: Seq<ColumnView>, i: int)
    requires
        encode_problem(rows, cols) is None,
        0 <= i < cols.len(),
    ensures
        reply_problem(blob_of(rows, cols), i) is None,
        reply_column(blob_of(rows, cols), i) == read_back(rows, cols[i]),
{
    let blob = blob_of(rows, cols);
    let c = cols[i];
    let start = column_place(cols, i);
    let name = encode_utf8(c.name);
    lemma_no_problem_at(rows, cols, 0, i);
    lemma_headers_read_back(rows, cols);
    lemma_row_reads_back(rows, cols, i);
    lemma_regions_in_blob(rows, cols, i);
    tags_round_trip(c.dtype, 0);
    assert(reply_name(blob, i) == name);
    vstd::utf8::encode_utf8_valid_utf8(c.name);
    vstd::utf8::encode_utf8_decode_utf8(c.name);
    assert(c.data.len() == width(c.dtype) * rows);
    if let Some(bits) = c.validity {
        let at = validity_place(start, c);
        let len = bitmap_len(rows as int);
        assert(blob.subrange(at, at + len) =~= blob.subrange(at, at + bits.len()).take(len));
    }
    assert(reply_column(blob, i) =~= read_back(rows, c));
}

/// Decoding the blob of a batch that can be encoded gives the batch back: the row count, and each
/// column with its name, type, data and validity bits.
pub proof fn decoding_undoes_encoding(rows: u32, cols: Seq<ColumnView>)
    requires
        encode_problem(rows, cols) is None,
    ensures
        blob_problem(blob_of(rows, cols)) is None,
        blob_rows(blob_of(rows, cols)) == rows,
        blob_columns(blob_of(rows, cols)) == cols.len(),
        forall|i: int|
            0 <= i < cols.len() ==> {
                &&& reply_problem(blob_of(rows, cols), i) is None
                &&& #[trigger] reply_column(blob_of(rows, cols), i) == read_back(rows, cols[i])
            },
{
    lemma_headers_read_back(rows, cols);
    assert forall|i: int| 0 <= i < cols.len() implies reply_problem(blob_of(rows, cols), i) is None
        && #[trigger] reply_column(blob_of(rows, cols), i) == read_back(rows, cols[i]) by {
        lemma_column_reads_back(rows, cols, i);
    }
}

/// The data and the bitmap of every column of a batch start on multiples of eight, and the
/// regions of a column lie inside the blob, one behind the other and behind those of the columns
/// before it.
pub proof fn regions_are_aligned_and_apart(rows: u32, cols: Seq<ColumnView>, i: int)
    requires
        0 <= i < cols.len(),
    ensures
        data_place(column_place(cols, i)) % 8 == 0,
        validity_place(column_place(cols, i), cols[i]) % 8 == 0,
        column_place(cols, 0) <= column_place(cols, i) <= data_place(column_place(cols, i)),
        data_place(column_place(cols, i)) + cols[i].data.len() <= validity_place(
            column_place(cols, i),
            cols[i],
        ),
        cols[i].validity matches Some(bits) ==> validity_place(column_place(cols, i), cols[i])
            + bits.len() <= name_place(column_place(cols, i), cols[i]),
        name_place(column_place(cols, i), cols[i]) + encode_utf8(cols[i].name).len()
            <= column_place(cols, i + 1) <= blob_of(rows, cols).len(),
{
    lemma_column_in_blob(rows, cols, i);
    lemma_parts_len(cols, i);
    lemma_part_len(column_place(cols, i), cols[i]);
    lemma_aligned_up(column_place(cols, i), 8);
    lemma_aligned_up(data_place(column_place(cols, i)) + cols[i].data.len(), 8);
}

/// What each type takes per row, and which types a batch may hold: numbers, truth values, days and
/// timestamps take the bytes that their names say; what takes sixteen bytes, or no fixed number, is
/// in no batch.
pub proof fn types_take_their_bytes(d: ColumnDtype)
    ensures
        d is Bool || d is Int8 || d is UInt8 ==> fixed_width(d) && supported(d) && width(d) == 1,
        d is Int16 || d is UInt16 ==> fixed_width(d) && supported(d) && width(d) == 2,
        d is Int32 || d is UInt32 || d is Float32 || d is Date32 ==> fixed_width(d) && supported(d)
            && width(d) == 4,
        d is Int64 || d is UInt64 || d is Float64 || d is Timestamp ==> fixed_width(d) && supported(
            d,
        ) && width(d) == 8,
        d is Decimal128 || d is Interval || d is Uuid ==> fixed_width(d) && !supported(d) && width(d)
            == 16,
        d is Utf8 || d is Bytea || d is Jsonb ==> !fixed_width(d) && !supported(d),
{
}

/// The tags are fixed for ever: they count the types from one on, in this order.
pub proof fn tags_are_fixed(d: ColumnDtype)
    ensures
        d is Bool <==> dtype_tag(d) == 1,
        d is Int8 <==> dtype_tag(d) == 2,
        d is Int16 <==> dtype_tag(d) == 3,
        d is Int32 <==> dtype_tag(d) == 4,
        d is Int64 <==> dtype_tag(d) == 5,
        d is UInt8 <==> dtype_tag(d) == 6,
        d is UInt16 <==> dtype_tag(d) == 7,
        d is UInt32 <==> dtype_tag(d) == 8,
        d is UInt64 <==> dtype_tag(d) == 9,
        d is Float32 <==> dtype_tag(d) == 10,
        d is Float64 <==> dtype_tag(d) == 11,
        d is Utf8 <==> dtype_tag(d) == 12,
        d is Date32 <==> dtype_tag(d) == 13,
        d is Timestamp <==> dtype_tag(d) == 14,
        d is Decimal128 <==> dtype_tag(d) == 15,
        d is Interval <==> dtype_tag(d) == 16,
        d is Uuid <==> dtype_tag(d) == 17,
        d is Bytea <==> dtype_tag(d) == 18,
        d is Jsonb <==> dtype_tag(d) == 19,
{
}

/// Whether the bit of row `row` is set in a bitmap: bit `row % 8`, the least significant first, of
/// byte `row / 8`.
pub open spec fn row_bit(bits: Seq<u8>, row: int) -> bool {
    (bits[row / 8] >> ((row % 8) as u8)) & 1u8 == 1u8
}

/// A decoded bitmap has a bit for every row and no byte more than that takes.
pub proof fn decoded_bitmap_has_a_bit_for_each_row(blob: Seq<u8>, i: int)
    requires
        blob_problem(blob) is None,
        0 <= i < blob_columns(blob),
        reply_problem(blob, i) is None,
    ensures
        reply_column(blob, i).validity matches Some(bits) ==> {
            &&& 8 * bits.len() >= blob_rows(blob)
            &&& 8 * (bits.len() - 1) < blob_rows(blob)
        },
{
}

/// The validity of every row survives encoding and decoding: the decoded bitmap has a bit for each
/// row, and it is the bit that was encoded; and a column without a bitmap is decoded without one.
pub proof fn validity_of_each_row_is_read_back(rows: u32, cols: Seq<ColumnView>, i: int, row: int)
    requires
        encode_problem(rows, cols) is None,
        0 <= i < cols.len(),
        0 <= row < rows,
    ensures
        cols[i].validity is Some <==> reply_column(blob_of(rows, cols), i).validity is Some,
        cols[i].validity matches Some(bits) ==> {
            let back = reply_column(blob_of(rows, cols), i).validity->0;
            &&& 8 * back.len() >= rows
            &&& 8 * (back.len() - 1) < rows
            &&& row / 8 < back.len()
            &&& row / 8 < bits.len()
            &&& row_bit(back, row) == row_bit(bits, row)
        },
{
    decoding_undoes_encoding(rows, cols);
    lemma_no_problem_at(rows, cols, 0, i);
    assert(reply_column(blob_of(rows, cols), i) == read_back(rows, cols[i]));
}

/// Name, type and data of every column survive encoding and decoding.
pub proof fn columns_are_read_back(rows: u32, cols: Seq<ColumnView>, i: int)
    requires
        encode_problem(rows, cols) is None,
        0 <= i < cols.len(),
    ensures
        reply_column(blob_of(rows, cols), i).name == cols[i].name,
        reply_column(blob_of(rows, cols), i).dtype == cols[i].dtype,
        reply_column(blob_of(rows, cols), i).data == cols[i].data,
{
    decoding_undoes_encoding(rows, cols);
    assert(reply_column(blob_of(rows, cols), i) == read_back(rows, cols[i]));
}

proof fn lemma_problem_found(rows: u32, cols: Seq<ColumnView>, from: int, i: int)
    requires
        0 <= from <= i < cols.len(),
        column_problem(rows, i, cols[i]) is Some,
    ensures
        first_column_problem(rows, cols, from) is Some,
    decreases i - from,
{
    if from < i {
        lemma_problem_found(rows, cols, from + 1, i);
    }
}

/// A batch is refused where a bitmap has fewer bits than there are rows.
pub proof fn short_bitmap_is_refused(rows: u32, cols: Seq<ColumnView>, i: int)
    requires
        0 <= i < cols.len(),
        cols[i].validity matches Some(bits) && 8 * bits.len() < rows,
    ensures
        encode_problem(rows, cols) is Some,
{
    lemma_problem_found(rows, cols, 0, i);
}

/// The bytes that one row of a type takes which a batch may hold, and nothing for another type.
pub open spec fn row_bytes(d: ColumnDtype) -> Option<int> {
    if d is Bool || d is Int8 || d is UInt8 {
        Some(1)
    } else if d is Int16 || d is UInt16 {
        Some(2)
    } else if d is Int32 || d is UInt32 || d is Float32 || d is Date32 {
        Some(4)
    } else if d is Int64 || d is UInt64 || d is Float64 || d is Timestamp {
        Some(8)
    } else {
        None
    }
}

/// A batch is refused where a column is of a type that no batch may hold, or where its data does not
/// have exactly the bytes that its rows take.
pub proof fn ill_formed_column_is_refused(rows: u32, cols: Seq<ColumnView>, i: int)
    requires
        0 <= i < cols.len(),
        match row_bytes(cols[i].dtype) {
            Some(n) => cols[i].data.len() != n * rows,
            None => true,
        },
    ensures
        encode_problem(rows, cols) is Some,
{
    lemma_problem_found(rows, cols, 0, i);
}

proof fn lemma_no_column_problem(rows: u32, cols: Seq<ColumnView>, from: int)
    requires
        0 <= from <= cols.len(),
        forall|i: int| from <= i < cols.len() ==> column_problem(rows, i, #[trigger] cols[i]) is None,
    ensures
        first_column_problem(rows, cols, from) is None,
    decreases cols.len() - from,
{
    if from < cols.len() {
        lemma_no_column_problem(rows, cols, from + 1);
    }
}

proof fn lemma_no_place_problem(rows: u32, cols: Seq<ColumnView>, from: int)
    requires
        0 <= from <= cols.len(),
        blob_of(rows, cols).len() <= u32::MAX,
    ensures
        first_place_problem(cols, from) is None,
    decreases cols.len() - from,
{
    if from < cols.len() {
        lemma_column_in_blob(rows, cols, from);
        lemma_parts_len(cols, from);
        lemma_part_len(column_place(cols, from), cols[from]);
        lemma_no_place_problem(rows, cols, from + 1);
    }
}

/// A batch is encoded where every column is of a type that a batch may hold, has exactly the bytes
/// that its rows take and a bit for each row in its bitmap, and the blob can be addressed.
pub proof fn well_formed_batch_is_encoded(rows: u32, cols: Seq<ColumnView>)
    requires
        cols.len() <= u32::MAX,
        blob_of(rows, cols).len() <= u32::MAX,
        forall|i: int|
            0 <= i < cols.len() ==> {
                &&& row_bytes((#[trigger] cols[i]).dtype) is Some
                &&& cols[i].data.len() == row_bytes(cols[i].dtype)->0 * rows
                &&& cols[i].data.len() <= usize::MAX
                &&& cols[i].validity matches Some(bits) ==> 8 * bits.len() >= rows
            },
    ensures
        encode_problem(rows, cols) is None,
{
    assert forall|i: int| 0 <= i < cols.len() implies column_problem(
        rows,
        i,
        #[trigger] cols[i],
    ) is None by {
        types_take_their_bytes(cols[i].dtype);
    }
    lemma_no_column_problem(rows, cols, 0);
    lemma_no_place_problem(rows, cols, 0);
}

/// The number in the four bytes of `s` from `at` on, the least significant first.
pub open spec fn number_at(s: Seq<u8>, at: int) -> int {
    s[at] + 256 * s[at + 1] + 65536 * s[at + 2] + 16777216 * s[at + 3]
}

/// The guest finds every part of a blob where the headers say: rows, columns and the start of the
/// table in the first sixteen bytes; then twenty bytes for each column, with its tag, where its data
/// starts, where its bitmap starts or zero, and where its name starts and how long it is.
pub proof fn guest_finds_the_columns(rows: u32, cols: Seq<ColumnView>, i: int)
    requires
        encode_problem(rows, cols) is None,
        0 <= i < cols.len(),
    ensures
        ({
            let blob = blob_of(rows, cols);
            let h = 16 + 20 * i;
            let data = number_at(blob, h + 4);
            let bitmap = number_at(blob, h + 8);
            let name = number_at(blob, h + 12);
            let name_len = number_at(blob, h + 16);
            &&& number_at(blob, 0) == rows
            &&& number_at(blob, 4) == cols.len()
            &&& number_at(blob, 8) == 16
            &&& number_at(blob, 12) == 0
            &&& blob[h] == dtype_tag(cols[i].dtype)
            &&& blob[h + 1] == 0 && blob[h + 2] == 0 && blob[h + 3] == 0
            &&& data % 8 == 0
            &&& 0 <= data && data + cols[i].data.len() <= blob.len()
            &&& blob.subrange(data, data + cols[i].data.len()) == cols[i].data
            &&& match cols[i].validity {
                Some(bits) => {
                    &&& bitmap % 8 == 0
                    &&& 0 < bitmap && bitmap + bits.len() <= blob.len()
                    &&& blob.subrange(bitmap, bitmap + bits.len()) == bits
                },
                None => bitmap == 0,
            }
            &&& 0 <= name && name + name_len <= blob.len()
            &&& blob.subrange(name, name + name_len) == encode_utf8(cols[i].name)
        }),
{
    let blob = blob_of(rows, cols);
    let n = cols.len() as int;
    let h = 16 + 20 * i;
    lemma_no_problem_at(rows, cols, 0, i);
    lemma_headers_read_back(rows, cols);
    lemma_row_reads_back(rows, cols, i);
    lemma_regions_in_blob(rows, cols, i);
    lemma_column_in_blob(rows, cols, i);
    regions_are_aligned_and_apart(rows, cols, i);
    lemma_rows_len(cols, n);
    assert(batch_row(rows, n).len() == 16);
    assert(blob.subrange(12, 16) =~= le_bytes(0));
    assert(blob[12] == blob.subrange(12, 16)[0] && blob[13] == blob.subrange(12, 16)[1] && blob[14]
        == blob.subrange(12, 16)[2] && blob[15] == blob.subrange(12, 16)[3]);
    let row = blob.subrange(h, h + 20);
    assert(row[1] == 0 && row[2] == 0 && row[3] == 0);
    assert(blob[h + 1] == row[1] && blob[h + 2] == row[2] && blob[h + 3] == row[3]);
}

/// A reply is read by the same headers: each column is what lies in the blob where its header says,
/// as many bytes as its rows take.
pub proof fn reply_is_what_lies_in_the_blob(blob: Seq<u8>, i: int)
    requires
        blob_problem(blob) is None,
        0 <= i < number_at(blob, 4),
        reply_problem(blob, i) is None,
    ensures
        blob_rows(blob) == number_at(blob, 0),
        blob_columns(blob) == number_at(blob, 4),
        ({
            let h = number_at(blob, 8) + 20 * i;
            let c = reply_column(blob, i);
            let data = number_at(blob, h + 4);
            let bitmap = number_at(blob, h + 8);
            let name = number_at(blob, h + 12);
            &&& 1 <= blob[h] <= 19
            &&& dtype_tag(c.dtype) == blob[h]
            &&& row_bytes(c.dtype) matches Some(n) ==> c.data.len() == n * number_at(blob, 0)
            &&& data + c.data.len() <= blob.len()
            &&& c.data == blob.subrange(data, data + c.data.len())
            &&& c.validity is Some <==> bitmap != 0
            &&& c.validity matches Some(bits) ==> bitmap + bits.len() <= blob.len() && bits
                == blob.subrange(bitmap, bitmap + bits.len())
            &&& name + number_at(blob, h + 16) <= blob.len()
            &&& c.name == decode_utf8(blob.subrange(name, name + number_at(blob, h + 16)))
        }),
{
    let h = blob_row_place(blob, i);
    tags_round_trip(ColumnDtype::Bool, blob[h]);
    let d = dtype_of_tag(blob[h]);
    types_take_their_bytes(d);
    let c = reply_column(blob, i);
    assert(0 <= width(d) * blob_rows(blob)) by (nonlinear_arith)
        requires
            0 <= width(d),
            0 <= blob_rows(blob),
    ;
    assert(c.data.len() == width(d) * blob_rows(blob));
}

/// A reply is decoded where its headers lie in it, and each of its columns where the tag is that of a
/// type which a batch may hold and the regions lie in the blob; otherwise it is refused. `bits` is
/// how many bytes the rows' bits take.
pub proof fn reply_is_decoded_where_its_regions_lie_in_it(
    blob: Seq<u8>,
    i: int,
    d: ColumnDtype,
    bits: int,
)
    requires
        8 * bits >= number_at(blob, 0),
        8 * (bits - 1) < number_at(blob, 0),
        row_bytes(d) matches Some(n) && n * number_at(blob, 0) <= usize::MAX,
    ensures
        blob_problem(blob) is None <==> blob.len() >= 16 && number_at(blob, 8) + 20 * number_at(
            blob,
            4,
        ) <= blob.len(),
        ({
            let h = number_at(blob, 8) + 20 * i;
            let rows = number_at(blob, 0);
            let data = number_at(blob, h + 4);
            let bitmap = number_at(blob, h + 8);
            let name = number_at(blob, h + 12);
            let name_len = number_at(blob, h + 16);
            &&& !(1 <= blob[h] <= 19) ==> reply_problem(blob, i) is Some
            &&& dtype_tag(d) == blob[h] ==> (reply_problem(blob, i) is None <==> {
                &&& data + row_bytes(d)->0 * rows <= blob.len()
                &&& bitmap != 0 ==> bitmap + bits <= blob.len()
                &&& name + name_len <= blob.len()
                &&& valid_utf8(blob.subrange(name, name + name_len))
            })
        }),
{
    assert(number_at(blob, 8) + 20 * i == blob_row_place(blob, i));
    tags_round_trip(d, 0);
    types_take_their_bytes(d);
    assert(bits == bitmap_len(number_at(blob, 0)));
}

/// Messages call every type by its own name.
pub proof fn types_have_their_names(d: ColumnDtype)
    ensures
        d is Bool ==> dtype_name(d) == "Bool"@,
        d is Int8 ==> dtype_name(d) == "Int8"@,
        d is Int16 ==> dtype_name(d) == "Int16"@,
        d is Int32 ==> dtype_name(d) == "Int32"@,
        d is Int64 ==> dtype_name(d) == "Int64"@,
        d is UInt8 ==> dtype_name(d) == "UInt8"@,
        d is UInt16 ==> dtype_name(d) == "UInt16"@,
        d is UInt32 ==> dtype_name(d) == "UInt32"@,
        d is UInt64 ==> dtype_name(d) == "UInt64"@,
        d is Float32 ==> dtype_name(d) == "Float32"@,
        d is Float64 ==> dtype_name(d) == "Float64"@,
        d is Utf8 ==> dtype_name(d) == "Utf8"@,
        d is Date32 ==> dtype_name(d) == "Date32"@,
        d is Timestamp ==> dtype_name(d) == "Timestamp"@,
        d is Decimal128 ==> dtype_name(d) == "Decimal128"@,
        d is Interval ==> dtype_name(d) == "Interval"@,
        d is Uuid ==> dtype_name(d) == "Uuid"@,
        d is Bytea ==> dtype_name(d) == "Bytea"@,
        d is Jsonb ==> dtype_name(d) == "Jsonb"@,
{
}

} // verus!
