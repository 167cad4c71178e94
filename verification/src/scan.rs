//! The chunked scan stage: a cursor advances monotonically over a bound
//! result set, materializing up to a fixed number of rows per step into
//! columnar output. Every cell is coerced by the column's declared type;
//! a missing key or a mismatched variant resolves to the type's default
//! and never fails the scan. A zero-length chunk signals exhaustion.

use vstd::prelude::*;
use crate::json::double_bits_of_int;
use crate::json::int_to_double_bits;
use crate::pipeline::BoundResultSet;
use crate::rows::Row;
use crate::rows::row_lookup;
use crate::schema::ColumnKind;
use crate::schema::ColumnModel;
use crate::schema::column_kind;
use crate::schema::kind_of;
use crate::value::DynamicValue;
use crate::value::ValueModel;
use crate::value::value_text;
use crate::value::value_to_text;

verus! {

/// Rows per scan step, matching the host's batch size convention.
pub const CHUNK_SIZE: usize = 2048;

/// One materialized output column of a chunk. Numeric double columns hold
/// IEEE-754 bit patterns.
#[derive(Debug, PartialEq)]
pub enum ColumnData {
    Text(Vec<String>),
    Double(Vec<u64>),
    Bigint(Vec<i64>),
}

/// One materialized chunk: `len` rows across the schema's columns, in
/// declaration order.
pub struct Chunk {
    pub len: usize,
    pub columns: Vec<ColumnData>,
}

/// A mutable position into a bound result set, owned by one scan session;
/// it advances monotonically and never exceeds the row count.
pub struct ScanCursor {
    position: usize,
}

impl ScanCursor {
    /// The current position.
    pub closed spec fn pos(&self) -> int {
        self.position as int
    }

    /// A fresh cursor at the first row.
    pub fn new() -> (r: Self)
        ensures
            r.pos() == 0,
    {
        ScanCursor { position: 0 }
    }

    /// The current position, for inspection.
    pub fn position(&self) -> (r: usize)
        ensures
            r == self.pos(),
    {
        self.position
    }
}

/// Varchar coercion is strict: a string value carries over, and a missing
/// value or any other variant resolves to the type's default, the empty
/// text.
pub open spec fn coerce_varchar(v: Option<ValueModel>) -> Seq<char> {
    match v {
        Some(ValueModel::Text(s)) => s,
        _ => Seq::<char>::empty(),
    }
}

/// Text coercion for `date` and unknown declared types: the universal
/// stringification rule applied per variant; a missing value is the empty
/// text.
pub open spec fn coerce_text(v: Option<ValueModel>) -> Seq<char> {
    match v {
        Some(m) => value_text(m),
        None => Seq::<char>::empty(),
    }
}

/// Double coercion: a float's bits pass through, an integer converts to the
/// nearest double, and anything else (including a missing value) defaults
/// to zero, whose bit pattern is zero.
pub open spec fn coerce_double(v: Option<ValueModel>) -> u64 {
    match v {
        Some(ValueModel::Float { bits, .. }) => bits,
        Some(ValueModel::Int(i)) => double_bits_of_int(i),
        _ => 0,
    }
}

/// Bigint coercion: an integer passes through, a float truncates, and
/// anything else (including a missing value) defaults to zero.
pub open spec fn coerce_bigint(v: Option<ValueModel>) -> i64 {
    match v {
        Some(ValueModel::Int(i)) => i,
        Some(ValueModel::Float { trunc, .. }) => trunc,
        _ => 0,
    }
}

/// The value a row yields for a column name.
pub open spec fn cell_of(rows: Seq<Row>, i: int, name: Seq<char>) -> Option<ValueModel> {
    row_lookup(rows[i]@, name)
}

/// One output column holds exactly the coercions of the rows in
/// `[start, start + len)` for its schema column.
pub open spec fn column_matches(
    col: ColumnData,
    schema: ColumnModel,
    rows: Seq<Row>,
    start: int,
    len: int,
) -> bool {
    match kind_of(schema.data_type) {
        ColumnKind::Varchar => col matches ColumnData::Text(cells) && cells@.len() == len && (
        forall|i: int|
            0 <= i < len ==> (#[trigger] cells@[i])@ == coerce_varchar(
                cell_of(rows, start + i, schema.name),
            )),
        ColumnKind::Text => col matches ColumnData::Text(cells) && cells@.len() == len && (forall|
            i: int,
        |
            0 <= i < len ==> (#[trigger] cells@[i])@ == coerce_text(
                cell_of(rows, start + i, schema.name),
            )),
        ColumnKind::Double => col matches ColumnData::Double(cells) && cells@.len() == len && (
        forall|i: int|
            0 <= i < len ==> #[trigger] cells@[i] == coerce_double(
                cell_of(rows, start + i, schema.name),
            )),
        ColumnKind::Bigint => col matches ColumnData::Bigint(cells) && cells@.len() == len && (
        forall|i: int|
            0 <= i < len ==> #[trigger] cells@[i] == coerce_bigint(
                cell_of(rows, start + i, schema.name),
            )),
    }
}

/// Applies the strict varchar coercion to one looked-up cell.
fn coerce_varchar_cell(v: Option<&DynamicValue>) -> (r: String)
    ensures
        r@ == coerce_varchar(match v {
            Some(d) => Some(d@),
            None => None,
        }),
{
    match v {
        Some(DynamicValue::String(s)) => s.clone(),
        _ => String::new(),
    }
}

/// Applies the text coercion to one looked-up cell.
fn coerce_text_cell(v: Option<&DynamicValue>) -> (r: String)
    ensures
        r@ == coerce_text(match v {
            Some(d) => Some(d@),
            None => None,
        }),
{
    match v {
        Some(d) => value_to_text(d),
        None => String::new(),
    }
}

/// Applies the double coercion to one looked-up cell.
fn coerce_double_cell(v: Option<&DynamicValue>) -> (r: u64)
    ensures
        r == coerce_double(match v {
            Some(d) => Some(d@),
            None => None,
        }),
{
    match v {
        Some(DynamicValue::Float(f)) => f.bits,
        Some(DynamicValue::Integer(i)) => int_to_double_bits(*i),
        _ => 0,
    }
}

/// Applies the bigint coercion to one looked-up cell.
fn coerce_bigint_cell(v: Option<&DynamicValue>) -> (r: i64)
    ensures
        r == coerce_bigint(match v {
            Some(d) => Some(d@),
            None => None,
        }),
{
    match v {
        Some(DynamicValue::Integer(i)) => *i,
        Some(DynamicValue::Float(f)) => f.trunc,
        _ => 0,
    }
}

/// One scan step: materializes `min(CHUNK_SIZE, remaining)` rows into one
/// column per schema entry, in declaration order, and advances the cursor
/// by exactly that many rows. A zero-length chunk signals exhaustion.
pub fn scan_step(cursor: &mut ScanCursor, set: &BoundResultSet) -> (r: Chunk)
    requires
        old(cursor).pos() <= set.rows@.len(),
    ensures
        r.len == if set.rows@.len() - old(cursor).pos() < CHUNK_SIZE {
            set.rows@.len() - old(cursor).pos()
        } else {
            CHUNK_SIZE as int
        },
        final(cursor).pos() == old(cursor).pos() + r.len,
        final(cursor).pos() <= set.rows@.len(),
        r.columns@.len() == set.schema@.len(),
        forall|j: int|
            0 <= j < set.schema@.len() ==> column_matches(
                #[trigger] r.columns@[j],
                set.schema@[j]@,
                set.rows@,
                old(cursor).pos(),
                r.len as int,
            ),
{
    let start = cursor.position;
    let remaining = set.rows.len() - start;
    let chunk_len = if remaining < CHUNK_SIZE {
        remaining
    } else {
        CHUNK_SIZE
    };
    let mut columns: Vec<ColumnData> = Vec::new();
    let mut j: usize = 0;
    while j < set.schema.len()
        invariant
            j <= set.schema.len(),
            columns@.len() == j,
            start + chunk_len <= set.rows@.len(),
            set.rows@.len() <= usize::MAX,
            forall|j2: int|
                0 <= j2 < j ==> column_matches(
                    #[trigger] columns@[j2],
                    set.schema@[j2]@,
                    set.rows@,
                    start as int,
                    chunk_len as int,
                ),
        decreases set.schema.len() - j,
    {
        let name = set.schema[j].name.as_str();
        let col = match column_kind(set.schema[j].data_type.as_str()) {
            ColumnKind::Varchar => {
                let mut cells: Vec<String> = Vec::new();
                let mut i: usize = 0;
                while i < chunk_len
                    invariant
                        i <= chunk_len,
                        start + chunk_len <= set.rows@.len(),
                        set.rows@.len() <= usize::MAX,
                        cells@.len() == i,
                        forall|i2: int|
                            0 <= i2 < i ==> (#[trigger] cells@[i2])@ == coerce_varchar(
                                cell_of(set.rows@, start + i2, name@),
                            ),
                    decreases chunk_len - i,
                {
                    cells.push(coerce_varchar_cell(set.rows[start + i].get(name)));
                    i += 1;
                }
                ColumnData::Text(cells)
            },
            ColumnKind::Text => {
                let mut cells: Vec<String> = Vec::new();
                let mut i: usize = 0;
                while i < chunk_len
                    invariant
                        i <= chunk_len,
                        start + chunk_len <= set.rows@.len(),
                        set.rows@.len() <= usize::MAX,
                        cells@.len() == i,
                        forall|i2: int|
                            0 <= i2 < i ==> (#[trigger] cells@[i2])@ == coerce_text(
                                cell_of(set.rows@, start + i2, name@),
                            ),
                    decreases chunk_len - i,
                {
                    cells.push(coerce_text_cell(set.rows[start + i].get(name)));
                    i += 1;
                }
                ColumnData::Text(cells)
            },
            ColumnKind::Double => {
                let mut cells: Vec<u64> = Vec::new();
                let mut i: usize = 0;
                while i < chunk_len
                    invariant
                        i <= chunk_len,
                        start + chunk_len <= set.rows@.len(),
                        set.rows@.len() <= usize::MAX,
                        cells@.len() == i,
                        forall|i2: int|
                            0 <= i2 < i ==> #[trigger] cells@[i2] == coerce_double(
                                cell_of(set.rows@, start + i2, name@),
                            ),
                    decreases chunk_len - i,
                {
                    cells.push(coerce_double_cell(set.rows[start + i].get(name)));
                    i += 1;
                }
                ColumnData::Double(cells)
            },
            ColumnKind::Bigint => {
                let mut cells: Vec<i64> = Vec::new();
                let mut i: usize = 0;
                while i < chunk_len
                    invariant
                        i <= chunk_len,
                        start + chunk_len <= set.rows@.len(),
                        set.rows@.len() <= usize::MAX,
                        cells@.len() == i,
                        forall|i2: int|
                            0 <= i2 < i ==> #[trigger] cells@[i2] == coerce_bigint(
                                cell_of(set.rows@, start + i2, name@),
                            ),
                    decreases chunk_len - i,
                {
                    cells.push(coerce_bigint_cell(set.rows[start + i].get(name)));
                    i += 1;
                }
                ColumnData::Bigint(cells)
            },
        };
        columns.push(col);
        j += 1;
    }
    cursor.position = start + chunk_len;
    Chunk { len: chunk_len, columns }
}

/// The sizes of the non-empty chunks a scan of `n` remaining rows emits,
/// before the final zero-length chunk.
pub open spec fn chunk_sizes(n: nat) -> Seq<int>
    decreases n,
{
    if n == 0 {
        Seq::<int>::empty()
    } else if n < CHUNK_SIZE {
        seq![n as int]
    } else {
        seq![CHUNK_SIZE as int] + chunk_sizes((n - CHUNK_SIZE) as nat)
    }
}

/// The sum of a sequence of sizes.
pub open spec fn size_sum(s: Seq<int>) -> int
    decreases s.len(),
{
    if s.len() == 0 {
        0
    } else {
        s[0] + size_sum(s.skip(1))
    }
}

/// One scan step over `n` remaining rows emits exactly the head of
/// `chunk_sizes(n)` (the size `scan_step` promises), and leaves the tail
/// for the following steps; so repeated steps emit `chunk_sizes(n)` and
/// then the single zero-length chunk.
pub proof fn lemma_scan_step_emits_head(n: nat)
    requires
        n > 0,
    ensures
        chunk_sizes(n).len() > 0,
        chunk_sizes(n)[0] == if n < CHUNK_SIZE {
            n as int
        } else {
            CHUNK_SIZE as int
        },
        chunk_sizes(n).skip(1) == chunk_sizes((n - chunk_sizes(n)[0]) as nat),
{
    if n < CHUNK_SIZE {
        assert(chunk_sizes(n).skip(1) =~= Seq::<int>::empty());
        assert(chunk_sizes((n - chunk_sizes(n)[0]) as nat) == Seq::<int>::empty());
    } else {
        assert(chunk_sizes(n).skip(1) =~= chunk_sizes((n - CHUNK_SIZE) as nat));
    }
}

/// Chunking completeness: the chunks of a scan over `n` rows are all
/// positive, at most the fixed chunk size, and sum to exactly `n`; together
/// with `scan_step`'s contract, repeated steps yield every row exactly once
/// and then exactly one zero-length chunk.
pub proof fn lemma_chunking_completeness(n: nat)
    ensures
        size_sum(chunk_sizes(n)) == n,
        forall|i: int|
            0 <= i < chunk_sizes(n).len() ==> 0 < #[trigger] chunk_sizes(n)[i] <= CHUNK_SIZE,
    decreases n,
{
    if n == 0 {
    } else if n < CHUNK_SIZE {
        let s = chunk_sizes(n);
        assert(s[0] == n);
        assert(s.skip(1) =~= Seq::<int>::empty());
        assert(size_sum(s) == n + size_sum(Seq::<int>::empty()));
    } else {
        lemma_chunking_completeness((n - CHUNK_SIZE) as nat);
        let s = chunk_sizes(n);
        let rest = chunk_sizes((n - CHUNK_SIZE) as nat);
        assert(s[0] == CHUNK_SIZE as int);
        assert(s.skip(1) =~= rest);
        assert(size_sum(s) == CHUNK_SIZE + size_sum(rest));
    }
}

} // verus!
