use vstd::prelude::*;
use vstd::string::StringSliceAdditionalSpecFns;

use crate::model::{ColKind, ColType, DbError, RawCell, RawValue};
use crate::record::{assoc_has, assoc_index, assoc_insert, Record};

verus! {

/// The UTF-8 bytes a `String` sends over the wire, for stating what the
/// byte-level dispatch does with it.
pub open spec fn string_bytes(s: String) -> Seq<u8> {
    vstd::utf8::encode_utf8(s@)
}

// --- ASCII case folding -------------------------------------------------
//
// The dispatch on reported type names is case-insensitive, so every name
// is folded to upper case before it is looked up. Only the ASCII letters
// fold; every other byte passes through unchanged.

/// ASCII upper-casing of one byte: 97..=122 (`a`..=`z`) fold to 65..=90.
pub open spec fn spec_upper_byte(b: u8) -> u8 {
    if 97 <= b && b <= 122 {
        (b - 32) as u8
    } else {
        b
    }
}

/// ASCII upper-casing of a byte sequence, one byte at a time.
pub open spec fn spec_upper_bytes(s: Seq<u8>) -> Seq<u8> {
    s.map_values(|b: u8| spec_upper_byte(b))
}

fn upper_bytes(s: &[u8]) -> (r: Vec<u8>)
    ensures
        r@ == spec_upper_bytes(s@),
{
    let mut r: Vec<u8> = Vec::new();
    let mut i: usize = 0;
    while i < s.len()
        invariant
            i <= s@.len(),
            r@.len() == i,
            forall|j: int| 0 <= j < i ==> r@[j] == spec_upper_byte(s@[j]),
        decreases s@.len() - i,
    {
        let b = s[i];
        if 97 <= b && b <= 122 {
            r.push(b - 32);
        } else {
            r.push(b);
        }
        i = i + 1;
    }
    proof {
        assert(r@ =~= spec_upper_bytes(s@));
    }
    r
}

// --- The dispatch table -------------------------------------------------
//
// One table serves both backends: each reported native type name, upper-
// cased, selects the value family the column decodes into. A name outside
// the table selects nothing, and the decoder reports it as a parse error.

/// The decode dispatch table over an already upper-cased byte sequence:
/// TEXT and VARCHAR select text, INTEGER, INT and SERIAL select integers,
/// REAL and NUMERIC select reals, BOOLEAN selects booleans, and DATE,
/// TIME and DATETIME select the three temporal families. The byte values
/// spell the names out in ASCII.
#[verifier::opaque]
pub open spec fn spec_kind_of_upper(u: Seq<u8>) -> Option<ColKind> {
    if u.len() == 4 && u[0] == 84 && u[1] == 69 && u[2] == 88 && u[3] == 84 {
        // TEXT
        Some(ColKind::Text)
    } else if u.len() == 7 && u[0] == 86 && u[1] == 65 && u[2] == 82 && u[3] == 67 && u[4] == 72
        && u[5] == 65 && u[6] == 82 {
        // VARCHAR
        Some(ColKind::Text)
    } else if u.len() == 7 && u[0] == 73 && u[1] == 78 && u[2] == 84 && u[3] == 69 && u[4] == 71
        && u[5] == 69 && u[6] == 82 {
        // INTEGER
        Some(ColKind::Int)
    } else if u.len() == 3 && u[0] == 73 && u[1] == 78 && u[2] == 84 {
        // INT
        Some(ColKind::Int)
    } else if u.len() == 6 && u[0] == 83 && u[1] == 69 && u[2] == 82 && u[3] == 73 && u[4] == 65
        && u[5] == 76 {
        // SERIAL
        Some(ColKind::Int)
    } else if u.len() == 4 && u[0] == 82 && u[1] == 69 && u[2] == 65 && u[3] == 76 {
        // REAL
        Some(ColKind::Real)
    } else if u.len() == 7 && u[0] == 78 && u[1] == 85 && u[2] == 77 && u[3] == 69 && u[4] == 82
        && u[5] == 73 && u[6] == 67 {
        // NUMERIC
        Some(ColKind::Real)
    } else if u.len() == 7 && u[0] == 66 && u[1] == 79 && u[2] == 79 && u[3] == 76 && u[4] == 69
        && u[5] == 65 && u[6] == 78 {
        // BOOLEAN
        Some(ColKind::Bool)
    } else if u.len() == 4 && u[0] == 68 && u[1] == 65 && u[2] == 84 && u[3] == 69 {
        // DATE
        Some(ColKind::Date)
    } else if u.len() == 4 && u[0] == 84 && u[1] == 73 && u[2] == 77 && u[3] == 69 {
        // TIME
        Some(ColKind::Time)
    } else if u.len() == 8 && u[0] == 68 && u[1] == 65 && u[2] == 84 && u[3] == 69 && u[4] == 84
        && u[5] == 73 && u[6] == 77 && u[7] == 69 {
        // DATETIME
        Some(ColKind::Datetime)
    } else {
        None
    }
}

/// The decode dispatch on a reported type name as the backend sent it,
/// case-insensitively.
pub open spec fn spec_kind_of(name: Seq<u8>) -> Option<ColKind> {
    spec_kind_of_upper(spec_upper_bytes(name))
}

fn kind_of_upper(u: &Vec<u8>) -> (r: Option<ColKind>)
    ensures
        r == spec_kind_of_upper(u@),
{
    proof {
        reveal(spec_kind_of_upper);
    }
    let n = u.len();
    if n == 4 && u[0] == 84 && u[1] == 69 && u[2] == 88 && u[3] == 84 {
        Some(ColKind::Text)
    } else if n == 7 && u[0] == 86 && u[1] == 65 && u[2] == 82 && u[3] == 67 && u[4] == 72
        && u[5] == 65 && u[6] == 82 {
        Some(ColKind::Text)
    } else if n == 7 && u[0] == 73 && u[1] == 78 && u[2] == 84 && u[3] == 69 && u[4] == 71
        && u[5] == 69 && u[6] == 82 {
        Some(ColKind::Int)
    } else if n == 3 && u[0] == 73 && u[1] == 78 && u[2] == 84 {
        Some(ColKind::Int)
    } else if n == 6 && u[0] == 83 && u[1] == 69 && u[2] == 82 && u[3] == 73 && u[4] == 65
        && u[5] == 76 {
        Some(ColKind::Int)
    } else if n == 4 && u[0] == 82 && u[1] == 69 && u[2] == 65 && u[3] == 76 {
        Some(ColKind::Real)
    } else if n == 7 && u[0] == 78 && u[1] == 85 && u[2] == 77 && u[3] == 69 && u[4] == 82
        && u[5] == 73 && u[6] == 67 {
        Some(ColKind::Real)
    } else if n == 7 && u[0] == 66 && u[1] == 79 && u[2] == 79 && u[3] == 76 && u[4] == 69
        && u[5] == 65 && u[6] == 78 {
        Some(ColKind::Bool)
    } else if n == 4 && u[0] == 68 && u[1] == 65 && u[2] == 84 && u[3] == 69 {
        Some(ColKind::Date)
    } else if n == 4 && u[0] == 84 && u[1] == 73 && u[2] == 77 && u[3] == 69 {
        Some(ColKind::Time)
    } else if n == 8 && u[0] == 68 && u[1] == 65 && u[2] == 84 && u[3] == 69 && u[4] == 84
        && u[5] == 73 && u[6] == 77 && u[7] == 69 {
        Some(ColKind::Datetime)
    } else {
        None
    }
}

/// Looks a backend-reported native type name up in the decode dispatch
/// table, case-insensitively.
pub fn kind_of_reported_type(name: &str) -> (r: Option<ColKind>)
    ensures
        r == spec_kind_of(name.spec_bytes()),
{
    let bs = name.as_bytes();
    let u = upper_bytes(bs);
    kind_of_upper(&u)
}

// --- Tagging one cell ---------------------------------------------------

/// Wraps a raw driver payload in the tagged variant the dispatch table
/// selected, if the payload has the shape that family expects. All three
/// temporal families take the driver's one signed-count shape.
pub open spec fn spec_wrap(kind: ColKind, v: RawValue) -> Option<ColType> {
    match (kind, v) {
        (ColKind::Text, RawValue::Text(t)) => Some(ColType::String(t)),
        (ColKind::Int, RawValue::Int(t)) => Some(ColType::Integer(t)),
        (ColKind::Real, RawValue::Real(t)) => Some(ColType::Real(t)),
        (ColKind::Bool, RawValue::Bool(t)) => Some(ColType::Bool(t)),
        (ColKind::Date, RawValue::Temporal(t)) => Some(ColType::Date(t)),
        (ColKind::Time, RawValue::Temporal(t)) => Some(ColType::Time(t)),
        (ColKind::Datetime, RawValue::Temporal(t)) => Some(ColType::Datetime(t)),
        _ => None,
    }
}

/// What decoding one cell yields: the tagged value when the reported type
/// is in the dispatch table and the payload fits it, else a parse error
/// naming the offending column and its reported type.
pub open spec fn spec_decode_cell(cell: RawCell) -> Result<ColType, DbError> {
    match spec_kind_of(string_bytes(cell.reported_type)) {
        Some(kind) => match spec_wrap(kind, cell.value) {
            Some(v) => Ok(v),
            None => Err(
                DbError::Parse { column: cell.name, reported_type: cell.reported_type },
            ),
        },
        None => Err(DbError::Parse { column: cell.name, reported_type: cell.reported_type }),
    }
}

/// Decodes one backend-native cell into the tagged value model. Fails
/// with a parse error, never a halt, on a type name outside the dispatch
/// table or a payload that does not fit the selected family.
pub fn decode_cell(cell: RawCell) -> (r: Result<ColType, DbError>)
    ensures
        r == spec_decode_cell(cell),
{
    let RawCell { name, reported_type, value } = cell;
    match kind_of_reported_type(reported_type.as_str()) {
        Some(kind) => match (kind, value) {
            (ColKind::Text, RawValue::Text(t)) => Ok(ColType::String(t)),
            (ColKind::Int, RawValue::Int(t)) => Ok(ColType::Integer(t)),
            (ColKind::Real, RawValue::Real(t)) => Ok(ColType::Real(t)),
            (ColKind::Bool, RawValue::Bool(t)) => Ok(ColType::Bool(t)),
            (ColKind::Date, RawValue::Temporal(t)) => Ok(ColType::Date(t)),
            (ColKind::Time, RawValue::Temporal(t)) => Ok(ColType::Time(t)),
            (ColKind::Datetime, RawValue::Temporal(t)) => Ok(ColType::Datetime(t)),
            (_, _) => Err(DbError::Parse { column: name, reported_type }),
        },
        None => Err(DbError::Parse { column: name, reported_type }),
    }
}

// --- Decoding whole rows ------------------------------------------------

/// Whether every cell of the row decodes.
pub open spec fn spec_row_ok(cells: Seq<RawCell>) -> bool {
    forall|i: int| 0 <= i < cells.len() ==> spec_decode_cell(cells[i]) is Ok
}

/// The record a fully decodable row yields: each cell's value inserted
/// under its column name, left to right, so that of duplicate reported
/// names the later column's value is the one kept.
pub open spec fn spec_row_record(cells: Seq<RawCell>) -> Seq<(Seq<char>, ColType)>
    decreases cells.len(),
{
    if cells.len() == 0 {
        Seq::empty()
    } else {
        assoc_insert(
            spec_row_record(cells.drop_last()),
            cells.last().name@,
            spec_decode_cell(cells.last())->Ok_0,
        )
    }
}

proof fn lemma_row_record_step(cells: Seq<RawCell>, p: int)
    requires
        0 <= p < cells.len(),
    ensures
        spec_row_record(cells.take(p + 1)) == assoc_insert(
            spec_row_record(cells.take(p)),
            cells[p].name@,
            spec_decode_cell(cells[p])->Ok_0,
        ),
{
    assert(cells.take(p + 1).drop_last() =~= cells.take(p));
    assert(cells.take(p + 1).last() == cells[p]);
    assert(cells.take(p + 1).len() == p + 1);
}

/// Decodes one backend-native row into a generic record, preserving the
/// native column order and folding duplicate names to the later value.
/// The first cell that does not decode is reported as its parse error.
#[verifier::loop_isolation(false)]
#[verifier::rlimit(100)]
pub fn decode_row(cells: Vec<RawCell>) -> (r: Result<Record, DbError>)
    ensures
        r is Ok <==> spec_row_ok(cells@),
        r matches Ok(rec) ==> rec@ == spec_row_record(cells@) && rec.wf(),
        r matches Err(e) ==> exists|i: int|
            0 <= i < cells@.len() && spec_decode_cell(cells@[i]) == Result::<
                ColType,
                DbError,
            >::Err(e) && (forall|j: int| 0 <= j < i ==> spec_decode_cell(cells@[j]) is Ok),
{
    let ghost orig = cells@;
    let mut rest = cells;
    let mut rec = Record::new();
    while rest.len() > 0
        invariant
            rest@ == orig.skip(orig.len() - rest@.len()),
            rest@.len() <= orig.len(),
            forall|j: int|
                0 <= j < orig.len() - rest@.len() ==> spec_decode_cell(#[trigger] orig[j]) is Ok,
            rec@ == spec_row_record(orig.take(orig.len() - rest@.len())),
            rec.wf(),
        decreases rest@.len(),
    {
        let ghost p = orig.len() - rest@.len();
        proof {
            assert(rest@[0] == orig[p]);
        }
        let cell = rest.remove(0);
        proof {
            assert(cell == orig[p]);
            assert(rest@ =~= orig.skip(p + 1));
        }
        let name = cell.name.clone();
        match decode_cell(cell) {
            Ok(value) => {
                rec.insert(name, value);
                proof {
                    lemma_row_record_step(orig, p);
                    assert(rec@ == spec_row_record(orig.take(p + 1)));
                }
            },
            Err(e) => {
                proof {
                    assert(spec_decode_cell(orig[p]) == Result::<ColType, DbError>::Err(e));
                    assert(!spec_row_ok(orig)) by {
                        if spec_row_ok(orig) {
                            assert(spec_decode_cell(orig[p]) is Ok);
                        }
                    }
                    assert(exists|i: int|
                        0 <= i < orig.len() && spec_decode_cell(orig[i]) == Result::<
                            ColType,
                            DbError,
                        >::Err(e) && (forall|j: int|
                            0 <= j < i ==> spec_decode_cell(orig[j]) is Ok)) by {
                        assert(0 <= p < orig.len() && spec_decode_cell(orig[p]) == Result::<
                            ColType,
                            DbError,
                        >::Err(e) && (forall|j: int|
                            0 <= j < p ==> spec_decode_cell(orig[j]) is Ok));
                    }
                }
                return Err(e);
            },
        }
    }
    proof {
        assert(orig.take(orig.len() as int) =~= orig);
        assert(spec_row_ok(orig));
    }
    Ok(rec)
}

/// Decodes a sequence of backend-native rows, in order. The first row
/// that does not decode is reported as the parse error of its first
/// offending cell.
#[verifier::loop_isolation(false)]
#[verifier::rlimit(100)]
pub fn parse_all(rows: Vec<Vec<RawCell>>) -> (r: Result<Vec<Record>, DbError>)
    ensures
        r is Ok <==> (forall|i: int| 0 <= i < rows@.len() ==> spec_row_ok(#[trigger] rows@[i]@)),
        r matches Ok(recs) ==> recs@.len() == rows@.len() && (forall|i: int|
            0 <= i < rows@.len() ==> (#[trigger] recs@[i])@ == spec_row_record(rows@[i]@)
                && recs@[i].wf()),
        r matches Err(e) ==> exists|i: int|
            0 <= i < rows@.len() && !spec_row_ok(#[trigger] rows@[i]@) && (forall|j: int|
                0 <= j < i ==> spec_row_ok(#[trigger] rows@[j]@)),
{
    let ghost orig = rows@;
    let mut pending = rows;
    let mut recs: Vec<Record> = Vec::new();
    while pending.len() > 0
        invariant
            pending@ == orig.skip(orig.len() - pending@.len()),
            pending@.len() <= orig.len(),
            recs@.len() == orig.len() - pending@.len(),
            forall|i: int| 0 <= i < recs@.len() ==> spec_row_ok(#[trigger] orig[i]@),
            forall|i: int|
                0 <= i < recs@.len() ==> (#[trigger] recs@[i])@ == spec_row_record(orig[i]@)
                    && recs@[i].wf(),
        decreases pending@.len(),
    {
        let ghost p = orig.len() - pending@.len();
        proof {
            assert(pending@[0] == orig[p]);
        }
        let row = pending.remove(0);
        proof {
            assert(row == orig[p]);
            assert(pending@ =~= orig.skip(p + 1));
        }
        let ghost prev = recs@;
        match decode_row(row) {
            Ok(rec) => {
                proof {
                    assert(spec_row_ok(orig[p]@));
                }
                recs.push(rec);
                proof {
                    assert(recs@[p] == rec);
                    assert(forall|i: int| 0 <= i < p ==> recs@[i] == prev[i]);
                }
            },
            Err(e) => {
                proof {
                    assert(!spec_row_ok(orig[p]@));
                    assert(exists|i: int|
                        0 <= i < orig.len() && !spec_row_ok(#[trigger] orig[i]@) && (forall|j: int|
                            0 <= j < i ==> spec_row_ok(#[trigger] orig[j]@))) by {
                        assert(0 <= p < orig.len() && !spec_row_ok(orig[p]@) && (forall|j: int|
                            0 <= j < p ==> spec_row_ok(#[trigger] orig[j]@)));
                    }
                }
                return Err(e);
            },
        }
    }
    proof {
        assert(forall|i: int| 0 <= i < orig.len() ==> spec_row_ok(#[trigger] orig[i]@));
    }
    Ok(recs)
}

// --- Binding a value's raw form -----------------------------------------

/// The value family a tagged value belongs to; the composite placeholders
/// belong to none and cannot be bound.
pub open spec fn spec_value_kind(v: ColType) -> Option<ColKind> {
    match v {
        ColType::Integer(_) => Some(ColKind::Int),
        ColType::Real(_) => Some(ColKind::Real),
        ColType::String(_) => Some(ColKind::Text),
        ColType::Bool(_) => Some(ColKind::Bool),
        ColType::Date(_) => Some(ColKind::Date),
        ColType::Time(_) => Some(ColKind::Time),
        ColType::Datetime(_) => Some(ColKind::Datetime),
        ColType::Array => None,
        ColType::Object => None,
    }
}

/// The raw payload a bound value is sent to the backend as; `None` for
/// the composite placeholders, which no backend can bind.
pub open spec fn spec_to_raw(v: ColType) -> Option<RawValue> {
    match v {
        ColType::Integer(t) => Some(RawValue::Int(t)),
        ColType::Real(t) => Some(RawValue::Real(t)),
        ColType::String(t) => Some(RawValue::Text(t)),
        ColType::Bool(t) => Some(RawValue::Bool(t)),
        ColType::Date(t) => Some(RawValue::Temporal(t)),
        ColType::Time(t) => Some(RawValue::Temporal(t)),
        ColType::Datetime(t) => Some(RawValue::Temporal(t)),
        ColType::Array => None,
        ColType::Object => None,
    }
}

/// The raw payload a bound argument is sent to the backend as; `None`
/// exactly for the composite placeholders.
pub fn to_raw(v: ColType) -> (r: Option<RawValue>)
    ensures
        r == spec_to_raw(v),
{
    match v {
        ColType::Integer(t) => Some(RawValue::Int(t)),
        ColType::Real(t) => Some(RawValue::Real(t)),
        ColType::String(t) => Some(RawValue::Text(t)),
        ColType::Bool(t) => Some(RawValue::Bool(t)),
        ColType::Date(t) => Some(RawValue::Temporal(t)),
        ColType::Time(t) => Some(RawValue::Temporal(t)),
        ColType::Datetime(t) => Some(RawValue::Temporal(t)),
        ColType::Array => None,
        ColType::Object => None,
    }
}

// --- The laws the decoder obeys -----------------------------------------

/// Binding any supported value — the null cases included — and decoding
/// the corresponding result column, under a reported type name of the
/// value's own family, yields the original value.
pub proof fn lemma_bind_decode_round_trip(v: ColType, cell: RawCell)
    requires
        spec_to_raw(v) is Some,
        cell.value == spec_to_raw(v)->Some_0,
        spec_kind_of(string_bytes(cell.reported_type)) == spec_value_kind(v),
    ensures
        spec_decode_cell(cell) == Result::<ColType, DbError>::Ok(v),
{
}

/// The record of a fully decodable row has unique keys.
pub proof fn lemma_row_record_wf(cells: Seq<RawCell>)
    ensures
        forall|i: int, j: int|
            0 <= i < j < spec_row_record(cells).len() ==> spec_row_record(cells)[i].0
                != spec_row_record(cells)[j].0,
    decreases cells.len(),
{
    if cells.len() > 0 {
        lemma_row_record_wf(cells.drop_last());
        crate::record::lemma_assoc_insert_wf(
            spec_row_record(cells.drop_last()),
            cells.last().name@,
            spec_decode_cell(cells.last())->Ok_0,
        );
    }
}

/// Of all columns that report one name, the last one's value is the one
/// the decoded record holds for that name — for every row and every
/// name.
pub proof fn lemma_last_reported_name_wins(cells: Seq<RawCell>, k: int)
    requires
        spec_row_ok(cells),
        0 <= k < cells.len(),
        forall|j: int| k < j < cells.len() ==> (#[trigger] cells[j]).name@ != cells[k].name@,
    ensures
        crate::record::assoc_get(spec_row_record(cells), cells[k].name@) == Some(
            spec_decode_cell(cells[k])->Ok_0,
        ),
    decreases cells.len(),
{
    let prev = cells.drop_last();
    lemma_row_record_wf(prev);
    let last = cells.last();
    if k == cells.len() - 1 {
        crate::record::lemma_assoc_insert_get(
            spec_row_record(prev),
            last.name@,
            spec_decode_cell(last)->Ok_0,
            last.name@,
        );
    } else {
        assert(forall|j: int| 0 <= j < prev.len() ==> prev[j] == cells[j]);
        assert(spec_row_ok(prev)) by {
            assert(forall|i: int|
                0 <= i < prev.len() ==> spec_decode_cell(#[trigger] prev[i]) is Ok);
        }
        lemma_last_reported_name_wins(prev, k);
        assert(last.name@ != cells[k].name@);
        crate::record::lemma_assoc_insert_get(
            spec_row_record(prev),
            last.name@,
            spec_decode_cell(last)->Ok_0,
            cells[k].name@,
        );
    }
}

/// A row of two columns that report the same name decodes to a record
/// with exactly one entry for that name, holding the later column's
/// value.
pub proof fn lemma_duplicate_column_last_wins(cells: Seq<RawCell>)
    requires
        cells.len() == 2,
        cells[0].name@ == cells[1].name@,
        spec_row_ok(cells),
    ensures
        spec_row_record(cells).len() == 1,
        spec_row_record(cells)[0].0 == cells[1].name@,
        spec_row_record(cells)[0].1 == spec_decode_cell(cells[1])->Ok_0,
{
    reveal_with_fuel(spec_row_record, 3);
    let first = spec_row_record(cells.drop_last());
    assert(cells.drop_last().drop_last() =~= Seq::<RawCell>::empty());
    assert(cells.drop_last().last() == cells[0]);
    assert(spec_row_record(Seq::<RawCell>::empty()) =~= Seq::<(Seq<char>, ColType)>::empty());
    assert(first =~= Seq::<(Seq<char>, ColType)>::empty().push(
        (cells[0].name@, spec_decode_cell(cells[0])->Ok_0),
    ));
    assert(first.len() == 1 && first[0].0 == cells[1].name@);
    assert(assoc_has(first, cells[1].name@));
    assert(assoc_index(first, cells[1].name@) == 0);
    assert(cells.last() == cells[1]);
}

} // verus!
