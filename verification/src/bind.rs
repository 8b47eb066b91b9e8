use vstd::prelude::*;
use vstd::string::StringSliceAdditionalSpecFns;

use crate::model::{BindFault, ColType, DbError};

verus! {

/// Which backend a statement is prepared for. The two share one value
/// model but differ in their placeholder syntax and in which variants
/// their drivers can bind.
#[derive(Debug, Clone, Copy, PartialEq, Eq, Structural)]
pub enum Backend {
    /// The embedded file database; `?` placeholders.
    Embedded,
    /// The network database server; `$1`..`$n` placeholders.
    Server,
}

/// Where in a statement's quoting structure the scanner stands. Bytes
/// inside single-quoted string literals and double-quoted identifiers
/// are never placeholders.
#[derive(Debug, Clone, Copy, PartialEq, Eq, Structural)]
pub enum QuoteState {
    Outside,
    Single,
    Double,
}

/// The placeholder scanner's state: the quoting mode, whether the scanner
/// stands in the digit run of a `$n` placeholder and that run's value so
/// far, the largest `$n` index completed, and the count of `?` marks.
#[derive(Debug, Clone, Copy, PartialEq, Eq, Structural)]
pub struct ScanState {
    pub quote: QuoteState,
    pub in_run: bool,
    pub run: usize,
    pub max_index: usize,
    pub marks: usize,
}

/// The scanner's state before any byte is read.
pub open spec fn spec_scan_init() -> ScanState {
    ScanState { quote: QuoteState::Outside, in_run: false, run: 0, max_index: 0, marks: 0 }
}

/// Appends one decimal digit to a placeholder index, saturating at the
/// machine bound; an index that large can never match a real argument
/// list anyway.
pub open spec fn spec_push_digit(cur: usize, d: usize) -> usize {
    if cur * 10 + d <= usize::MAX {
        (cur * 10 + d) as usize
    } else {
        usize::MAX
    }
}

/// One scanner step. A quote byte (39 is `'`, 34 is `"`) enters or
/// leaves a literal; outside literals, 63 (`?`) counts as a mark, 36
/// (`$`) opens a digit run, and digits 48..=57 extend a run, feeding
/// the largest completed index.
pub open spec fn spec_step(st: ScanState, b: u8) -> ScanState {
    match st.quote {
        QuoteState::Single => ScanState {
            quote: if b == 39 {
                QuoteState::Outside
            } else {
                QuoteState::Single
            },
            in_run: false,
            run: 0,
            max_index: st.max_index,
            marks: st.marks,
        },
        QuoteState::Double => ScanState {
            quote: if b == 34 {
                QuoteState::Outside
            } else {
                QuoteState::Double
            },
            in_run: false,
            run: 0,
            max_index: st.max_index,
            marks: st.marks,
        },
        QuoteState::Outside => {
            if st.in_run && 48 <= b && b <= 57 {
                let v = spec_push_digit(st.run, (b - 48) as usize);
                ScanState {
                    quote: QuoteState::Outside,
                    in_run: true,
                    run: v,
                    max_index: if v > st.max_index {
                        v
                    } else {
                        st.max_index
                    },
                    marks: st.marks,
                }
            } else if b == 63 {
                ScanState {
                    quote: QuoteState::Outside,
                    in_run: false,
                    run: 0,
                    max_index: st.max_index,
                    marks: if st.marks == usize::MAX {
                        usize::MAX
                    } else {
                        (st.marks + 1) as usize
                    },
                }
            } else if b == 39 {
                ScanState {
                    quote: QuoteState::Single,
                    in_run: false,
                    run: 0,
                    max_index: st.max_index,
                    marks: st.marks,
                }
            } else if b == 34 {
                ScanState {
                    quote: QuoteState::Double,
                    in_run: false,
                    run: 0,
                    max_index: st.max_index,
                    marks: st.marks,
                }
            } else if b == 36 {
                ScanState {
                    quote: QuoteState::Outside,
                    in_run: true,
                    run: 0,
                    max_index: st.max_index,
                    marks: st.marks,
                }
            } else {
                ScanState {
                    quote: QuoteState::Outside,
                    in_run: false,
                    run: 0,
                    max_index: st.max_index,
                    marks: st.marks,
                }
            }
        },
    }
}

/// The scanner folded over a statement's bytes, left to right.
pub open spec fn spec_scan(s: Seq<u8>, st: ScanState) -> ScanState
    decreases s.len(),
{
    if s.len() == 0 {
        st
    } else {
        spec_scan(s.skip(1), spec_step(st, s[0]))
    }
}

/// How many positional arguments a statement demands: its count of `?`
/// marks for the embedded backend, its highest `$n` index for the server
/// backend, quoted text not counting for either.
pub open spec fn spec_placeholders(sql: Seq<u8>, backend: Backend) -> usize {
    let end = spec_scan(sql, spec_scan_init());
    match backend {
        Backend::Embedded => end.marks,
        Backend::Server => end.max_index,
    }
}

fn step(st: ScanState, b: u8) -> (r: ScanState)
    ensures
        r == spec_step(st, b),
{
    match st.quote {
        QuoteState::Single => ScanState {
            quote: if b == 39 {
                QuoteState::Outside
            } else {
                QuoteState::Single
            },
            in_run: false,
            run: 0,
            ..st
        },
        QuoteState::Double => ScanState {
            quote: if b == 34 {
                QuoteState::Outside
            } else {
                QuoteState::Double
            },
            in_run: false,
            run: 0,
            ..st
        },
        QuoteState::Outside => {
            if st.in_run && 48 <= b && b <= 57 {
                let d = (b - 48) as usize;
                let v = match st.run.checked_mul(10) {
                    Some(x) => match x.checked_add(d) {
                        Some(y) => y,
                        None => usize::MAX,
                    },
                    None => usize::MAX,
                };
                ScanState {
                    quote: QuoteState::Outside,
                    in_run: true,
                    run: v,
                    max_index: if v > st.max_index {
                        v
                    } else {
                        st.max_index
                    },
                    marks: st.marks,
                }
            } else if b == 63 {
                ScanState {
                    quote: QuoteState::Outside,
                    in_run: false,
                    run: 0,
                    max_index: st.max_index,
                    marks: if st.marks == usize::MAX {
                        usize::MAX
                    } else {
                        st.marks + 1
                    },
                }
            } else if b == 39 {
                ScanState { quote: QuoteState::Single, in_run: false, run: 0, ..st }
            } else if b == 34 {
                ScanState { quote: QuoteState::Double, in_run: false, run: 0, ..st }
            } else if b == 36 {
                ScanState { quote: QuoteState::Outside, in_run: true, run: 0, ..st }
            } else {
                ScanState { quote: QuoteState::Outside, in_run: false, run: 0, ..st }
            }
        },
    }
}

#[verifier::loop_isolation(false)]
fn scan(sql: &[u8]) -> (st: ScanState)
    ensures
        st == spec_scan(sql@, spec_scan_init()),
{
    let mut st = ScanState {
        quote: QuoteState::Outside,
        in_run: false,
        run: 0,
        max_index: 0,
        marks: 0,
    };
    let mut i: usize = 0;
    proof {
        assert(sql@.skip(0) =~= sql@);
        assert(st == spec_scan_init());
    }
    while i < sql.len()
        invariant
            i <= sql@.len(),
            spec_scan(sql@, spec_scan_init()) == spec_scan(sql@.skip(i as int), st),
        decreases sql@.len() - i,
    {
        proof {
            assert(sql@.skip(i as int)[0] == sql@[i as int]);
            assert(sql@.skip(i as int).skip(1) =~= sql@.skip(i as int + 1));
        }
        st = step(st, sql[i]);
        i = i + 1;
    }
    proof {
        assert(sql@.skip(i as int) =~= Seq::<u8>::empty());
    }
    st
}

/// Counts the positional placeholders a statement demands under the
/// given backend's convention.
pub fn placeholder_count(sql: &str, backend: Backend) -> (n: usize)
    ensures
        n == spec_placeholders(sql.spec_bytes(), backend),
{
    let st = scan(sql.as_bytes());
    match backend {
        Backend::Embedded => st.marks,
        Backend::Server => st.max_index,
    }
}

/// Whether the backend's driver can bind this variant at all. The server
/// driver takes integers, text and booleans; the embedded driver takes
/// every scalar variant; the composite placeholders bind nowhere.
pub open spec fn spec_bindable(backend: Backend, v: ColType) -> bool {
    match backend {
        Backend::Embedded => !(v is Array || v is Object),
        Backend::Server => v is Integer || v is String || v is Bool,
    }
}

/// Whether the backend's driver can bind this variant.
pub fn bindable(backend: Backend, v: &ColType) -> (r: bool)
    ensures
        r == spec_bindable(backend, *v),
{
    match backend {
        Backend::Embedded => !(matches!(v, ColType::Array) || matches!(v, ColType::Object)),
        Backend::Server => match v {
            ColType::Integer(_) => true,
            ColType::String(_) => true,
            ColType::Bool(_) => true,
            _ => false,
        },
    }
}

/// Validates a bind request before anything reaches a backend: every
/// argument must be a variant the backend's driver can bind — checked in
/// call order, as binding would proceed — and the argument count must
/// match the statement's placeholder count. Succeeds exactly when both
/// hold; never reports anything but a bind fault.
#[verifier::loop_isolation(false)]
pub fn check_bind(backend: Backend, sql: &str, args: &Vec<ColType>) -> (r: Result<(), DbError>)
    ensures
        r is Ok <==> (forall|i: int|
            0 <= i < args@.len() ==> spec_bindable(backend, #[trigger] args@[i]))
            && spec_placeholders(sql.spec_bytes(), backend) == args@.len(),
        r matches Err(e) ==> match e {
            DbError::Bind(BindFault::Unsupported { position }) => position < args@.len()
                && !spec_bindable(backend, args@[position as int]) && (forall|j: int|
                0 <= j < position ==> spec_bindable(backend, #[trigger] args@[j])),
            DbError::Bind(BindFault::Arity { placeholders, supplied }) => placeholders
                == spec_placeholders(sql.spec_bytes(), backend) && supplied == args@.len()
                && placeholders != supplied && (forall|i: int|
                0 <= i < args@.len() ==> spec_bindable(backend, #[trigger] args@[i])),
            _ => false,
        },
{
    let mut i: usize = 0;
    while i < args.len()
        invariant
            i <= args@.len(),
            forall|j: int| 0 <= j < i ==> spec_bindable(backend, #[trigger] args@[j]),
        decreases args@.len() - i,
    {
        if !bindable(backend, &args[i]) {
            return Err(DbError::Bind(BindFault::Unsupported { position: i }));
        }
        i = i + 1;
    }
    let wanted = placeholder_count(sql, backend);
    if wanted != args.len() {
        return Err(
            DbError::Bind(BindFault::Arity { placeholders: wanted, supplied: args.len() }),
        );
    }
    Ok(())
}

} // verus!
