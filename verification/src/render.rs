use vstd::prelude::*;
use crate::engine::QueryOutcome;
use crate::marshal::append_bytes;

verus! {

/// One binding rendered as name=value.
pub open spec fn pair_text(p: (Seq<u8>, Seq<u8>)) -> Seq<u8> {
    p.0 + seq![61u8] + p.1
}

/// One solution row rendered as its bindings joined by ", ".
pub open spec fn row_text(ps: Seq<(Seq<u8>, Seq<u8>)>) -> Seq<u8>
    decreases ps.len(),
{
    if ps.len() == 0 {
        Seq::empty()
    } else if ps.len() == 1 {
        pair_text(ps[0])
    } else {
        row_text(ps.drop_last()) + seq![44u8, 32u8] + pair_text(ps.last())
    }
}

/// Whether any row was accepted by the evaluator.
pub open spec fn has_row(rows: Seq<Option<Seq<(Seq<u8>, Seq<u8>)>>>) -> bool {
    exists|i: int| 0 <= i < rows.len() && (#[trigger] rows[i]) is Some
}

/// All accepted rows rendered and joined by a newline; refused rows are
/// silently dropped, a documented lossy behaviour that is kept as it is.
pub open spec fn rows_text(rows: Seq<Option<Seq<(Seq<u8>, Seq<u8>)>>>) -> Seq<u8>
    decreases rows.len(),
{
    if rows.len() == 0 {
        Seq::empty()
    } else {
        let init = rows.drop_last();
        match rows.last() {
            Option::None => rows_text(init),
            Option::Some(ps) => if has_row(init) {
                rows_text(init) + seq![10u8] + row_text(ps)
            } else {
                row_text(ps)
            },
        }
    }
}

/// The bytes of "true" or "false".
pub open spec fn bool_text(b: bool) -> Seq<u8> {
    if b {
        seq![116u8, 114u8, 117u8, 101u8]
    } else {
        seq![102u8, 97u8, 108u8, 115u8, 101u8]
    }
}

/// The bytes of "graph result", the placeholder for graph-producing queries;
/// materializing the graph is out of scope here.
pub open spec fn graph_text() -> Seq<u8> {
    seq![103u8, 114u8, 97u8, 112u8, 104u8, 32u8, 114u8, 101u8, 115u8, 117u8, 108u8, 116u8]
}

pub open spec fn pair_model(p: (Vec<u8>, Vec<u8>)) -> (Seq<u8>, Seq<u8>) {
    (p.0@, p.1@)
}

pub open spec fn row_model(row: Vec<(Vec<u8>, Vec<u8>)>) -> Seq<(Seq<u8>, Seq<u8>)> {
    row@.map(|i: int, p: (Vec<u8>, Vec<u8>)| pair_model(p))
}

pub open spec fn rows_model(rows: Seq<Option<Vec<(Vec<u8>, Vec<u8>)>>>) -> Seq<
    Option<Seq<(Seq<u8>, Seq<u8>)>>,
> {
    rows.map(
        |i: int, r: Option<Vec<(Vec<u8>, Vec<u8>)>>|
            match r {
                Option::Some(v) => Some(row_model(v)),
                Option::None => None,
            },
    )
}

/// The full rendering of a query outcome that reached the serializer.
pub open spec fn outcome_text(out: QueryOutcome) -> Seq<u8> {
    match out {
        QueryOutcome::Bool(b) => bool_text(b),
        QueryOutcome::Rows(rows) => rows_text(rows_model(rows@)),
        QueryOutcome::Graph => graph_text(),
        _ => Seq::empty(),
    }
}

/// A sequence without a single accepted row renders as empty text.
proof fn lemma_rows_text_no_rows(rows: Seq<Option<Seq<(Seq<u8>, Seq<u8>)>>>)
    requires
        !has_row(rows),
    ensures
        rows_text(rows) == Seq::<u8>::empty(),
    decreases rows.len(),
{
    if rows.len() > 0 {
        assert(rows.last() is None) by {
            if rows.last() is Some {
                assert((#[trigger] rows[rows.len() - 1]) is Some);
            }
        }
        assert(!has_row(rows.drop_last())) by {
            if has_row(rows.drop_last()) {
                let w = choose|w: int|
                    0 <= w < rows.drop_last().len() && (#[trigger] rows.drop_last()[w]) is Some;
                assert((#[trigger] rows[w]) is Some);
            }
        }
        lemma_rows_text_no_rows(rows.drop_last());
    }
}

fn render_row(row: &Vec<(Vec<u8>, Vec<u8>)>) -> (r: Vec<u8>)
    ensures
        r@ == row_text(row_model(*row)),
{
    let ghost m = row_model(*row);
    let mut out: Vec<u8> = Vec::new();
    let mut i: usize = 0;
    while i < row.len()
        invariant
            0 <= i <= row@.len(),
            m == row_model(*row),
            m.len() == row@.len(),
            out@ == row_text(m.take(i as int)),
        decreases row@.len() - i,
    {
        if i > 0 {
            out.push(44);
            out.push(32);
        }
        let p = &row[i];
        append_bytes(&mut out, p.0.as_slice());
        out.push(61);
        append_bytes(&mut out, p.1.as_slice());
        proof {
            assert(m.take(i + 1).drop_last() =~= m.take(i as int));
            assert(m.take(i + 1).last() == m[i as int]);
            assert(m[i as int] == pair_model(row@[i as int]));
            if i > 0 {
                assert(out@ =~= row_text(m.take(i as int)) + seq![44u8, 32u8] + pair_text(
                    m[i as int],
                ));
            } else {
                assert(out@ =~= pair_text(m[i as int]));
            }
        }
        i = i + 1;
    }
    assert(m.take(row@.len() as int) =~= m);
    out
}

fn render_rows(rows: &Vec<Option<Vec<(Vec<u8>, Vec<u8>)>>>) -> (r: Vec<u8>)
    ensures
        r@ == rows_text(rows_model(rows@)),
{
    let ghost m = rows_model(rows@);
    let mut out: Vec<u8> = Vec::new();
    let mut seen: bool = false;
    let mut i: usize = 0;
    while i < rows.len()
        invariant
            0 <= i <= rows@.len(),
            m == rows_model(rows@),
            m.len() == rows@.len(),
            seen == has_row(m.take(i as int)),
            out@ == rows_text(m.take(i as int)),
        decreases rows@.len() - i,
    {
        proof {
            assert(m.take(i + 1).drop_last() =~= m.take(i as int));
            assert(m.take(i + 1).last() == m[i as int]);
            assert(m[i as int] == rows_model(rows@)[i as int]);
        }
        match &rows[i] {
            Some(row) => {
                if seen {
                    out.push(10);
                }
                let line = render_row(row);
                append_bytes(&mut out, line.as_slice());
                proof {
                    assert(m[i as int] matches Some(ps) && ps == row_model(rows@[i as int]->Some_0));
                    if seen {
                        assert(out@ =~= rows_text(m.take(i as int)) + seq![10u8] + row_text(
                            m[i as int]->Some_0,
                        ));
                    } else {
                        lemma_rows_text_no_rows(m.take(i as int));
                        assert(out@ =~= row_text(m[i as int]->Some_0));
                    }
                    assert(has_row(m.take(i + 1))) by {
                        assert(m.take(i + 1)[i as int] is Some);
                    }
                }
                seen = true;
            },
            None => {
                proof {
                    assert(has_row(m.take(i + 1)) == has_row(m.take(i as int))) by {
                        if has_row(m.take(i + 1)) {
                            let w = choose|w: int|
                                0 <= w < m.take(i + 1).len() && (#[trigger] m.take(i + 1)[w]) is Some;
                            assert(w != i);
                            assert(m.take(i as int)[w] is Some);
                        }
                        if has_row(m.take(i as int)) {
                            let w = choose|w: int|
                                0 <= w < m.take(i as int).len() && (#[trigger] m.take(i as int)[w]) is Some;
                            assert(m.take(i + 1)[w] is Some);
                        }
                    }
                }
            },
        }
        i = i + 1;
    }
    assert(m.take(rows@.len() as int) =~= m);
    out
}

/// Renders an outcome that is not a parse or evaluation error into the single
/// textual encoding the marshaling layer copies out.
pub fn render_outcome(out: &QueryOutcome) -> (r: Vec<u8>)
    requires
        !(*out is ParseError),
        !(*out is ExecError),
    ensures
        r@ == outcome_text(*out),
{
    match out {
        QueryOutcome::Bool(b) => {
            let mut v: Vec<u8> = Vec::new();
            if *b {
                v.push(116);
                v.push(114);
                v.push(117);
                v.push(101);
            } else {
                v.push(102);
                v.push(97);
                v.push(108);
                v.push(115);
                v.push(101);
            }
            assert(v@ =~= bool_text(*b));
            v
        },
        QueryOutcome::Rows(rows) => render_rows(rows),
        _ => {
            let mut v: Vec<u8> = Vec::new();
            v.push(103);
            v.push(114);
            v.push(97);
            v.push(112);
            v.push(104);
            v.push(32);
            v.push(114);
            v.push(101);
            v.push(115);
            v.push(117);
            v.push(108);
            v.push(116);
            assert(v@ =~= graph_text());
            v
        },
    }
}

} // verus!
