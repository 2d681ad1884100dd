//! Assembly of decoded headers into a comparative table: one row per
//! header field, one cell slot per accepted input, input order kept.
//! Inputs that failed to decode are collected separately with their
//! error, so one bad file never hides the others. Rendering the table
//! as text is left to the caller.

use crate::catalog::{
    class_label, class_label_spec, encoding_label, encoding_label_spec, machine_label_spec,
    object_type_label, object_type_label_spec,
};
use crate::header::{DecodeError, DecodedHeader};
use vstd::prelude::*;

verus! {

/// One table cell: a symbolic label, a raw number, or an absent value
/// (a machine code the catalog does not list).
#[derive(Clone, PartialEq, Eq, Debug)]
pub enum Cell {
    Sym(String),
    Num(u64),
    Absent,
}

/// One table row: a field name and that field's value for each
/// accepted input, in input order.
#[derive(Clone, Debug)]
pub struct FieldRow {
    pub name: String,
    pub cells: Vec<Cell>,
}

/// The assembled table, plus the inputs that were not tabulated: each
/// skipped entry names the input's position and why it was skipped.
pub struct Report {
    pub rows: Vec<FieldRow>,
    pub skipped: Vec<(usize, DecodeError)>,
}

/// Number of tabulated header fields, and so of table rows.
pub const FIELD_COUNT: usize = 16;

pub open spec fn field_name_spec(f: int) -> Seq<char> {
    if f == 0 {
        "EI_CLASS"@
    } else if f == 1 {
        "EI_DATA"@
    } else if f == 2 {
        "EI_VERSION"@
    } else if f == 3 {
        "E_TYPE"@
    } else if f == 4 {
        "E_MACHINE"@
    } else if f == 5 {
        "E_VERSION"@
    } else if f == 6 {
        "E_ENTRY"@
    } else if f == 7 {
        "E_PHOFF"@
    } else if f == 8 {
        "E_SHOFF"@
    } else if f == 9 {
        "E_FLAGS"@
    } else if f == 10 {
        "E_EHSIZE"@
    } else if f == 11 {
        "E_PHENTSIZE"@
    } else if f == 12 {
        "E_PHNUM"@
    } else if f == 13 {
        "E_SHENTSIZE"@
    } else if f == 14 {
        "E_SHNUM"@
    } else {
        "E_SHSTRNDX"@
    }
}

pub fn field_name(f: usize) -> (r: &'static str)
    requires
        f < FIELD_COUNT,
    ensures
        r@ == field_name_spec(f as int),
{
    if f == 0 {
        "EI_CLASS"
    } else if f == 1 {
        "EI_DATA"
    } else if f == 2 {
        "EI_VERSION"
    } else if f == 3 {
        "E_TYPE"
    } else if f == 4 {
        "E_MACHINE"
    } else if f == 5 {
        "E_VERSION"
    } else if f == 6 {
        "E_ENTRY"
    } else if f == 7 {
        "E_PHOFF"
    } else if f == 8 {
        "E_SHOFF"
    } else if f == 9 {
        "E_FLAGS"
    } else if f == 10 {
        "E_EHSIZE"
    } else if f == 11 {
        "E_PHENTSIZE"
    } else if f == 12 {
        "E_PHNUM"
    } else if f == 13 {
        "E_SHENTSIZE"
    } else if f == 14 {
        "E_SHNUM"
    } else {
        "E_SHSTRNDX"
    }
}

/// What the cell of field `f` must hold for header `h`: the symbolic
/// label for the enumerated fields, the raw number for the numeric
/// ones, and absence exactly for an unlisted machine.
pub open spec fn cell_ok(f: int, h: DecodedHeader, c: Cell) -> bool {
    if f == 0 {
        c matches Cell::Sym(s) && s@ == class_label_spec(h.class)
    } else if f == 1 {
        c matches Cell::Sym(s) && s@ == encoding_label_spec(h.data_encoding)
    } else if f == 2 {
        c matches Cell::Num(v) && v == h.header_version as u64
    } else if f == 3 {
        c matches Cell::Sym(s) && s@ == object_type_label_spec(h.object_type)
    } else if f == 4 {
        match h.machine {
            Some(m) => c matches Cell::Sym(s) && s@ == machine_label_spec(m),
            None => c is Absent,
        }
    } else if f == 5 {
        c matches Cell::Num(v) && v == h.version as u64
    } else if f == 6 {
        c matches Cell::Num(v) && v == h.entry_point
    } else if f == 7 {
        c matches Cell::Num(v) && v == h.program_header_offset
    } else if f == 8 {
        c matches Cell::Num(v) && v == h.section_header_offset
    } else if f == 9 {
        c matches Cell::Num(v) && v == h.flags as u64
    } else if f == 10 {
        c matches Cell::Num(v) && v == h.header_size as u64
    } else if f == 11 {
        c matches Cell::Num(v) && v == h.program_header_entry_size as u64
    } else if f == 12 {
        c matches Cell::Num(v) && v == h.program_header_count as u64
    } else if f == 13 {
        c matches Cell::Num(v) && v == h.section_header_entry_size as u64
    } else if f == 14 {
        c matches Cell::Num(v) && v == h.section_header_count as u64
    } else {
        c matches Cell::Num(v) && v == h.string_table_index as u64
    }
}

fn make_cell(f: usize, h: &DecodedHeader) -> (c: Cell)
    requires
        f < FIELD_COUNT,
    ensures
        cell_ok(f as int, *h, c),
{
    if f == 0 {
        Cell::Sym(String::from_str(class_label(h.class)))
    } else if f == 1 {
        Cell::Sym(String::from_str(encoding_label(h.data_encoding)))
    } else if f == 2 {
        Cell::Num(h.header_version as u64)
    } else if f == 3 {
        Cell::Sym(String::from_str(object_type_label(h.object_type)))
    } else if f == 4 {
        match &h.machine {
            Some(m) => Cell::Sym(String::from_str(m.as_str())),
            None => Cell::Absent,
        }
    } else if f == 5 {
        Cell::Num(h.version as u64)
    } else if f == 6 {
        Cell::Num(h.entry_point)
    } else if f == 7 {
        Cell::Num(h.program_header_offset)
    } else if f == 8 {
        Cell::Num(h.section_header_offset)
    } else if f == 9 {
        Cell::Num(h.flags as u64)
    } else if f == 10 {
        Cell::Num(h.header_size as u64)
    } else if f == 11 {
        Cell::Num(h.program_header_entry_size as u64)
    } else if f == 12 {
        Cell::Num(h.program_header_count as u64)
    } else if f == 13 {
        Cell::Num(h.section_header_entry_size as u64)
    } else if f == 14 {
        Cell::Num(h.section_header_count as u64)
    } else {
        Cell::Num(h.string_table_index as u64)
    }
}

/// The headers of the outcomes that decoded, in input order.
pub open spec fn accepted(outs: Seq<Result<DecodedHeader, DecodeError>>) -> Seq<DecodedHeader>
    decreases outs.len(),
{
    if outs.len() == 0 {
        Seq::empty()
    } else {
        let rest = accepted(outs.drop_last());
        match outs.last() {
            Ok(h) => rest.push(h),
            Err(_) => rest,
        }
    }
}

/// The positions and errors of the outcomes that did not decode, in
/// input order.
pub open spec fn rejected(outs: Seq<Result<DecodedHeader, DecodeError>>) -> Seq<
    (int, DecodeError),
>
    decreases outs.len(),
{
    if outs.len() == 0 {
        Seq::empty()
    } else {
        let rest = rejected(outs.drop_last());
        match outs.last() {
            Ok(_) => rest,
            Err(e) => rest.push((outs.len() - 1, e)),
        }
    }
}

proof fn lemma_accepted_take_step(outs: Seq<Result<DecodedHeader, DecodeError>>, i: int)
    requires
        0 <= i < outs.len(),
    ensures
        outs[i] matches Ok(h) ==> accepted(outs.take(i + 1)) == accepted(outs.take(i)).push(h),
        outs[i] is Err ==> accepted(outs.take(i + 1)) == accepted(outs.take(i)),
{
    assert(outs.take(i + 1).drop_last() =~= outs.take(i));
    assert(outs.take(i + 1).last() == outs[i]);
}

proof fn lemma_rejected_take_step(outs: Seq<Result<DecodedHeader, DecodeError>>, i: int)
    requires
        0 <= i < outs.len(),
    ensures
        outs[i] matches Err(e) ==> rejected(outs.take(i + 1)) == rejected(outs.take(i)).push(
            (i, e),
        ),
        outs[i] is Ok ==> rejected(outs.take(i + 1)) == rejected(outs.take(i)),
{
    assert(outs.take(i + 1).drop_last() =~= outs.take(i));
    assert(outs.take(i + 1).last() == outs[i]);
}

fn build_cells(f: usize, outcomes: &Vec<Result<DecodedHeader, DecodeError>>) -> (cells: Vec<Cell>)
    requires
        f < FIELD_COUNT,
    ensures
        cells@.len() == accepted(outcomes@).len(),
        forall|j: int|
            0 <= j < cells@.len() ==> cell_ok(f as int, accepted(outcomes@)[j], cells@[j]),
{
    let mut cells: Vec<Cell> = Vec::new();
    let mut i: usize = 0;
    while i < outcomes.len()
        invariant
            f < FIELD_COUNT,
            i <= outcomes@.len(),
            cells@.len() == accepted(outcomes@.take(i as int)).len(),
            forall|j: int|
                0 <= j < cells@.len() ==> cell_ok(
                    f as int,
                    accepted(outcomes@.take(i as int))[j],
                    cells@[j],
                ),
        decreases outcomes@.len() - i,
    {
        proof {
            lemma_accepted_take_step(outcomes@, i as int);
        }
        match &outcomes[i] {
            Ok(h) => {
                cells.push(make_cell(f, h));
            },
            Err(_) => {},
        }
        i = i + 1;
    }
    proof {
        assert(outcomes@.take(outcomes@.len() as int) =~= outcomes@);
    }
    cells
}

/// Assemble the report for a batch of decode outcomes: one row per
/// field with one cell per accepted input, and one skipped entry, with
/// its position and error, per input that did not decode.
pub fn build_report(outcomes: &Vec<Result<DecodedHeader, DecodeError>>) -> (r: Report)
    ensures
        r.rows@.len() == FIELD_COUNT,
        forall|f: int| 0 <= f < FIELD_COUNT ==> r.rows@[f].name@ == field_name_spec(f),
        forall|f: int|
            0 <= f < FIELD_COUNT ==> r.rows@[f].cells@.len() == accepted(outcomes@).len(),
        forall|f: int, j: int|
            0 <= f < FIELD_COUNT && 0 <= j < accepted(outcomes@).len() ==> cell_ok(
                f,
                accepted(outcomes@)[j],
                r.rows@[f].cells@[j],
            ),
        r.skipped@.len() == rejected(outcomes@).len(),
        forall|k: int|
            0 <= k < r.skipped@.len() ==> r.skipped@[k].0 as int == rejected(outcomes@)[k].0
                && r.skipped@[k].1 == rejected(outcomes@)[k].1,
{
    let mut rows: Vec<FieldRow> = Vec::new();
    let mut f: usize = 0;
    while f < FIELD_COUNT
        invariant
            f <= FIELD_COUNT,
            rows@.len() == f,
            forall|g: int| 0 <= g < f ==> rows@[g].name@ == field_name_spec(g),
            forall|g: int| 0 <= g < f ==> rows@[g].cells@.len() == accepted(outcomes@).len(),
            forall|g: int, j: int|
                0 <= g < f && 0 <= j < accepted(outcomes@).len() ==> cell_ok(
                    g,
                    accepted(outcomes@)[j],
                    rows@[g].cells@[j],
                ),
        decreases FIELD_COUNT - f,
    {
        let row = FieldRow { name: String::from_str(field_name(f)), cells: build_cells(f, outcomes) };
        rows.push(row);
        f = f + 1;
    }
    let mut skipped: Vec<(usize, DecodeError)> = Vec::new();
    let mut i: usize = 0;
    while i < outcomes.len()
        invariant
            i <= outcomes@.len(),
            skipped@.len() == rejected(outcomes@.take(i as int)).len(),
            forall|k: int|
                0 <= k < skipped@.len() ==> skipped@[k].0 as int == rejected(
                    outcomes@.take(i as int),
                )[k].0 && skipped@[k].1 == rejected(outcomes@.take(i as int))[k].1,
        decreases outcomes@.len() - i,
    {
        proof {
            lemma_rejected_take_step(outcomes@, i as int);
        }
        match &outcomes[i] {
            Ok(_) => {},
            Err(e) => {
                skipped.push((i, *e));
            },
        }
        i = i + 1;
    }
    proof {
        assert(outcomes@.take(outcomes@.len() as int) =~= outcomes@);
    }
    Report { rows, skipped }
}

} // verus!
