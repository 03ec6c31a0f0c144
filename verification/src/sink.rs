//! Shaping result rows for a delimited flat file.
//!
//! The sink contract: the header row is the key list of the first record,
//! and every structured record contributes one data row that renders each
//! header key's value in its primitive string form — numbers and booleans
//! stringified, nulls and nested structures empty, and a missing key an
//! empty cell. Records that are not structured contribute nothing, and a
//! record's extra keys (ones outside the header) are not rendered. Writing
//! the shaped table to disk is the caller's business, not this module's.

use vstd::prelude::*;

use crate::types::CellValue;
use crate::types::Row;

verus! {

/// The primitive string form of one cell.
pub open spec fn spec_render_cell(c: CellValue) -> Seq<char> {
    match c {
        CellValue::Text(s) => s@,
        CellValue::Number(s) => s@,
        CellValue::Boolean(b) => (if b {
            "true"@
        } else {
            "false"@
        }),
        CellValue::Null => Seq::empty(),
        CellValue::Nested => Seq::empty(),
    }
}

/// The first value a record holds under a key.
pub open spec fn spec_lookup(entries: Seq<(String, CellValue)>, key: Seq<char>) -> Option<
    CellValue,
>
    decreases entries.len(),
{
    if entries.len() == 0 {
        None
    } else if entries.first().0@ == key {
        Some(entries.first().1)
    } else {
        spec_lookup(entries.drop_first(), key)
    }
}

/// The rendered text of a record's cell under a key: the value's primitive
/// string form, or empty when the record lacks the key.
pub open spec fn spec_cell_text(entries: Seq<(String, CellValue)>, key: Seq<char>) -> Seq<char> {
    match spec_lookup(entries, key) {
        Some(c) => spec_render_cell(c),
        None => Seq::empty(),
    }
}

/// The header: the key list of the first record, in its own order; empty
/// when there are no rows or the first row is unstructured.
pub open spec fn spec_header(rows: Seq<Row>) -> Seq<Seq<char>> {
    if rows.len() == 0 {
        Seq::empty()
    } else {
        match rows[0] {
            Row::Record(entries) => entries@.map_values(|e: (String, CellValue)| e.0@),
            Row::Unstructured => Seq::empty(),
        }
    }
}

/// The data rows: one per structured record, in order, each rendering every
/// header key; unstructured records are skipped.
pub open spec fn spec_table_rows(rows: Seq<Row>, headers: Seq<Seq<char>>) -> Seq<Seq<Seq<char>>>
    decreases rows.len(),
{
    if rows.len() == 0 {
        Seq::empty()
    } else {
        let rest = spec_table_rows(rows.drop_first(), headers);
        match rows.first() {
            Row::Record(entries) => seq![
                headers.map_values(|h: Seq<char>| spec_cell_text(entries@, h)),
            ] + rest,
            Row::Unstructured => rest,
        }
    }
}

/// The character-level view of a list of strings.
pub open spec fn spec_strings_view(v: Seq<String>) -> Seq<Seq<char>> {
    v.map_values(|s: String| s@)
}

/// Render one cell to its primitive string form.
pub fn render_cell(c: &CellValue) -> (r: String)
    ensures
        r@ == spec_render_cell(*c),
{
    match c {
        CellValue::Text(s) => s.clone(),
        CellValue::Number(s) => s.clone(),
        CellValue::Boolean(b) => (if *b {
            "true".to_owned()
        } else {
            "false".to_owned()
        }),
        CellValue::Null => String::new(),
        CellValue::Nested => String::new(),
    }
}

/// Find the first value a record holds under a key.
fn lookup<'a>(entries: &'a Vec<(String, CellValue)>, key: &String) -> (r: Option<&'a CellValue>)
    ensures
        match spec_lookup(entries@, key@) {
            Some(c) => r matches Some(rc) && *rc == c,
            None => r is None,
        },
{
    let mut i: usize = 0;
    proof {
        assert(entries@.skip(0) =~= entries@);
    }
    while i < entries.len()
        invariant
            0 <= i <= entries.len(),
            spec_lookup(entries@, key@) == spec_lookup(entries@.skip(i as int), key@),
        decreases entries.len() - i,
    {
        let ghost rest = entries@.skip(i as int);
        proof {
            assert(rest.first() == entries@[i as int]);
            assert(rest.drop_first() =~= entries@.skip(i + 1 as int));
        }
        if entries[i].0 == *key {
            return Some(&entries[i].1);
        }
        i = i + 1;
    }
    proof {
        assert(entries@.skip(entries@.len() as int).len() == 0);
    }
    None
}

/// The header row: the keys of the first record, in its own order.
pub fn csv_header(rows: &Vec<Row>) -> (r: Vec<String>)
    ensures
        spec_strings_view(r@) == spec_header(rows@),
{
    let mut headers: Vec<String> = Vec::new();
    if rows.len() > 0 {
        match &rows[0] {
            Row::Record(entries) => {
                let mut i: usize = 0;
                while i < entries.len()
                    invariant
                        0 <= i <= entries.len(),
                        headers.len() == i,
                        spec_strings_view(headers@) =~= entries@.map_values(
                            |e: (String, CellValue)| e.0@,
                        ).subrange(0, i as int),
                    decreases entries.len() - i,
                {
                    headers.push(entries[i].0.clone());
                    proof {
                        assert(spec_strings_view(headers@) =~= entries@.map_values(
                            |e: (String, CellValue)| e.0@,
                        ).subrange(0, i + 1 as int));
                    }
                    i = i + 1;
                }
                proof {
                    let keys = entries@.map_values(|e: (String, CellValue)| e.0@);
                    assert(keys.subrange(0, keys.len() as int) =~= keys);
                }
            },
            Row::Unstructured => {
                proof {
                    assert(spec_strings_view(headers@) =~= spec_header(rows@));
                }
            },
        }
    } else {
        proof {
            assert(spec_strings_view(headers@) =~= spec_header(rows@));
        }
    }
    headers
}

/// Render one structured record against a header: one cell per header key.
pub fn render_record(entries: &Vec<(String, CellValue)>, headers: &Vec<String>) -> (r: Vec<String>)
    ensures
        spec_strings_view(r@) == headers@.map_values(
            |h: String| spec_cell_text(entries@, h@),
        ),
{
    let ghost target = headers@.map_values(|h: String| spec_cell_text(entries@, h@));
    let mut cells: Vec<String> = Vec::new();
    let mut i: usize = 0;
    while i < headers.len()
        invariant
            0 <= i <= headers.len(),
            cells.len() == i,
            target == headers@.map_values(|h: String| spec_cell_text(entries@, h@)),
            spec_strings_view(cells@) =~= target.subrange(0, i as int),
        decreases headers.len() - i,
    {
        let cell: String = match lookup(entries, &headers[i]) {
            Some(c) => render_cell(c),
            None => String::new(),
        };
        cells.push(cell);
        proof {
            assert(spec_strings_view(cells@) =~= target.subrange(0, i + 1 as int));
        }
        i = i + 1;
    }
    proof {
        assert(target.subrange(0, target.len() as int) =~= target);
    }
    cells
}

/// The character-level view of a table of strings.
pub open spec fn spec_table_view(t: Seq<Vec<String>>) -> Seq<Seq<Seq<char>>> {
    t.map_values(|row: Vec<String>| spec_strings_view(row@))
}

/// Shape a row batch into a delimited table: the header row and one data row
/// per structured record.
pub fn csv_table(rows: &Vec<Row>) -> (r: (Vec<String>, Vec<Vec<String>>))
    ensures
        spec_strings_view(r.0@) == spec_header(rows@),
        spec_table_view(r.1@) == spec_table_rows(rows@, spec_header(rows@)),
{
    let ghost h = spec_header(rows@);
    let headers = csv_header(rows);
    let mut table: Vec<Vec<String>> = Vec::new();
    let mut i: usize = 0;
    proof {
        assert(rows@.skip(0) =~= rows@);
        assert(spec_table_view(table@) =~= Seq::<Seq<Seq<char>>>::empty());
        assert(Seq::<Seq<Seq<char>>>::empty() + spec_table_rows(rows@, h) =~= spec_table_rows(
            rows@,
            h,
        ));
    }
    while i < rows.len()
        invariant
            0 <= i <= rows.len(),
            h == spec_header(rows@),
            spec_strings_view(headers@) == h,
            spec_table_view(table@) + spec_table_rows(rows@.skip(i as int), h) =~= spec_table_rows(
                rows@,
                h,
            ),
        decreases rows.len() - i,
    {
        let ghost rest = rows@.skip(i as int);
        proof {
            assert(rest.first() == rows@[i as int]);
            assert(rest.drop_first() =~= rows@.skip(i + 1 as int));
        }
        match &rows[i] {
            Row::Record(entries) => {
                let ghost prev_view = spec_table_view(table@);
                let ghost rendered_spec = h.map_values(
                    |hk: Seq<char>| spec_cell_text(entries@, hk),
                );
                let rendered = render_record(entries, &headers);
                proof {
                    assert(spec_strings_view(rendered@) =~= rendered_spec);
                    assert(spec_table_rows(rest, h) == seq![rendered_spec] + spec_table_rows(
                        rows@.skip(i + 1 as int),
                        h,
                    ));
                }
                table.push(rendered);
                proof {
                    assert(spec_table_view(table@) =~= prev_view + seq![rendered_spec]);
                    assert((prev_view + seq![rendered_spec]) + spec_table_rows(
                        rows@.skip(i + 1 as int),
                        h,
                    ) =~= prev_view + (seq![rendered_spec] + spec_table_rows(
                        rows@.skip(i + 1 as int),
                        h,
                    )));
                }
            },
            Row::Unstructured => {
                proof {
                    assert(spec_table_rows(rest, h) == spec_table_rows(
                        rows@.skip(i + 1 as int),
                        h,
                    ));
                }
            },
        }
        i = i + 1;
    }
    proof {
        assert(rows@.skip(rows@.len() as int).len() == 0);
        assert(spec_table_view(table@) =~= spec_table_rows(rows@, h));
    }
    (headers, table)
}

} // verus!
