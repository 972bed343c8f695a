//! Filtering layer: a pure transformation over a data-source capability's
//! output, independent of authorization.

use vstd::prelude::*;

use crate::{DataSourceError, Datasource, TR};

verus! {

/// Failure inside the filtering layer: wraps the underlying data-source
/// error rather than swallowing it.
#[derive(Debug, Clone, Copy, PartialEq, Eq, Structural)]
pub enum ModelError {
    DatasourceError(DataSourceError),
}

/// Whether the character sequence `s` begins with the character `c`.
pub open spec fn starts_with_char(s: Seq<char>, c: char) -> bool {
    s.len() > 0 && s[0] == c
}

/// Whether the row's text column begins with the character `c`.
pub open spec fn col_starts_with(r: TR, c: char) -> bool {
    starts_with_char(r.col1@, c)
}

/// The text columns of the rows whose column begins with `c`, kept in the
/// rows' relative order.
pub open spec fn filtered_cols(rows: Seq<TR>, c: char) -> Seq<String>
    decreases rows.len(),
{
    if rows.len() == 0 {
        Seq::empty()
    } else {
        let prev = filtered_cols(rows.drop_last(), c);
        if col_starts_with(rows.last(), c) {
            prev.push(rows.last().col1)
        } else {
            prev
        }
    }
}

/// The filtering layer keeps exactly the rows whose column starts with the
/// given character, in their original relative order, and no others: its
/// result is the filter of the row sequence, projected to the text column.
pub proof fn lemma_filtered_cols_is_filter(rows: Seq<TR>, c: char)
    ensures
        filtered_cols(rows, c) == rows.filter(|r: TR| col_starts_with(r, c)).map_values(
            |r: TR| r.col1,
        ),
    decreases rows.len(),
{
    let pred = |r: TR| col_starts_with(r, c);
    let proj = |r: TR| r.col1;
    reveal(Seq::filter);
    if rows.len() == 0 {
        assert(rows.filter(pred).map_values(proj) =~= Seq::<String>::empty());
    } else {
        lemma_filtered_cols_is_filter(rows.drop_last(), c);
        if pred(rows.last()) {
            Seq::lemma_push_map_commute(rows.drop_last().filter(pred), proj, rows.last());
        }
    }
}

/// Returns the text column of each stored row whose column begins with
/// `starting_char`, in store order; a fetch failure is wrapped, not hidden.
pub fn get_datas_start_with_char<D: Datasource>(datasource: &D, starting_char: char) -> (r: Result<
    Vec<String>,
    ModelError,
>)
    ensures
        match datasource.spec_rows() {
            Ok(rows) => r matches Ok(v) && v@ == filtered_cols(rows, starting_char),
            Err(e) => r == Result::<Vec<String>, ModelError>::Err(ModelError::DatasourceError(e)),
        },
{
    let rows = match datasource.select_all_test() {
        Ok(rows) => rows,
        Err(e) => {
            return Err(ModelError::DatasourceError(e));
        },
    };
    let mut filtered_rows: Vec<String> = Vec::new();
    let mut i: usize = 0;
    while i < rows.len()
        invariant
            i <= rows.len(),
            filtered_rows@ == filtered_cols(rows@.take(i as int), starting_char),
        decreases rows@.len() - i,
    {
        let row = &rows[i];
        let keep = if row.col1.as_str().unicode_len() > 0 {
            row.col1.as_str().get_char(0) == starting_char
        } else {
            false
        };
        proof {
            assert(rows@.take(i + 1).drop_last() =~= rows@.take(i as int));
            assert(rows@.take(i + 1).last() == rows@[i as int]);
        }
        if keep {
            filtered_rows.push(row.col1.clone());
        }
        i = i + 1;
    }
    proof {
        assert(rows@.take(rows@.len() as int) =~= rows@);
    }
    Ok(filtered_rows)
}

} // verus!
