//! The schema aggregator: decoding raw catalog rows and folding the ordered
//! row sequence of one database into a sequence of table documents.
//!
//! The fold keeps one current table: a row whose `(schema_name, table_name)`
//! key equals the key of the most recent table extends that table's columns;
//! any other row opens a new table seeded with the caller's database name.
//! This is a streaming group-by on a pre-sorted key: it relies on rows with
//! equal keys arriving contiguously.

use vstd::prelude::*;

use crate::decode::{
    cell_view, decode_i32_cell, decode_is_nullable, decode_string_cell, spec_decode_i32_cell,
    spec_decode_string_cell, spec_is_yes,
};
use crate::errors::{SnowflakeMapperError, SnowflakeMapperErrorView};
use crate::model::{tables_view, ColumnInfo, ColumnInfoView, TableInfo, TableInfoView};

verus! {

/// Spec-level image of [`RawColumnRow`].
#[verifier::ext_equal]
pub ghost struct RawColumnRowView {
    pub table_schema: Result<Option<Seq<char>>, Seq<char>>,
    pub table_name: Result<Option<Seq<char>>, Seq<char>>,
    pub column_name: Result<Option<Seq<char>>, Seq<char>>,
    pub data_type: Result<Option<Seq<char>>, Seq<char>>,
    pub is_nullable: Result<Option<Seq<char>>, Seq<char>>,
    pub character_maximum_length: Result<Option<Seq<char>>, Seq<char>>,
    pub numeric_precision: Result<Option<Seq<char>>, Seq<char>>,
    pub numeric_scale: Result<Option<Seq<char>>, Seq<char>>,
}

/// One raw catalog row: the outcome of reading each named column of the
/// information-schema columns view, before any field decoding.
#[derive(Debug)]
pub struct RawColumnRow {
    pub table_schema: Result<Option<String>, String>,
    pub table_name: Result<Option<String>, String>,
    pub column_name: Result<Option<String>, String>,
    pub data_type: Result<Option<String>, String>,
    pub is_nullable: Result<Option<String>, String>,
    pub character_maximum_length: Result<Option<String>, String>,
    pub numeric_precision: Result<Option<String>, String>,
    pub numeric_scale: Result<Option<String>, String>,
}

impl View for RawColumnRow {
    type V = RawColumnRowView;

    open spec fn view(&self) -> RawColumnRowView {
        RawColumnRowView {
            table_schema: cell_view(self.table_schema),
            table_name: cell_view(self.table_name),
            column_name: cell_view(self.column_name),
            data_type: cell_view(self.data_type),
            is_nullable: cell_view(self.is_nullable),
            character_maximum_length: cell_view(self.character_maximum_length),
            numeric_precision: cell_view(self.numeric_precision),
            numeric_scale: cell_view(self.numeric_scale),
        }
    }
}

/// Spec-level image of [`ColumnRow`].
#[verifier::ext_equal]
pub ghost struct ColumnRowView {
    pub schema_name: Seq<char>,
    pub table_name: Seq<char>,
    pub column: ColumnInfoView,
}

/// One fully decoded catalog row: its grouping key and its column record.
#[derive(Debug)]
pub struct ColumnRow {
    pub schema_name: String,
    pub table_name: String,
    pub column: ColumnInfo,
}

impl View for ColumnRow {
    type V = ColumnRowView;

    open spec fn view(&self) -> ColumnRowView {
        ColumnRowView {
            schema_name: self.schema_name@,
            table_name: self.table_name@,
            column: self.column@,
        }
    }
}

/// The views of a sequence of raw rows.
pub open spec fn raw_rows_view(rs: Seq<RawColumnRow>) -> Seq<RawColumnRowView> {
    rs.map_values(|r: RawColumnRow| r@)
}

/// The views of a sequence of decoded rows.
pub open spec fn rows_view(rs: Seq<ColumnRow>) -> Seq<ColumnRowView> {
    rs.map_values(|r: ColumnRow| r@)
}

/// What decoding one raw row yields: each field decoded by the rules of
/// [`crate::decode`], in the order the fields are read, with the first
/// failure reported.
pub open spec fn spec_decode_column_row(r: RawColumnRowView) -> Result<
    ColumnRowView,
    SnowflakeMapperErrorView,
> {
    match spec_decode_string_cell(r.table_schema, "table_schema"@) {
        Err(e) => Err(e),
        Ok(schema_name) => match spec_decode_string_cell(r.table_name, "table_name"@) {
            Err(e) => Err(e),
            Ok(table_name) => match spec_decode_string_cell(r.column_name, "column_name"@) {
                Err(e) => Err(e),
                Ok(name) => match spec_decode_string_cell(r.data_type, "data_type"@) {
                    Err(e) => Err(e),
                    Ok(data_type) => match spec_decode_string_cell(
                        r.is_nullable,
                        "is_nullable"@,
                    ) {
                        Err(e) => Err(e),
                        Ok(is_nullable_src) => match spec_decode_i32_cell(
                            r.character_maximum_length,
                            "character_maximum_length"@,
                        ) {
                            Err(e) => Err(e),
                            Ok(character_maximum_length) => match spec_decode_i32_cell(
                                r.numeric_precision,
                                "numeric_precision"@,
                            ) {
                                Err(e) => Err(e),
                                Ok(numeric_precision) => match spec_decode_i32_cell(
                                    r.numeric_scale,
                                    "numeric_scale"@,
                                ) {
                                    Err(e) => Err(e),
                                    Ok(numeric_scale) => Ok(
                                        ColumnRowView {
                                            schema_name,
                                            table_name,
                                            column: ColumnInfoView {
                                                name,
                                                data_type,
                                                is_nullable: spec_is_yes(is_nullable_src),
                                                character_maximum_length,
                                                numeric_precision,
                                                numeric_scale,
                                            },
                                        },
                                    ),
                                },
                            },
                        },
                    },
                },
            },
        },
    }
}

/// What decoding a whole row sequence yields: every row decoded in order,
/// stopping at the first failure.
pub open spec fn spec_decode_rows(rs: Seq<RawColumnRowView>) -> Result<
    Seq<ColumnRowView>,
    SnowflakeMapperErrorView,
>
    decreases rs.len(),
{
    if rs.len() == 0 {
        Ok(Seq::<ColumnRowView>::empty())
    } else {
        match spec_decode_rows(rs.drop_last()) {
            Err(e) => Err(e),
            Ok(s) => match spec_decode_column_row(rs.last()) {
                Err(e) => Err(e),
                Ok(d) => Ok(s.push(d)),
            },
        }
    }
}

/// What the streaming group-by yields on a decoded row sequence: a row whose
/// key equals the key of the last table extends that table; any other row
/// opens a new table owning just that row's column.
pub open spec fn spec_aggregate(database: Seq<char>, rows: Seq<ColumnRowView>) -> Seq<
    TableInfoView,
>
    decreases rows.len(),
{
    if rows.len() == 0 {
        Seq::<TableInfoView>::empty()
    } else {
        let prev = spec_aggregate(database, rows.drop_last());
        let r = rows.last();
        if prev.len() > 0 && prev.last().schema_name == r.schema_name && prev.last().table_name
            == r.table_name {
            prev.update(
                prev.len() - 1,
                TableInfoView {
                    database_name: prev.last().database_name,
                    schema_name: prev.last().schema_name,
                    table_name: prev.last().table_name,
                    columns: prev.last().columns.push(r.column),
                },
            )
        } else {
            prev.push(
                TableInfoView {
                    database_name: database,
                    schema_name: r.schema_name,
                    table_name: r.table_name,
                    columns: seq![r.column],
                },
            )
        }
    }
}

/// The grouping key of a decoded row.
#[verifier::ext_equal]
pub ghost struct TableKey {
    pub schema_name: Seq<char>,
    pub table_name: Seq<char>,
}

/// The key of a decoded row.
pub open spec fn row_key(r: ColumnRowView) -> TableKey {
    TableKey { schema_name: r.schema_name, table_name: r.table_name }
}

/// The key of a table document.
pub open spec fn table_key(t: TableInfoView) -> TableKey {
    TableKey { schema_name: t.schema_name, table_name: t.table_name }
}

/// The keys of a sequence of table documents, in order.
pub open spec fn keys_of(ts: Seq<TableInfoView>) -> Seq<TableKey> {
    ts.map_values(|t: TableInfoView| table_key(t))
}

/// A key occurs in a key sequence.
pub open spec fn key_in(ks: Seq<TableKey>, k: TableKey) -> bool {
    exists|i: int| 0 <= i < ks.len() && ks[i] == k
}

/// Rows with equal keys are contiguous: no key recurs after a different key
/// intervened. This is what the catalog's ordering guarantee gives the
/// aggregator.
pub open spec fn grouped(rows: Seq<ColumnRowView>) -> bool {
    forall|i: int, j: int, k: int|
        0 <= i < j < k < rows.len() && row_key(rows[i]) == row_key(rows[k]) ==> row_key(rows[j])
            == row_key(rows[i])
}

/// `a` precedes or equals `b`: lexicographic on code points, shorter
/// sequences first.
pub open spec fn seq_char_le(a: Seq<char>, b: Seq<char>) -> bool
    decreases a.len(),
{
    if a.len() == 0 {
        true
    } else if b.len() == 0 {
        false
    } else if (a[0] as int) < (b[0] as int) {
        true
    } else if a[0] == b[0] {
        seq_char_le(a.drop_first(), b.drop_first())
    } else {
        false
    }
}

/// `a` precedes or equals `b` in the catalog's ordering of grouping keys:
/// by schema name, then table name.
pub open spec fn key_le(a: TableKey, b: TableKey) -> bool {
    if a.schema_name != b.schema_name {
        seq_char_le(a.schema_name, b.schema_name)
    } else {
        seq_char_le(a.table_name, b.table_name)
    }
}

/// The rows stand in the order the columns query asks for: nondecreasing in
/// the grouping key. The ordinal position within a key does not matter to
/// the grouping.
pub open spec fn sorted_by_key(rows: Seq<ColumnRowView>) -> bool {
    forall|i: int, j: int|
        0 <= i <= j < rows.len() ==> key_le(row_key(#[trigger] rows[i]), row_key(#[trigger] rows[j]))
}

proof fn lemma_seq_char_le_antisymmetric(a: Seq<char>, b: Seq<char>)
    requires
        seq_char_le(a, b),
        seq_char_le(b, a),
    ensures
        a == b,
    decreases a.len(),
{
    if a.len() == 0 {
        assert(b.len() == 0);
        assert(a =~= b);
    } else {
        assert(b.len() > 0);
        assert(a[0] == b[0]);
        lemma_seq_char_le_antisymmetric(a.drop_first(), b.drop_first());
        assert forall|i: int| 0 <= i < a.len() implies a[i] == b[i] by {
            if i > 0 {
                assert(a.drop_first()[i - 1] == b.drop_first()[i - 1]);
            }
        }
        assert(a =~= b);
    }
}

proof fn lemma_key_le_antisymmetric(a: TableKey, b: TableKey)
    requires
        key_le(a, b),
        key_le(b, a),
    ensures
        a == b,
{
    if a.schema_name != b.schema_name {
        lemma_seq_char_le_antisymmetric(a.schema_name, b.schema_name);
    } else {
        lemma_seq_char_le_antisymmetric(a.table_name, b.table_name);
        assert(a =~= b);
    }
}

/// Law: rows sorted by the grouping key are key-contiguous: sortedness is
/// what the catalog's ordering clause guarantees, and contiguity is all the
/// group-by needs of it.
pub proof fn lemma_sorted_implies_grouped(rows: Seq<ColumnRowView>)
    requires
        sorted_by_key(rows),
    ensures
        grouped(rows),
{
    assert forall|i: int, j: int, k: int|
        0 <= i < j < k < rows.len() && row_key(rows[i]) == row_key(rows[k]) implies row_key(
        rows[j],
    ) == row_key(rows[i]) by {
        assert(key_le(row_key(rows[i]), row_key(rows[j])));
        assert(key_le(row_key(rows[j]), row_key(rows[k])));
        lemma_key_le_antisymmetric(row_key(rows[i]), row_key(rows[j]));
    }
}

/// The distinct keys of a row sequence, in order of first appearance.
pub open spec fn first_keys(rows: Seq<ColumnRowView>) -> Seq<TableKey>
    decreases rows.len(),
{
    if rows.len() == 0 {
        Seq::<TableKey>::empty()
    } else {
        let p = first_keys(rows.drop_last());
        if key_in(p, row_key(rows.last())) {
            p
        } else {
            p.push(row_key(rows.last()))
        }
    }
}

/// The sum of the column counts of a sequence of table documents.
pub open spec fn total_columns(ts: Seq<TableInfoView>) -> int
    decreases ts.len(),
{
    if ts.len() == 0 {
        0int
    } else {
        total_columns(ts.drop_last()) + ts.last().columns.len()
    }
}

proof fn lemma_key_in_push(ks: Seq<TableKey>, k0: TableKey, k: TableKey)
    ensures
        key_in(ks.push(k0), k) <==> (key_in(ks, k) || k == k0),
{
    if key_in(ks.push(k0), k) {
        let i = choose|i: int| 0 <= i < ks.push(k0).len() && ks.push(k0)[i] == k;
        if i < ks.len() {
            assert(ks[i] == k);
        } else {
            assert(k == k0);
        }
    }
    if key_in(ks, k) {
        let i = choose|i: int| 0 <= i < ks.len() && ks[i] == k;
        assert(ks.push(k0)[i] == k);
    }
    if k == k0 {
        assert(ks.push(k0)[ks.len() as int] == k);
    }
}

proof fn lemma_first_keys_occurs(rows: Seq<ColumnRowView>, k: TableKey)
    ensures
        key_in(first_keys(rows), k) <==> exists|i: int|
            0 <= i < rows.len() && row_key(rows[i]) == k,
    decreases rows.len(),
{
    if rows.len() == 0 {
    } else {
        let rp = rows.drop_last();
        let p = first_keys(rp);
        lemma_first_keys_occurs(rp, k);
        let klast = row_key(rows.last());
        if key_in(p, klast) {
            assert(first_keys(rows) == p);
            if exists|i: int| 0 <= i < rows.len() && row_key(rows[i]) == k {
                let i = choose|i: int| 0 <= i < rows.len() && row_key(rows[i]) == k;
                if i < rows.len() - 1 {
                    assert(row_key(rp[i]) == k);
                } else {
                    assert(k == klast);
                }
                assert(key_in(p, k));
            }
            if key_in(p, k) {
                let i = choose|i: int| 0 <= i < rp.len() && row_key(rp[i]) == k;
                assert(row_key(rows[i]) == k);
            }
        } else {
            lemma_key_in_push(p, klast, k);
            if key_in(first_keys(rows), k) {
                if k == klast {
                    assert(row_key(rows[rows.len() - 1]) == k);
                } else {
                    let i = choose|i: int| 0 <= i < rp.len() && row_key(rp[i]) == k;
                    assert(row_key(rows[i]) == k);
                }
            }
            if exists|i: int| 0 <= i < rows.len() && row_key(rows[i]) == k {
                let i = choose|i: int| 0 <= i < rows.len() && row_key(rows[i]) == k;
                if i < rows.len() - 1 {
                    assert(row_key(rp[i]) == k);
                    assert(key_in(p, k));
                } else {
                    assert(k == klast);
                }
            }
        }
    }
}

proof fn lemma_aggregate_last_key(database: Seq<char>, rows: Seq<ColumnRowView>)
    requires
        rows.len() > 0,
    ensures
        spec_aggregate(database, rows).len() > 0,
        table_key(spec_aggregate(database, rows).last()) == row_key(rows.last()),
{
    let prev = spec_aggregate(database, rows.drop_last());
    let r = rows.last();
    if prev.len() > 0 && prev.last().schema_name == r.schema_name && prev.last().table_name
        == r.table_name {
        assert(table_key(spec_aggregate(database, rows).last()) =~= row_key(r));
    } else {
        assert(table_key(spec_aggregate(database, rows).last()) =~= row_key(r));
    }
}

/// Law: every aggregation (grouped or not) accounts for each input row as
/// exactly one column of exactly one table: the column counts of the tables
/// sum to the number of rows. An empty row sequence yields no tables.
pub proof fn lemma_aggregate_column_count(database: Seq<char>, rows: Seq<ColumnRowView>)
    ensures
        total_columns(spec_aggregate(database, rows)) == rows.len(),
        rows.len() == 0 ==> spec_aggregate(database, rows) == Seq::<TableInfoView>::empty(),
    decreases rows.len(),
{
    if rows.len() > 0 {
        let rp = rows.drop_last();
        lemma_aggregate_column_count(database, rp);
        let prev = spec_aggregate(database, rp);
        let r = rows.last();
        let agg = spec_aggregate(database, rows);
        if prev.len() > 0 && prev.last().schema_name == r.schema_name && prev.last().table_name
            == r.table_name {
            assert(agg.drop_last() =~= prev.drop_last());
            assert(agg.last().columns.len() == prev.last().columns.len() + 1);
        } else {
            assert(agg.drop_last() =~= prev);
            assert(agg.last().columns.len() == 1);
        }
    }
}

/// Law: every table of an aggregation is well formed: it carries the
/// database it was built for and owns at least one column.
pub proof fn lemma_aggregate_wf(database: Seq<char>, rows: Seq<ColumnRowView>)
    ensures
        forall|t: int|
            0 <= t < spec_aggregate(database, rows).len() ==> crate::model::table_wf(
                #[trigger] spec_aggregate(database, rows)[t],
                database,
            ),
    decreases rows.len(),
{
    if rows.len() > 0 {
        let rp = rows.drop_last();
        lemma_aggregate_wf(database, rp);
        let prev = spec_aggregate(database, rp);
        let r = rows.last();
        let agg = spec_aggregate(database, rows);
        if prev.len() > 0 && prev.last().schema_name == r.schema_name && prev.last().table_name
            == r.table_name {
            assert(forall|t: int| 0 <= t < agg.len() - 1 ==> agg[t] == prev[t]);
        } else {
        }
    }
}

/// Law: on a key-contiguous row sequence the group-by produces one table per
/// distinct key, and the tables stand in order of each key's first
/// appearance: their key sequence is exactly [`first_keys`] of the rows, with
/// no key repeated.
pub proof fn lemma_aggregate_first_appearance(database: Seq<char>, rows: Seq<ColumnRowView>)
    requires
        grouped(rows),
    ensures
        keys_of(spec_aggregate(database, rows)) == first_keys(rows),
        forall|a: int, b: int|
            0 <= a < b < spec_aggregate(database, rows).len() ==> table_key(
                #[trigger] spec_aggregate(database, rows)[a],
            ) != table_key(#[trigger] spec_aggregate(database, rows)[b]),
    decreases rows.len(),
{
    if rows.len() == 0 {
        assert(keys_of(spec_aggregate(database, rows)) =~= first_keys(rows));
    } else {
        let rp = rows.drop_last();
        assert(grouped(rp)) by {
            assert(forall|i: int, j: int, k: int|
                0 <= i < j < k < rp.len() && row_key(rp[i]) == row_key(rp[k]) ==> row_key(
                    rows[j],
                ) == row_key(rows[i]) && row_key(rp[j]) == row_key(rp[i]));
        }
        lemma_aggregate_first_appearance(database, rp);
        let prev = spec_aggregate(database, rp);
        let r = rows.last();
        let agg = spec_aggregate(database, rows);
        let p = first_keys(rp);
        if prev.len() > 0 && prev.last().schema_name == r.schema_name && prev.last().table_name
            == r.table_name {
            // the row extends the current table: keys unchanged
            assert(keys_of(agg) =~= keys_of(prev));
            assert(table_key(prev.last()) == row_key(r));
            assert(keys_of(prev)[prev.len() - 1] == row_key(r));
            assert(key_in(p, row_key(r)));
            assert(first_keys(rows) == p);
            assert(forall|a: int, b: int|
                0 <= a < b < agg.len() ==> table_key(#[trigger] agg[a]) == keys_of(prev)[a]
                    && table_key(#[trigger] agg[b]) == keys_of(prev)[b]);
        } else {
            // the row opens a new table: its key has not appeared before
            assert(keys_of(agg) =~= keys_of(prev).push(row_key(r)));
            if prev.len() == 0 {
                lemma_aggregate_column_count(database, rp);
                assert(rp.len() == 0);
                assert(p =~= Seq::<TableKey>::empty());
                assert(!key_in(p, row_key(r)));
            } else {
                lemma_aggregate_last_key(database, rp);
                assert(rp.len() > 0);
                assert(table_key(prev.last()) == row_key(rp.last()));
                assert(row_key(rp.last()) != row_key(r)) by {
                    assert(table_key(prev.last()) != row_key(r));
                }
                if key_in(p, row_key(r)) {
                    lemma_first_keys_occurs(rp, row_key(r));
                    let i = choose|i: int| 0 <= i < rp.len() && row_key(rp[i]) == row_key(r);
                    assert(i != rp.len() - 1);
                    // the key at i recurs at the end after a different key
                    assert(row_key(rows[i]) == row_key(rows[rows.len() - 1]));
                    assert(row_key(rows[rows.len() - 2]) == row_key(rows[i]));
                    assert(row_key(rp[rp.len() - 1]) == row_key(r));
                    assert(false);
                }
                assert(!key_in(p, row_key(r)));
            }
            assert(first_keys(rows) == p.push(row_key(r)));
            assert(forall|a: int|
                0 <= a < prev.len() ==> table_key(#[trigger] agg[a]) == keys_of(prev)[a]);
            assert(forall|a: int|
                0 <= a < prev.len() ==> !key_in(p, table_key(#[trigger] agg[a])) ==> false) by {
                assert(forall|a: int|
                    0 <= a < prev.len() ==> keys_of(prev)[a] == table_key(#[trigger] prev[a]));
            }
            assert(forall|a: int, b: int|
                0 <= a < b < agg.len() - 1 ==> table_key(#[trigger] agg[a]) != table_key(
                    #[trigger] agg[b],
                ));
            assert(forall|a: int|
                0 <= a < agg.len() - 1 ==> table_key(#[trigger] agg[a]) != table_key(
                    agg[agg.len() - 1],
                )) by {
                assert(forall|a: int|
                    0 <= a < prev.len() ==> keys_of(prev)[a] == table_key(
                        #[trigger] agg[a],
                    ) && 0 <= a < keys_of(prev).len());
            }
        }
    }
}

impl Clone for ColumnInfo {
    /// Clones the record field by field.
    fn clone(&self) -> (r: Self)
        ensures
            r == *self,
    {
        ColumnInfo {
            name: self.name.clone(),
            data_type: self.data_type.clone(),
            is_nullable: self.is_nullable,
            character_maximum_length: self.character_maximum_length,
            numeric_precision: self.numeric_precision,
            numeric_scale: self.numeric_scale,
        }
    }
}

/// Decodes one raw catalog row, exactly as [`spec_decode_column_row`]
/// describes.
pub fn decode_column_row(raw: &RawColumnRow) -> (r: Result<ColumnRow, SnowflakeMapperError>)
    ensures
        match r {
            Ok(d) => spec_decode_column_row(raw@) == Ok::<ColumnRowView, SnowflakeMapperErrorView>(
                d@,
            ),
            Err(e) => spec_decode_column_row(raw@) == Err::<
                ColumnRowView,
                SnowflakeMapperErrorView,
            >(e@),
        },
{
    let schema_name = match decode_string_cell(&raw.table_schema, "table_schema") {
        Ok(v) => v,
        Err(e) => return Err(e),
    };
    let table_name = match decode_string_cell(&raw.table_name, "table_name") {
        Ok(v) => v,
        Err(e) => return Err(e),
    };
    let name = match decode_string_cell(&raw.column_name, "column_name") {
        Ok(v) => v,
        Err(e) => return Err(e),
    };
    let data_type = match decode_string_cell(&raw.data_type, "data_type") {
        Ok(v) => v,
        Err(e) => return Err(e),
    };
    let is_nullable_src = match decode_string_cell(&raw.is_nullable, "is_nullable") {
        Ok(v) => v,
        Err(e) => return Err(e),
    };
    let character_maximum_length = match decode_i32_cell(
        &raw.character_maximum_length,
        "character_maximum_length",
    ) {
        Ok(v) => v,
        Err(e) => return Err(e),
    };
    let numeric_precision = match decode_i32_cell(&raw.numeric_precision, "numeric_precision") {
        Ok(v) => v,
        Err(e) => return Err(e),
    };
    let numeric_scale = match decode_i32_cell(&raw.numeric_scale, "numeric_scale") {
        Ok(v) => v,
        Err(e) => return Err(e),
    };
    let is_nullable = decode_is_nullable(is_nullable_src.as_str());
    Ok(
        ColumnRow {
            schema_name,
            table_name,
            column: ColumnInfo {
                name,
                data_type,
                is_nullable,
                character_maximum_length,
                numeric_precision,
                numeric_scale,
            },
        },
    )
}

/// Decodes a whole raw row sequence, exactly as [`spec_decode_rows`]
/// describes.
#[verifier::loop_isolation(false)]
pub fn decode_rows(raws: &Vec<RawColumnRow>) -> (r: Result<Vec<ColumnRow>, SnowflakeMapperError>)
    ensures
        match r {
            Ok(rows) => spec_decode_rows(raw_rows_view(raws@)) == Ok::<
                Seq<ColumnRowView>,
                SnowflakeMapperErrorView,
            >(rows_view(rows@)),
            Err(e) => spec_decode_rows(raw_rows_view(raws@)) == Err::<
                Seq<ColumnRowView>,
                SnowflakeMapperErrorView,
            >(e@),
        },
{
    let mut rows: Vec<ColumnRow> = Vec::new();
    let mut i: usize = 0;
    proof {
        assert(raw_rows_view(raws@.subrange(0, 0)) =~= Seq::<RawColumnRowView>::empty());
        assert(rows_view(rows@) =~= Seq::<ColumnRowView>::empty());
    }
    while i < raws.len()
        invariant
            0 <= i <= raws@.len(),
            spec_decode_rows(raw_rows_view(raws@.subrange(0, i as int))) == Ok::<
                Seq<ColumnRowView>,
                SnowflakeMapperErrorView,
            >(rows_view(rows@)),
        decreases raws@.len() - i,
    {
        proof {
            let pre = raws@.subrange(0, i as int);
            let post = raws@.subrange(0, i as int + 1);
            assert(post.drop_last() =~= pre);
            assert(raw_rows_view(post).drop_last() =~= raw_rows_view(pre));
            assert(raw_rows_view(post).last() == raws@[i as int]@);
        }
        match decode_column_row(&raws[i]) {
            Ok(d) => {
                let ghost prev_rows = rows@;
                let ghost dv = d@;
                rows.push(d);
                proof {
                    let post = raws@.subrange(0, i as int + 1);
                    assert(rows_view(rows@) =~= rows_view(prev_rows).push(dv));
                    assert(spec_decode_rows(raw_rows_view(post)) == Ok::<
                        Seq<ColumnRowView>,
                        SnowflakeMapperErrorView,
                    >(rows_view(rows@)));
                }
            },
            Err(e) => {
                proof {
                    let post = raws@.subrange(0, i as int + 1);
                    assert(spec_decode_rows(raw_rows_view(post)) == Err::<
                        Seq<ColumnRowView>,
                        SnowflakeMapperErrorView,
                    >(e@));
                    let all = raw_rows_view(raws@);
                    assert(all.subrange(0, i as int + 1) =~= raw_rows_view(post));
                    lemma_decode_rows_err_extends(all, i as int + 1);
                }
                return Err(e);
            },
        }
        i += 1;
    }
    proof {
        assert(raws@.subrange(0, raws@.len() as int) =~= raws@);
    }
    Ok(rows)
}

proof fn lemma_decode_rows_err_extends(rs: Seq<RawColumnRowView>, i: int)
    requires
        0 <= i <= rs.len(),
        spec_decode_rows(rs.subrange(0, i)) is Err,
    ensures
        spec_decode_rows(rs) == spec_decode_rows(rs.subrange(0, i)),
    decreases rs.len() - i,
{
    if i < rs.len() {
        let p = rs.subrange(0, i);
        let q = rs.subrange(0, i + 1);
        assert(q.drop_last() =~= p);
        assert(spec_decode_rows(q) == spec_decode_rows(p));
        lemma_decode_rows_err_extends(rs, i + 1);
    } else {
        assert(rs.subrange(0, rs.len() as int) =~= rs);
    }
}

/// Law: on a row sequence pre-sorted by the grouping key, the aggregator
/// produces table groups whose column counts sum to the input row count,
/// one group per distinct key, in order of each key's first appearance.
pub proof fn lemma_aggregate_sorted(database: Seq<char>, rows: Seq<ColumnRowView>)
    requires
        sorted_by_key(rows),
    ensures
        total_columns(spec_aggregate(database, rows)) == rows.len(),
        keys_of(spec_aggregate(database, rows)) == first_keys(rows),
        forall|a: int, b: int|
            0 <= a < b < spec_aggregate(database, rows).len() ==> table_key(
                #[trigger] spec_aggregate(database, rows)[a],
            ) != table_key(#[trigger] spec_aggregate(database, rows)[b]),
{
    lemma_sorted_implies_grouped(rows);
    lemma_aggregate_column_count(database, rows);
    lemma_aggregate_first_appearance(database, rows);
}

/// Law: a failed row decode always reports a column error: the decoder
/// fails only through the field rules, which name the offending column.
pub proof fn lemma_decode_rows_err_is_column(rs: Seq<RawColumnRowView>)
    ensures
        spec_decode_rows(rs) is Err ==> spec_decode_rows(rs)->Err_0 is ColumnError,
    decreases rs.len(),
{
    if rs.len() > 0 {
        lemma_decode_rows_err_is_column(rs.drop_last());
    }
}

/// Groups a decoded, key-contiguous row sequence into table documents,
/// exactly as [`spec_aggregate`] describes.
#[verifier::loop_isolation(false)]
pub fn group_rows(database: &str, rows: &Vec<ColumnRow>) -> (tables: Vec<TableInfo>)
    ensures
        tables_view(tables@) == spec_aggregate(database@, rows_view(rows@)),
{
    let mut tables: Vec<TableInfo> = Vec::new();
    let mut i: usize = 0;
    while i < rows.len()
        invariant
            0 <= i <= rows@.len(),
            tables_view(tables@) == spec_aggregate(database@, rows_view(rows@.subrange(0, i as int))),
        decreases rows@.len() - i,
    {
        proof {
            let pre = rows@.subrange(0, i as int);
            let post = rows@.subrange(0, i as int + 1);
            assert(post.drop_last() =~= pre);
            assert(rows_view(post).drop_last() =~= rows_view(pre));
        }
        let row = &rows[i];
        let tlen = tables.len();
        let mut extend_last = false;
        if tlen > 0 {
            let last_ref = &tables[tlen - 1];
            if last_ref.schema_name.eq(&row.schema_name) && last_ref.table_name.eq(&row.table_name)
            {
                extend_last = true;
            }
        }
        if extend_last {
            let mut last = tables.pop().unwrap();
            last.columns.push(row.column.clone());
            tables.push(last);
            proof {
                let pre = rows@.subrange(0, i as int);
                let post = rows@.subrange(0, i as int + 1);
                let prev = spec_aggregate(database@, rows_view(pre));
                assert(tables@.last()@.columns =~= prev.last().columns.push(row@.column));
                assert(tables@.last()@ =~~= spec_aggregate(database@, rows_view(post)).last());
                assert(tables_view(tables@) =~~= spec_aggregate(database@, rows_view(post)));
            }
        } else {
            let mut columns: Vec<ColumnInfo> = Vec::new();
            columns.push(row.column.clone());
            tables.push(
                TableInfo {
                    database_name: String::from_str(database),
                    schema_name: row.schema_name.clone(),
                    table_name: row.table_name.clone(),
                    columns,
                },
            );
            proof {
                let pre = rows@.subrange(0, i as int);
                let post = rows@.subrange(0, i as int + 1);
                assert(tables@.last()@.columns =~= seq![row@.column]);
                assert(tables@.last()@ =~~= spec_aggregate(database@, rows_view(post)).last());
                assert(tables_view(tables@) =~~= spec_aggregate(database@, rows_view(post)));
            }
        }
        i += 1;
    }
    proof {
        assert(rows@.subrange(0, rows@.len() as int) =~= rows@);
    }
    tables
}

/// Decodes and groups the raw column rows of one database: the composition
/// of [`decode_rows`] and [`group_rows`], with the first decode failure
/// reported instead of a result.
pub fn aggregate_tables(database: &str, raws: &Vec<RawColumnRow>) -> (r: Result<
    Vec<TableInfo>,
    SnowflakeMapperError,
>)
    ensures
        match r {
            Ok(tables) => spec_decode_rows(raw_rows_view(raws@)) is Ok && tables_view(tables@)
                == spec_aggregate(database@, spec_decode_rows(raw_rows_view(raws@))->Ok_0),
            Err(e) => spec_decode_rows(raw_rows_view(raws@)) is Err && e@ == spec_decode_rows(
                raw_rows_view(raws@),
            )->Err_0,
        },
{
    let rows = match decode_rows(raws) {
        Ok(rows) => rows,
        Err(e) => return Err(e),
    };
    Ok(group_rows(database, &rows))
}

} // verus!
