//! What holds of every compiled statement set.

use crate::catalog::{catalog, columns, first_match, first_match_is_least, pk_error_persists, pk_match, pk_positions, ColInfoView, KeyTypeView, RecordType, RecordTypeView};
use crate::config::{apply_arg, apply_directives, default_cfg, model_cfg, result_view, table_arg, ConfigError, ConfigErrorView, DirectiveView, ModelCfgView};
use crate::derive::{insert_marks, insert_of, insert_plan, quoted_at, resolved, statement_set, table_plan, unmarked, update_marks, update_plan, StatementSet, StatementSetView, TablePlanView};
use crate::statement::{
    assignments, delete_pieces, insert_pieces, numbers, params, params_add, params_of_assignments,
    params_of_placeholders, params_push, placeholder_pieces, qualified, render, select_pieces,
    set_pieces, update_pieces, where_pieces, Piece,
};
use crate::text::quoted_all;
use vstd::prelude::*;
use vstd::utf8::encode_utf8;

verus! {

/// The number of marked positions.
pub open spec fn marked(marks: Seq<bool>) -> nat
    decreases marks.len(),
{
    if marks.len() == 0 {
        0
    } else if marks.last() {
        marked(marks.drop_last()) + 1
    } else {
        marked(marks.drop_last())
    }
}

/// The pieces of the select statement of a table plan.
pub open spec fn select_shape(t: TablePlanView) -> Seq<Piece> {
    select_pieces(t.cols, t.qual_table, t.pk_cols)
}

/// The pieces of the delete statement of a table plan.
pub open spec fn delete_shape(t: TablePlanView) -> Seq<Piece> {
    delete_pieces(t.qual_table, t.pk_cols)
}

/// What `compile` promises of its result.
pub open spec fn compiles_to(input: RecordType, r: Result<StatementSet, ConfigError>) -> bool {
    result_view(r) == statement_set(input@)
}

/// The unmarked positions are exactly the positions without a mark, each
/// once and in ascending order; with the marked ones they make up all
/// positions.
pub proof fn unmarked_keeps_order(marks: Seq<bool>)
    ensures
        unmarked(marks).len() + marked(marks) == marks.len(),
        forall|k: int|
            0 <= k < unmarked(marks).len() ==> 0 <= (#[trigger] unmarked(marks)[k]) < marks.len()
                && !marks[unmarked(marks)[k]],
        forall|j: int, k: int|
            0 <= j < k < unmarked(marks).len() ==> unmarked(marks)[j] < unmarked(marks)[k],
        forall|i: int|
            0 <= i < marks.len() && !(#[trigger] marks[i]) ==> unmarked(marks).contains(i),
    decreases marks.len(),
{
    if marks.len() > 0 {
        let head = marks.drop_last();
        unmarked_keeps_order(head);
        let out = unmarked(marks);
        assert forall|i: int| 0 <= i < marks.len() && !(#[trigger] marks[i]) implies out.contains(
            i,
        ) by {
            if i < marks.len() - 1 {
                assert(!head[i]);
                let k = choose|k: int| 0 <= k < unmarked(head).len() && unmarked(head)[k] == i;
                assert(out[k] == i);
            } else {
                assert(out[out.len() - 1] == i);
            }
        }
    }
}

/// A descriptor that starts with a key keeps one through every directive,
/// so a resolved descriptor has a key of one or two columns.
pub proof fn resolved_key_has_one_or_two_columns(ds: Seq<DirectiveView>, ty_name: Seq<char>)
    requires
        model_cfg(ds, ty_name) is Ok,
    ensures
        1 <= model_cfg(ds, ty_name)->Ok_0.pk_cols.len() <= 2,
{
    key_stays_nonempty(default_cfg(ty_name), ds);
}

/// Directives never leave a descriptor without a key.
pub proof fn key_stays_nonempty(cfg: ModelCfgView, ds: Seq<DirectiveView>)
    requires
        cfg.pk_cols.len() >= 1,
        apply_directives(cfg, ds) is Ok,
    ensures
        apply_directives(cfg, ds)->Ok_0.pk_cols.len() >= 1,
    decreases ds.len(),
{
    if ds.len() > 0 {
        let arg = table_arg(ds[0])->0;
        let next = apply_arg(cfg, arg)->Ok_0;
        key_stays_nonempty(next, ds.drop_first());
    }
}

/// A key that resolves has one field per configured column: the first
/// field, in declaration order, that the column name designates.
pub proof fn resolved_key_fields(cols: Seq<ColInfoView>, pks: Seq<Seq<char>>)
    requires
        pk_positions(cols, pks) is Ok,
    ensures
        pk_positions(cols, pks)->Ok_0.len() == pks.len(),
        forall|k: int|
            0 <= k < pks.len() ==> first_match(cols, #[trigger] pks[k], 0) == Some(
                pk_positions(cols, pks)->Ok_0[k],
            ),
        forall|k: int|
            0 <= k < pks.len() ==> 0 <= (#[trigger] pk_positions(cols, pks)->Ok_0[k]) < cols.len(),
    decreases pks.len(),
{
    if pks.len() > 0 {
        resolved_key_fields(cols, pks.drop_last());
        first_match_is_least(cols, pks.last(), 0);
        let found = pk_positions(cols, pks)->Ok_0;
        assert forall|k: int| 0 <= k < pks.len() implies first_match(cols, #[trigger] pks[k], 0)
            == Some(found[k]) by {
            if k < pks.len() - 1 {
                assert(pks.drop_last()[k] == pks[k]);
            }
        }
        assert forall|k: int| 0 <= k < pks.len() implies 0 <= (#[trigger] found[k])
            < cols.len() by {
            if k < pks.len() - 1 {
                assert(pk_positions(cols, pks.drop_last())->Ok_0[k] == found[k]);
            }
        }
    }
}

/// A record type that resolves has a table plan: the key type never fails
/// once the descriptor and the catalog stand.
pub proof fn resolved_type_has_a_table_plan(rec: RecordTypeView)
    requires
        resolved(rec) is Ok,
    ensures
        table_plan(rec) is Ok,
        resolved(rec)->Ok_0.1.cols.len() == rec.fields.len(),
        resolved(rec)->Ok_0.1.pk_fields.len() == resolved(rec)->Ok_0.0.pk_cols.len(),
        1 <= resolved(rec)->Ok_0.0.pk_cols.len() <= 2,
{
    let (cfg, cat) = resolved(rec)->Ok_0;
    resolved_key_has_one_or_two_columns(rec.attrs, rec.name);
    resolved_key_fields(cat.cols, cfg.pk_cols);
}

/// With a key of one column, the select and the delete statement each hold
/// exactly one placeholder, `$1`, and the one field bound to it is the
/// first that the key column designates; its type is the key type.
pub proof fn single_key_statements(rec: RecordTypeView)
    requires
        resolved(rec) is Ok,
        resolved(rec)->Ok_0.0.pk_cols.len() == 1,
    ensures
        table_plan(rec) is Ok,
        ({
            let (cfg, cat) = resolved(rec)->Ok_0;
            let t = table_plan(rec)->Ok_0;
            &&& t.sql_select_by_pk == render(select_shape(t))
            &&& t.sql_delete_by_pk == render(delete_shape(t))
            &&& params(select_shape(t)) == seq![1nat]
            &&& params(delete_shape(t)) == seq![1nat]
            &&& t.pk_fields.len() == 1
            &&& first_match(cat.cols, cfg.pk_cols[0], 0) == Some(t.pk_fields[0])
            &&& t.id == KeyTypeView::Single(cat.cols[t.pk_fields[0]].ty)
        }),
{
    let (cfg, cat) = resolved(rec)->Ok_0;
    resolved_type_has_a_table_plan(rec);
    resolved_key_fields(cat.cols, cfg.pk_cols);
    let t = table_plan(rec)->Ok_0;
    key_statement_params(t);
    assert(numbers(1, 1) =~= seq![1nat]);
}

/// With a key of two columns, both statements hold exactly `$1` and `$2`:
/// `$1` stands with the first configured key column and is bound to its
/// field, `$2` with the second.
pub proof fn composite_key_statements(rec: RecordTypeView)
    requires
        resolved(rec) is Ok,
        resolved(rec)->Ok_0.0.pk_cols.len() == 2,
    ensures
        table_plan(rec) is Ok,
        ({
            let (cfg, cat) = resolved(rec)->Ok_0;
            let t = table_plan(rec)->Ok_0;
            &&& t.sql_select_by_pk == render(select_shape(t))
            &&& t.sql_delete_by_pk == render(delete_shape(t))
            &&& params(select_shape(t)) == seq![1nat, 2nat]
            &&& params(delete_shape(t)) == seq![1nat, 2nat]
            &&& where_pieces(t.pk_cols, 1) == seq![
                Piece::Text(t.pk_cols[0] + " = "@),
                Piece::Param(1),
                Piece::Text(" AND "@),
                Piece::Text(t.pk_cols[1] + " = "@),
                Piece::Param(2),
            ]
            &&& t.pk_cols == quoted_all(cfg.pk_cols)
            &&& t.pk_fields.len() == 2
            &&& first_match(cat.cols, cfg.pk_cols[0], 0) == Some(t.pk_fields[0])
            &&& first_match(cat.cols, cfg.pk_cols[1], 0) == Some(t.pk_fields[1])
            &&& t.id == KeyTypeView::Pair(
                cat.cols[t.pk_fields[0]].ty,
                cat.cols[t.pk_fields[1]].ty,
            )
        }),
{
    let (cfg, cat) = resolved(rec)->Ok_0;
    resolved_type_has_a_table_plan(rec);
    resolved_key_fields(cat.cols, cfg.pk_cols);
    let t = table_plan(rec)->Ok_0;
    key_statement_params(t);
    assert(numbers(1, 2) =~= seq![1nat, 2nat]);
    let pk = t.pk_cols;
    assert(pk.drop_last().len() == 1);
    assert(pk.drop_last().drop_last().len() == 0);
    assert(pk.drop_last().last() == pk[0]);
    assert(assignments(pk.drop_last(), " AND "@, 1) =~= seq![
        Piece::Text(pk[0] + " = "@),
        Piece::Param(1),
    ]);
    assert(where_pieces(pk, 1) =~= seq![
        Piece::Text(pk[0] + " = "@),
        Piece::Param(1),
        Piece::Text(" AND "@),
        Piece::Text(pk[1] + " = "@),
        Piece::Param(2),
    ]);
}

/// The select and the delete statement of a table plan hold one
/// placeholder per key column, numbered from 1 in configured order.
pub proof fn key_statement_params(t: TablePlanView)
    ensures
        params(select_shape(t)) == numbers(1, t.pk_cols.len()),
        params(delete_shape(t)) == numbers(1, t.pk_cols.len()),
{
    let key = where_pieces(t.pk_cols, 1);
    params_of_assignments(t.pk_cols, " AND "@, 1);
    let select_head = seq![
        Piece::Text(
            "SELECT "@ + crate::text::join(t.cols, ", "@) + " FROM "@ + t.qual_table + " WHERE "@,
        ),
    ];
    let delete_head = seq![Piece::Text("DELETE FROM "@ + t.qual_table + " WHERE "@)];
    params_of_text(select_head[0]->Text_0);
    params_of_text(delete_head[0]->Text_0);
    params_add(select_head, key);
    params_add(delete_head, key);
    assert(Seq::<nat>::empty() + numbers(1, t.pk_cols.len()) =~= numbers(1, t.pk_cols.len()));
}

/// Literal text holds no placeholder.
pub proof fn params_of_text(t: Seq<char>)
    ensures
        params(seq![Piece::Text(t)]) == Seq::<nat>::empty(),
{
    params_push(Seq::empty(), Piece::Text(t));
    assert(seq![Piece::Text(t)] =~= Seq::<Piece>::empty().push(Piece::Text(t)));
}

/// The bind order of a composite key follows the configured order of its
/// columns, not the declaration order of the fields: with the two key
/// columns configured the other way round, everything else equal, the two
/// key fields, the two halves of the key type and the two columns of the
/// key predicate change places.
pub proof fn swapped_key_swaps_the_bind_order(a: RecordTypeView, b: RecordTypeView)
    requires
        resolved(a) is Ok,
        resolved(a)->Ok_0.0.pk_cols.len() == 2,
        b.fields == a.fields,
        model_cfg(b.attrs, b.name) == Ok::<ModelCfgView, ConfigErrorView>(
            ModelCfgView {
                pk_cols: seq![
                    resolved(a)->Ok_0.0.pk_cols[1],
                    resolved(a)->Ok_0.0.pk_cols[0],
                ],
                ..resolved(a)->Ok_0.0
            },
        ),
    ensures
        table_plan(a) is Ok,
        table_plan(b) is Ok,
        ({
            let ta = table_plan(a)->Ok_0;
            let tb = table_plan(b)->Ok_0;
            &&& tb.pk_fields == seq![ta.pk_fields[1], ta.pk_fields[0]]
            &&& tb.pk_cols == seq![ta.pk_cols[1], ta.pk_cols[0]]
            &&& ta.id is Pair
            &&& tb.id == KeyTypeView::Pair(ta.id->Pair_1, ta.id->Pair_0)
            &&& tb.cols == ta.cols
            &&& tb.qual_table == ta.qual_table
        }),
{
    let (cfg_a, cat_a) = resolved(a)->Ok_0;
    let cfg_b = model_cfg(b.attrs, b.name)->Ok_0;
    let cols = cat_a.cols;
    resolved_type_has_a_table_plan(a);
    resolved_key_fields(cols, cfg_a.pk_cols);
    let pa = cfg_a.pk_cols;
    let pb = cfg_b.pk_cols;
    assert(pb.drop_last() =~= seq![pa[1]]);
    assert(pb.drop_last().drop_last() =~= Seq::<Seq<char>>::empty());
    assert(pk_positions(cols, pb.drop_last().drop_last()) == Ok::<Seq<int>, ConfigErrorView>(
        Seq::empty(),
    ));
    assert(pb.drop_last().last() == pa[1]);
    assert(pb.last() == pa[0]);
    let swapped = seq![cat_a.pk_fields[1], cat_a.pk_fields[0]];
    assert(pk_positions(cols, pb.drop_last())->Ok_0 =~= seq![cat_a.pk_fields[1]]);
    assert(pk_positions(cols, pb)->Ok_0 =~= swapped);
    let cat_b = resolved(b)->Ok_0.1;
    assert(cat_b.pk_fields == swapped);
    assert(cat_b.pk_types =~= seq![cat_a.pk_types[1], cat_a.pk_types[0]]);
    assert(quoted_all(pb) =~= seq![quoted_all(pa)[1], quoted_all(pa)[0]]);
}

/// Insert writes one column and binds one field for every field that is
/// not kept out of insert, in declaration order, and numbers its
/// placeholders from 1 up to their count without a gap.
pub proof fn insert_binds_what_it_writes(rec: RecordTypeView)
    requires
        resolved(rec) is Ok,
    ensures
        insert_plan(rec) is Ok,
        ({
            let (cfg, cat) = resolved(rec)->Ok_0;
            let plan = insert_plan(rec)->Ok_0;
            let excluded = marked(insert_marks(cat.cols, cfg.insert_skip));
            let shape = insert_pieces(qualified(cfg.schema, cfg.table), plan.insert_cols);
            &&& plan.insert_cols.len() == plan.insert_fields.len()
            &&& plan.insert_fields.len() == rec.fields.len() - excluded
            &&& plan.sql_insert == render(shape)
            &&& params(shape) == numbers(1, plan.insert_fields.len())
            &&& forall|j: int, k: int|
                0 <= j < k < plan.insert_fields.len() ==> plan.insert_fields[j]
                    < plan.insert_fields[k]
            &&& forall|k: int|
                0 <= k < plan.insert_fields.len() ==> 0 <= (#[trigger] plan.insert_fields[k])
                    < rec.fields.len() && !cfg.insert_skip.contains(
                    cat.cols[plan.insert_fields[k]].column,
                )
        }),
{
    let (cfg, cat) = resolved(rec)->Ok_0;
    let plan = insert_plan(rec)->Ok_0;
    let marks = insert_marks(cat.cols, cfg.insert_skip);
    resolved_type_has_a_table_plan(rec);
    unmarked_keeps_order(marks);
    let n = plan.insert_cols.len();
    let head = seq![
        Piece::Text(
            "INSERT INTO "@ + qualified(cfg.schema, cfg.table) + " ("@ + crate::text::join(
                plan.insert_cols,
                ", "@,
            ) + ") VALUES ("@,
        ),
    ];
    let tail = seq![Piece::Text(")"@)];
    if n == 0 {
        params_of_text("INSERT INTO "@ + qualified(cfg.schema, cfg.table) + " DEFAULT VALUES"@);
        assert(numbers(1, 0) =~= Seq::<nat>::empty());
    } else {
        params_of_text(head[0]->Text_0);
        params_of_text(")"@);
        params_of_placeholders(n);
        params_add(head, placeholder_pieces(n));
        params_add(head + placeholder_pieces(n), tail);
        assert(Seq::<nat>::empty() + numbers(1, n) + Seq::<nat>::empty() =~= numbers(1, n));
    }
}

/// Update sets one column for every field that is not kept out of update
/// and numbers them from 1; the key predicate goes on from there, so the
/// statement holds every number from 1 to the count of its placeholders
/// once, and binds the written fields first and the key fields after them.
pub proof fn update_numbers_the_key_after_the_columns(rec: RecordTypeView)
    requires
        update_plan(rec) is Ok,
    ensures
        ({
            let (cfg, cat) = resolved(rec)->Ok_0;
            let plan = update_plan(rec)->Ok_0;
            let excluded = marked(update_marks(cat.cols, cfg.skip_update));
            let written = unmarked(update_marks(cat.cols, cfg.skip_update));
            let upd_cols = quoted_at(cat.cols, written);
            let pk_cols = quoted_all(cfg.pk_cols);
            let shape = update_pieces(qualified(cfg.schema, cfg.table), upd_cols, pk_cols);
            &&& written.len() == rec.fields.len() - excluded
            &&& written.len() >= 1
            &&& plan.sql_update == render(shape)
            &&& params(set_pieces(upd_cols)) == numbers(1, written.len())
            &&& params(where_pieces(pk_cols, written.len() + 1)) == numbers(
                written.len() + 1,
                cfg.pk_cols.len(),
            )
            &&& params(shape) == numbers(1, written.len() + cfg.pk_cols.len())
            &&& plan.bind_fields == written + cat.pk_fields
            &&& plan.bind_fields.len() == params(shape).len()
        }),
{
    let (cfg, cat) = resolved(rec)->Ok_0;
    let marks = update_marks(cat.cols, cfg.skip_update);
    let written = unmarked(marks);
    let upd_cols = quoted_at(cat.cols, written);
    let pk_cols = quoted_all(cfg.pk_cols);
    let n = written.len();
    resolved_type_has_a_table_plan(rec);
    unmarked_keeps_order(marks);
    let head = seq![Piece::Text("UPDATE "@ + qualified(cfg.schema, cfg.table) + " SET "@)];
    let mid = seq![Piece::Text(" WHERE "@)];
    let set = set_pieces(upd_cols);
    let key = where_pieces(pk_cols, n + 1);
    params_of_text(head[0]->Text_0);
    params_of_text(" WHERE "@);
    params_of_assignments(upd_cols, ", "@, 1);
    params_of_assignments(pk_cols, " AND "@, n + 1);
    params_add(head, set);
    params_add(head + set, mid);
    params_add(head + set + mid, key);
    assert(Seq::<nat>::empty() + numbers(1, n) + Seq::<nat>::empty() + numbers(
        n + 1,
        cfg.pk_cols.len(),
    ) =~= numbers(1, n + cfg.pk_cols.len()));
}

/// A type that keeps every field out of update does not compile: the
/// error is `NoUpdatableColumns`, never an update with an empty SET clause.
pub proof fn nothing_to_update_is_an_error(rec: RecordTypeView)
    requires
        resolved(rec) is Ok,
        forall|i: int|
            0 <= i < rec.fields.len() ==> resolved(rec)->Ok_0.0.skip_update.contains(
                (#[trigger] rec.fields[i]).name,
            ),
    ensures
        update_plan(rec) == Err::<crate::derive::UpdatePlanView, ConfigErrorView>(
            ConfigErrorView::NoUpdatableColumns,
        ),
        statement_set(rec) == Err::<StatementSetView, ConfigErrorView>(
            ConfigErrorView::NoUpdatableColumns,
        ),
{
    let (cfg, cat) = resolved(rec)->Ok_0;
    let marks = update_marks(cat.cols, cfg.skip_update);
    resolved_type_has_a_table_plan(rec);
    unmarked_keeps_order(marks);
    if unmarked(marks).len() > 0 {
        let i = unmarked(marks)[0];
        assert(!marks[i]);
        assert(cat.cols[i].rs_ident == rec.fields[i].name);
    }
}

/// An update plan never has an empty SET clause.
pub proof fn update_sets_a_column(rec: RecordTypeView)
    requires
        update_plan(rec) is Ok,
    ensures
        unmarked(
            update_marks(resolved(rec)->Ok_0.1.cols, resolved(rec)->Ok_0.0.skip_update),
        ).len() >= 1,
{
}

/// A type whose key names a column that none of its fields provides does
/// not compile: the error names the first such column, in configured
/// order.
pub proof fn missing_key_column_is_an_error(rec: RecordTypeView, k: int)
    requires
        model_cfg(rec.attrs, rec.name) is Ok,
        columns(rec.fields) is Ok,
        0 <= k < model_cfg(rec.attrs, rec.name)->Ok_0.pk_cols.len(),
        forall|i: int|
            0 <= i < rec.fields.len() ==> !pk_match(
                #[trigger] columns(rec.fields)->Ok_0[i],
                model_cfg(rec.attrs, rec.name)->Ok_0.pk_cols[k],
            ),
        forall|j: int|
            0 <= j < k ==> first_match(
                columns(rec.fields)->Ok_0,
                #[trigger] model_cfg(rec.attrs, rec.name)->Ok_0.pk_cols[j],
                0,
            ) is Some,
    ensures
        ({
            let missing = ConfigErrorView::PrimaryKeyFieldNotFound {
                requested_name: model_cfg(rec.attrs, rec.name)->Ok_0.pk_cols[k],
            };
            &&& statement_set(rec) == Err::<StatementSetView, ConfigErrorView>(missing)
            &&& table_plan(rec) == Err::<TablePlanView, ConfigErrorView>(missing)
            &&& insert_plan(rec) == Err::<crate::derive::InsertPlanView, ConfigErrorView>(missing)
            &&& update_plan(rec) == Err::<crate::derive::UpdatePlanView, ConfigErrorView>(missing)
        }),
{
    let cfg = model_cfg(rec.attrs, rec.name)->Ok_0;
    let cols = columns(rec.fields)->Ok_0;
    let pks = cfg.pk_cols;
    first_match_is_least(cols, pks[k], 0);
    prefix_resolves(cols, pks, k);
    assert(pks.take(k + 1).drop_last() =~= pks.take(k));
    assert(pks.take(k + 1).last() == pks[k]);
    pk_error_persists(cols, pks, k + 1);
}

/// The key columns before the first one that designates no field resolve.
pub proof fn prefix_resolves(cols: Seq<ColInfoView>, pks: Seq<Seq<char>>, k: int)
    requires
        0 <= k <= pks.len(),
        forall|j: int| 0 <= j < k ==> first_match(cols, #[trigger] pks[j], 0) is Some,
    ensures
        pk_positions(cols, pks.take(k)) is Ok,
    decreases k,
{
    if k > 0 {
        prefix_resolves(cols, pks, k - 1);
        assert(pks.take(k).drop_last() =~= pks.take(k - 1));
        assert(pks.take(k).last() == pks[k - 1]);
    }
}

/// Compiling is a function of the description: two compilations of the
/// same description give the same statement texts, character for character
/// and so byte for byte, and the same binding orders, or the same error.
pub proof fn compiling_twice_gives_the_same(
    a: RecordType,
    b: RecordType,
    first: Result<StatementSet, ConfigError>,
    second: Result<StatementSet, ConfigError>,
)
    requires
        a@ == b@,
        compiles_to(a, first),
        compiles_to(b, second),
    ensures
        result_view(first) == result_view(second),
        first is Ok ==> {
            let x = first->Ok_0;
            let y = second->Ok_0;
            &&& second is Ok
            &&& x.table.sql_select_by_pk@ == y.table.sql_select_by_pk@
            &&& x.table.sql_delete_by_pk@ == y.table.sql_delete_by_pk@
            &&& x.insert.sql_insert@ == y.insert.sql_insert@
            &&& x.update.sql_update@ == y.update.sql_update@
            &&& encode_utf8(x.table.sql_select_by_pk@) == encode_utf8(y.table.sql_select_by_pk@)
            &&& encode_utf8(x.table.sql_delete_by_pk@) == encode_utf8(y.table.sql_delete_by_pk@)
            &&& encode_utf8(x.insert.sql_insert@) == encode_utf8(y.insert.sql_insert@)
            &&& encode_utf8(x.update.sql_update@) == encode_utf8(y.update.sql_update@)
            &&& x.table.pk_fields@ == y.table.pk_fields@
            &&& x.insert.insert_fields@ == y.insert.insert_fields@
            &&& x.update.bind_fields@ == y.update.bind_fields@
        },
{
    if first is Ok {
        let x = first->Ok_0;
        let y = second->Ok_0;
        assert(x@ == y@);
        same_positions(x.table.pk_fields@, y.table.pk_fields@);
        same_positions(x.insert.insert_fields@, y.insert.insert_fields@);
        same_positions(x.update.bind_fields@, y.update.bind_fields@);
    }
}

/// Positions that are equal as integers are equal.
pub proof fn same_positions(a: Seq<usize>, b: Seq<usize>)
    requires
        crate::catalog::positions(a) == crate::catalog::positions(b),
    ensures
        a == b,
{
    assert(a.len() == crate::catalog::positions(a).len());
    assert(b.len() == crate::catalog::positions(b).len());
    assert forall|i: int| 0 <= i < a.len() implies a[i] == b[i] by {
        assert(crate::catalog::positions(a)[i] == a[i] as int);
        assert(crate::catalog::positions(b)[i] == b[i] as int);
    }
    assert(a =~= b);
}

} // verus!
