//! The statement compiler: from the description of a record type to the
//! four statements of its point operations and their binding plans.

use crate::catalog::{
    catalog, collect, column_names, key_type, pk_ty, positions, Catalog, CatalogView, ColInfo,
    ColInfoView, KeyType, KeyTypeView, RecordType, RecordTypeView,
};
use crate::config::{
    model_cfg, parse_model_cfg, result_view, ConfigError, ConfigErrorView, ModelCfg, ModelCfgView,
};
use crate::statement::{
    delete_pieces, insert_pieces, placeholder_pieces, push_assignments, push_placeholders,
    qualified, render, render_add, render_push, select_pieces, set_pieces, update_pieces,
    where_pieces, Piece,
};
use crate::text::{contains_text, push_joined, push_quoted, quote, quoted, quoted_all, views};
use vstd::prelude::*;

verus! {

/// What reading by key needs: the table's identity, its columns and key,
/// and the select and delete statements.
#[derive(Debug, Clone, PartialEq, Eq)]
pub struct TablePlan {
    /// The quoted table name, qualified by its schema.
    pub qual_table: String,
    /// The quoted column names, in declaration order.
    pub cols: Vec<String>,
    /// The quoted key column names, in configured order.
    pub pk_cols: Vec<String>,
    /// The type of the key value.
    pub id: KeyType,
    /// The statement that selects one row by its key.
    pub sql_select_by_pk: String,
    /// The statement that deletes one row by its key.
    pub sql_delete_by_pk: String,
    /// The fields whose values are bound to the key placeholders of both
    /// statements, in placeholder order.
    pub pk_fields: Vec<usize>,
}

/// What inserting needs.
#[derive(Debug, Clone, PartialEq, Eq)]
pub struct InsertPlan {
    /// The quoted names of the columns that insert writes, in order.
    pub insert_cols: Vec<String>,
    /// The insert statement.
    pub sql_insert: String,
    /// The fields whose values are bound, in placeholder order.
    pub insert_fields: Vec<usize>,
}

/// What updating needs.
#[derive(Debug, Clone, PartialEq, Eq)]
pub struct UpdatePlan {
    /// The update statement.
    pub sql_update: String,
    /// The fields whose values are bound, in placeholder order: the written
    /// fields, then the key fields.
    pub bind_fields: Vec<usize>,
}

/// The compiled statement set of one record type.
#[derive(Debug, Clone, PartialEq, Eq)]
pub struct StatementSet {
    pub table: TablePlan,
    pub insert: InsertPlan,
    pub update: UpdatePlan,
}

pub struct TablePlanView {
    pub qual_table: Seq<char>,
    pub cols: Seq<Seq<char>>,
    pub pk_cols: Seq<Seq<char>>,
    pub id: KeyTypeView,
    pub sql_select_by_pk: Seq<char>,
    pub sql_delete_by_pk: Seq<char>,
    pub pk_fields: Seq<int>,
}

pub struct InsertPlanView {
    pub insert_cols: Seq<Seq<char>>,
    pub sql_insert: Seq<char>,
    pub insert_fields: Seq<int>,
}

pub struct UpdatePlanView {
    pub sql_update: Seq<char>,
    pub bind_fields: Seq<int>,
}

pub struct StatementSetView {
    pub table: TablePlanView,
    pub insert: InsertPlanView,
    pub update: UpdatePlanView,
}

impl View for TablePlan {
    type V = TablePlanView;

    open spec fn view(&self) -> TablePlanView {
        TablePlanView {
            qual_table: self.qual_table@,
            cols: views(self.cols@),
            pk_cols: views(self.pk_cols@),
            id: self.id@,
            sql_select_by_pk: self.sql_select_by_pk@,
            sql_delete_by_pk: self.sql_delete_by_pk@,
            pk_fields: positions(self.pk_fields@),
        }
    }
}

impl View for InsertPlan {
    type V = InsertPlanView;

    open spec fn view(&self) -> InsertPlanView {
        InsertPlanView {
            insert_cols: views(self.insert_cols@),
            sql_insert: self.sql_insert@,
            insert_fields: positions(self.insert_fields@),
        }
    }
}

impl View for UpdatePlan {
    type V = UpdatePlanView;

    open spec fn view(&self) -> UpdatePlanView {
        UpdatePlanView { sql_update: self.sql_update@, bind_fields: positions(self.bind_fields@) }
    }
}

impl View for StatementSet {
    type V = StatementSetView;

    open spec fn view(&self) -> StatementSetView {
        StatementSetView { table: self.table@, insert: self.insert@, update: self.update@ }
    }
}

/// The positions that are not marked, in ascending order.
pub open spec fn unmarked(marks: Seq<bool>) -> Seq<int>
    decreases marks.len(),
{
    if marks.len() == 0 {
        Seq::empty()
    } else if marks.last() {
        unmarked(marks.drop_last())
    } else {
        unmarked(marks.drop_last()).push(marks.len() - 1)
    }
}

/// Insert leaves out the entries whose column name is listed.
pub open spec fn insert_marks(cols: Seq<ColInfoView>, skip: Seq<Seq<char>>) -> Seq<bool> {
    cols.map_values(|c: ColInfoView| skip.contains(c.column))
}

/// Update leaves out the entries whose field name or column name is listed.
pub open spec fn update_marks(cols: Seq<ColInfoView>, skip: Seq<Seq<char>>) -> Seq<bool> {
    cols.map_values(|c: ColInfoView| skip.contains(c.rs_ident) || skip.contains(c.column))
}

/// The quoted column names of the entries at the given positions.
pub open spec fn quoted_at(cols: Seq<ColInfoView>, at: Seq<int>) -> Seq<Seq<char>> {
    at.map_values(|i: int| quoted(cols[i].column))
}

/// The table identity and the select and delete statements of a resolved
/// record type. Both statements bind the key fields in configured order.
pub open spec fn table_of(cfg: ModelCfgView, cat: CatalogView) -> Result<
    TablePlanView,
    ConfigErrorView,
> {
    match key_type(cat.pk_types) {
        Err(e) => Err(e),
        Ok(id) => {
            let qual_table = qualified(cfg.schema, cfg.table);
            let cols = quoted_all(column_names(cat.cols));
            let pk_cols = quoted_all(cfg.pk_cols);
            Ok(
                TablePlanView {
                    qual_table,
                    cols,
                    pk_cols,
                    id,
                    sql_select_by_pk: render(select_pieces(cols, qual_table, pk_cols)),
                    sql_delete_by_pk: render(delete_pieces(qual_table, pk_cols)),
                    pk_fields: cat.pk_fields,
                },
            )
        },
    }
}

/// The insert statement of a resolved record type: it writes the columns
/// that are not kept out of insert, in catalog order, and binds their
/// fields in that order.
pub open spec fn insert_of(cfg: ModelCfgView, cat: CatalogView) -> InsertPlanView {
    let insert_fields = unmarked(insert_marks(cat.cols, cfg.insert_skip));
    let insert_cols = quoted_at(cat.cols, insert_fields);
    InsertPlanView {
        insert_cols,
        sql_insert: render(insert_pieces(qualified(cfg.schema, cfg.table), insert_cols)),
        insert_fields,
    }
}

/// The update statement of a resolved record type: it sets the columns that
/// are not kept out of update, in catalog order, and binds their fields in
/// that order, followed by the key fields. There is none if no column is
/// left to set.
pub open spec fn update_of(cfg: ModelCfgView, cat: CatalogView) -> Result<
    UpdatePlanView,
    ConfigErrorView,
> {
    let upd_fields = unmarked(update_marks(cat.cols, cfg.skip_update));
    if upd_fields.len() == 0 {
        Err(ConfigErrorView::NoUpdatableColumns)
    } else {
        Ok(
            UpdatePlanView {
                sql_update: render(
                    update_pieces(
                        qualified(cfg.schema, cfg.table),
                        quoted_at(cat.cols, upd_fields),
                        quoted_all(cfg.pk_cols),
                    ),
                ),
                bind_fields: upd_fields + cat.pk_fields,
            },
        )
    }
}

/// The schema descriptor of a record type and its catalog.
pub open spec fn resolved(rec: RecordTypeView) -> Result<
    (ModelCfgView, CatalogView),
    ConfigErrorView,
> {
    match model_cfg(rec.attrs, rec.name) {
        Err(e) => Err(e),
        Ok(cfg) => match catalog(rec.fields, cfg) {
            Err(e) => Err(e),
            Ok(cat) => Ok((cfg, cat)),
        },
    }
}

/// What reading a record type by key needs.
pub open spec fn table_plan(rec: RecordTypeView) -> Result<TablePlanView, ConfigErrorView> {
    match resolved(rec) {
        Err(e) => Err(e),
        Ok((cfg, cat)) => table_of(cfg, cat),
    }
}

/// What inserting a record type needs.
pub open spec fn insert_plan(rec: RecordTypeView) -> Result<InsertPlanView, ConfigErrorView> {
    match resolved(rec) {
        Err(e) => Err(e),
        Ok((cfg, cat)) => Ok(insert_of(cfg, cat)),
    }
}

/// What updating a record type needs.
pub open spec fn update_plan(rec: RecordTypeView) -> Result<UpdatePlanView, ConfigErrorView> {
    match resolved(rec) {
        Err(e) => Err(e),
        Ok((cfg, cat)) => update_of(cfg, cat),
    }
}

/// The compiled statement set of a record type: all of it, or the first
/// error on the way from the directives over the catalog and the key to
/// the update statement.
pub open spec fn statement_set(rec: RecordTypeView) -> Result<StatementSetView, ConfigErrorView> {
    match resolved(rec) {
        Err(e) => Err(e),
        Ok((cfg, cat)) => match table_of(cfg, cat) {
            Err(e) => Err(e),
            Ok(table) => match update_of(cfg, cat) {
                Err(e) => Err(e),
                Ok(update) => Ok(StatementSetView { table, insert: insert_of(cfg, cat), update }),
            },
        },
    }
}

/// A statement of one text piece reads as that text.
pub proof fn render_text(t: Seq<char>)
    ensures
        render(seq![Piece::Text(t)]) == t,
{
    render_push(Seq::empty(), Piece::Text(t));
    assert(seq![Piece::Text(t)] =~= Seq::<Piece>::empty().push(Piece::Text(t)));
    assert(Seq::<char>::empty() + t =~= t);
}

/// Each name between double quotes.
pub fn quote_all(names: &Vec<String>) -> (out: Vec<String>)
    ensures
        views(out@) == quoted_all(views(names@)),
{
    let mut out: Vec<String> = Vec::new();
    let mut i: usize = 0;
    while i < names.len()
        invariant
            i <= names.len(),
            out@.len() == i,
            forall|j: int| 0 <= j < i ==> (#[trigger] out@[j])@ == quoted(names@[j]@),
        decreases names.len() - i,
    {
        out.push(quote(names[i].as_str()));
        i += 1;
    }
    proof {
        assert(views(out@) =~= quoted_all(views(names@)));
    }
    out
}

/// The quoted column name of each catalog entry.
pub fn quote_columns(cols: &Vec<ColInfo>) -> (out: Vec<String>)
    ensures
        views(out@) == quoted_all(column_names(views(cols@))),
{
    let mut out: Vec<String> = Vec::new();
    let mut i: usize = 0;
    while i < cols.len()
        invariant
            i <= cols.len(),
            out@.len() == i,
            forall|j: int| 0 <= j < i ==> (#[trigger] out@[j])@ == quoted(cols@[j].column@),
        decreases cols.len() - i,
    {
        out.push(quote(cols[i].column.as_str()));
        i += 1;
    }
    proof {
        assert(views(out@) =~= quoted_all(column_names(views(cols@))));
    }
    out
}

/// The quoted table name of a descriptor, qualified by its schema.
pub fn qual_table(cfg: &ModelCfg) -> (out: String)
    ensures
        out@ == qualified(cfg@.schema, cfg@.table),
{
    let mut out = String::new();
    push_quoted(&mut out, cfg.schema.as_str());
    out.push('.');
    push_quoted(&mut out, cfg.table.as_str());
    proof {
        assert(out@ =~= qualified(cfg@.schema, cfg@.table));
    }
    out
}

/// A copy of the positions.
pub fn clone_positions(at: &Vec<usize>) -> (out: Vec<usize>)
    ensures
        out@ == at@,
{
    let mut out: Vec<usize> = Vec::new();
    let mut i: usize = 0;
    while i < at.len()
        invariant
            i <= at.len(),
            out@ == at@.take(i as int),
        decreases at.len() - i,
    {
        out.push(at[i]);
        proof {
            assert(out@ =~= at@.take(i + 1));
        }
        i += 1;
    }
    proof {
        assert(at@.take(at.len() as int) =~= at@);
    }
    out
}

/// The table identity and the select and delete statements of a resolved
/// record type.
pub fn table_from(cfg: &ModelCfg, cat: &Catalog) -> (r: Result<TablePlan, ConfigError>)
    ensures
        result_view(r) == table_of(cfg@, cat@),
{
    let id = match pk_ty(&cat.pk_types) {
        Ok(id) => id,
        Err(e) => {
            return Err(e);
        },
    };
    let qual = qual_table(cfg);
    let cols = quote_columns(&cat.cols);
    let pk_cols = quote_all(&cfg.pk_cols);

    let mut select = String::new();
    select.append("SELECT ");
    push_joined(&mut select, &cols, ", ");
    select.append(" FROM ");
    select.append(qual.as_str());
    select.append(" WHERE ");
    let ghost select_head = select@;
    push_assignments(&mut select, &pk_cols, " AND ", 0);

    let mut delete = String::new();
    delete.append("DELETE FROM ");
    delete.append(qual.as_str());
    delete.append(" WHERE ");
    let ghost delete_head = delete@;
    push_assignments(&mut delete, &pk_cols, " AND ", 0);

    proof {
        let key = where_pieces(views(pk_cols@), 1);
        render_text(select_head);
        render_add(seq![Piece::Text(select_head)], key);
        assert(select_head =~= "SELECT "@ + crate::text::join(views(cols@), ", "@) + " FROM "@
            + qual@ + " WHERE "@);
        render_text(delete_head);
        render_add(seq![Piece::Text(delete_head)], key);
        assert(delete_head =~= "DELETE FROM "@ + qual@ + " WHERE "@);
    }
    Ok(
        TablePlan {
            qual_table: qual,
            cols,
            pk_cols,
            id,
            sql_select_by_pk: select,
            sql_delete_by_pk: delete,
            pk_fields: clone_positions(&cat.pk_fields),
        },
    )
}

/// The insert statement of a resolved record type.
pub fn insert_from(cfg: &ModelCfg, cat: &Catalog) -> (plan: InsertPlan)
    ensures
        plan@ == insert_of(cfg@, cat@),
{
    let ghost cols = views(cat.cols@);
    let ghost marks = insert_marks(cols, cfg@.insert_skip);
    let mut insert_cols: Vec<String> = Vec::new();
    let mut insert_fields: Vec<usize> = Vec::new();
    let mut i: usize = 0;
    proof {
        assert(positions(insert_fields@) =~= unmarked(marks.take(0)));
        assert(views(insert_cols@) =~= quoted_at(cols, positions(insert_fields@)));
    }
    while i < cat.cols.len()
        invariant
            i <= cat.cols.len(),
            cols == views(cat.cols@),
            marks == insert_marks(cols, cfg@.insert_skip),
            positions(insert_fields@) == unmarked(marks.take(i as int)),
            views(insert_cols@) == quoted_at(cols, positions(insert_fields@)),
        decreases cat.cols.len() - i,
    {
        let ghost fields_before = insert_fields@;
        let ghost cols_before = insert_cols@;
        proof {
            assert(marks.take(i + 1).drop_last() =~= marks.take(i as int));
            assert(cols[i as int] == cat.cols@[i as int]@);
        }
        if !contains_text(&cfg.insert_skip, cat.cols[i].column.as_str()) {
            insert_fields.push(i);
            insert_cols.push(quote(cat.cols[i].column.as_str()));
            proof {
                assert(positions(insert_fields@) =~= positions(fields_before).push(i as int));
                assert(views(insert_cols@) =~= views(cols_before).push(quoted(cols[i as int].column)));
                assert(views(insert_cols@) =~= quoted_at(cols, positions(insert_fields@)));
            }
        }
        i += 1;
    }
    proof {
        assert(marks.take(cat.cols.len() as int) =~= marks);
    }
    let qual = qual_table(cfg);
    let mut sql = String::new();
    sql.append("INSERT INTO ");
    sql.append(qual.as_str());
    if insert_cols.len() == 0 {
        sql.append(" DEFAULT VALUES");
        proof {
            render_text(sql@);
            assert(sql@ =~= "INSERT INTO "@ + qual@ + " DEFAULT VALUES"@);
            assert(views(insert_cols@).len() == 0);
        }
    } else {
        sql.append(" (");
        push_joined(&mut sql, &insert_cols, ", ");
        sql.append(") VALUES (");
        let ghost head = sql@;
        push_placeholders(&mut sql, insert_cols.len());
        sql.append(")");
        proof {
            let list = placeholder_pieces(insert_cols.len() as nat);
            let tail = seq![Piece::Text(")"@)];
            render_text(head);
            render_text(")"@);
            render_add(seq![Piece::Text(head)], list);
            render_add(seq![Piece::Text(head)] + list, tail);
            assert(head =~= "INSERT INTO "@ + qual@ + " ("@ + crate::text::join(
                views(insert_cols@),
                ", "@,
            ) + ") VALUES ("@);
            assert(views(insert_cols@).len() == insert_cols.len());
        }
    }
    InsertPlan { insert_cols, sql_insert: sql, insert_fields }
}

/// The update statement of a resolved record type.
pub fn update_from(cfg: &ModelCfg, cat: &Catalog) -> (r: Result<UpdatePlan, ConfigError>)
    ensures
        result_view(r) == update_of(cfg@, cat@),
{
    let ghost cols = views(cat.cols@);
    let ghost marks = update_marks(cols, cfg@.skip_update);
    let mut upd_cols: Vec<String> = Vec::new();
    let mut bind_fields: Vec<usize> = Vec::new();
    let mut i: usize = 0;
    proof {
        assert(positions(bind_fields@) =~= unmarked(marks.take(0)));
        assert(views(upd_cols@) =~= quoted_at(cols, positions(bind_fields@)));
    }
    while i < cat.cols.len()
        invariant
            i <= cat.cols.len(),
            cols == views(cat.cols@),
            marks == update_marks(cols, cfg@.skip_update),
            positions(bind_fields@) == unmarked(marks.take(i as int)),
            views(upd_cols@) == quoted_at(cols, positions(bind_fields@)),
            upd_cols@.len() == bind_fields@.len(),
            bind_fields@.len() <= i,
        decreases cat.cols.len() - i,
    {
        let ghost fields_before = bind_fields@;
        let ghost cols_before = upd_cols@;
        proof {
            assert(marks.take(i + 1).drop_last() =~= marks.take(i as int));
            assert(cols[i as int] == cat.cols@[i as int]@);
        }
        let skipped = contains_text(&cfg.skip_update, cat.cols[i].rs_ident.as_str())
            || contains_text(&cfg.skip_update, cat.cols[i].column.as_str());
        if !skipped {
            bind_fields.push(i);
            upd_cols.push(quote(cat.cols[i].column.as_str()));
            proof {
                assert(positions(bind_fields@) =~= positions(fields_before).push(i as int));
                assert(views(upd_cols@) =~= views(cols_before).push(quoted(cols[i as int].column)));
                assert(views(upd_cols@) =~= quoted_at(cols, positions(bind_fields@)));
            }
        }
        i += 1;
    }
    proof {
        assert(marks.take(cat.cols.len() as int) =~= marks);
        assert(positions(bind_fields@).len() == bind_fields@.len());
    }
    if upd_cols.len() == 0 {
        return Err(ConfigError::NoUpdatableColumns);
    }
    let ghost upd_fields = positions(bind_fields@);
    let qual = qual_table(cfg);
    let pk_cols = quote_all(&cfg.pk_cols);
    let mut sql = String::new();
    sql.append("UPDATE ");
    sql.append(qual.as_str());
    sql.append(" SET ");
    let ghost head = sql@;
    push_assignments(&mut sql, &upd_cols, ", ", 0);
    sql.append(" WHERE ");
    push_assignments(&mut sql, &pk_cols, " AND ", upd_cols.len());
    proof {
        let set = set_pieces(views(upd_cols@));
        let mid = seq![Piece::Text(" WHERE "@)];
        let key = where_pieces(views(pk_cols@), (upd_cols.len() + 1) as nat);
        render_text(head);
        render_text(" WHERE "@);
        render_add(seq![Piece::Text(head)], set);
        render_add(seq![Piece::Text(head)] + set, mid);
        render_add(seq![Piece::Text(head)] + set + mid, key);
        assert(head =~= "UPDATE "@ + qual@ + " SET "@);
        assert(views(upd_cols@).len() == upd_cols.len());
    }
    let mut k: usize = 0;
    while k < cat.pk_fields.len()
        invariant
            k <= cat.pk_fields.len(),
            positions(bind_fields@) == upd_fields + positions(cat.pk_fields@).take(k as int),
        decreases cat.pk_fields.len() - k,
    {
        let ghost before = bind_fields@;
        bind_fields.push(cat.pk_fields[k]);
        proof {
            assert(positions(bind_fields@) =~= positions(before).push(cat.pk_fields@[k as int] as int));
            assert(positions(bind_fields@) =~= upd_fields + positions(cat.pk_fields@).take(k + 1));
        }
        k += 1;
    }
    proof {
        assert(positions(cat.pk_fields@).take(cat.pk_fields.len() as int) =~= positions(
            cat.pk_fields@,
        ));
    }
    Ok(UpdatePlan { sql_update: sql, bind_fields })
}

/// What reading the record type by key needs.
pub fn derive_table(input: &RecordType) -> (r: Result<TablePlan, ConfigError>)
    ensures
        result_view(r) == table_plan(input@),
{
    let cfg = match parse_model_cfg(&input.attrs, input.name.as_str()) {
        Ok(cfg) => cfg,
        Err(e) => {
            return Err(e);
        },
    };
    let cat = match collect(input, &cfg) {
        Ok(cat) => cat,
        Err(e) => {
            return Err(e);
        },
    };
    table_from(&cfg, &cat)
}

/// What inserting the record type needs.
pub fn derive_insertable(input: &RecordType) -> (r: Result<InsertPlan, ConfigError>)
    ensures
        result_view(r) == insert_plan(input@),
{
    let cfg = match parse_model_cfg(&input.attrs, input.name.as_str()) {
        Ok(cfg) => cfg,
        Err(e) => {
            return Err(e);
        },
    };
    let cat = match collect(input, &cfg) {
        Ok(cat) => cat,
        Err(e) => {
            return Err(e);
        },
    };
    Ok(insert_from(&cfg, &cat))
}

/// What updating the record type needs.
pub fn derive_updatable(input: &RecordType) -> (r: Result<UpdatePlan, ConfigError>)
    ensures
        result_view(r) == update_plan(input@),
{
    let cfg = match parse_model_cfg(&input.attrs, input.name.as_str()) {
        Ok(cfg) => cfg,
        Err(e) => {
            return Err(e);
        },
    };
    let cat = match collect(input, &cfg) {
        Ok(cat) => cat,
        Err(e) => {
            return Err(e);
        },
    };
    update_from(&cfg, &cat)
}

/// Compiles the record type: the complete statement set, or the error that
/// stops compilation, and nothing in between.
pub fn compile(input: &RecordType) -> (r: Result<StatementSet, ConfigError>)
    ensures
        result_view(r) == statement_set(input@),
{
    let cfg = match parse_model_cfg(&input.attrs, input.name.as_str()) {
        Ok(cfg) => cfg,
        Err(e) => {
            return Err(e);
        },
    };
    let cat = match collect(input, &cfg) {
        Ok(cat) => cat,
        Err(e) => {
            return Err(e);
        },
    };
    let table = match table_from(&cfg, &cat) {
        Ok(table) => table,
        Err(e) => {
            return Err(e);
        },
    };
    let update = match update_from(&cfg, &cat) {
        Ok(update) => update,
        Err(e) => {
            return Err(e);
        },
    };
    let insert = insert_from(&cfg, &cat);
    Ok(StatementSet { table, insert, update })
}

} // verus!
