//! The column catalog of a record type: one entry per declared field, in
//! declaration order, and the fields that the primary key resolves to.

use crate::config::{
    result_view, ConfigError, ConfigErrorView, Directive, DirectiveValue, DirectiveValueView,
    DirectiveView, ModelCfg, ModelCfgView,
};
use crate::text::{same_text, views};
use vstd::prelude::*;

verus! {

/// One declared field of a record type.
#[derive(Debug, Clone, PartialEq, Eq)]
pub struct FieldDecl {
    /// The field's own name.
    pub name: String,
    /// The field's data type, as written.
    pub ty: String,
    /// The directives declared on the field.
    pub attrs: Vec<Directive>,
}

/// The description of a record type: what a mapping is compiled from.
#[derive(Debug, Clone, PartialEq, Eq)]
pub struct RecordType {
    /// The name of the type.
    pub name: String,
    /// The directives declared on the type.
    pub attrs: Vec<Directive>,
    /// The fields, in declaration order.
    pub fields: Vec<FieldDecl>,
}

/// One entry of the column catalog. Its position in the catalog is the
/// position of its field in the declaration.
#[derive(Debug, Clone, PartialEq, Eq)]
pub struct ColInfo {
    /// The name of the field.
    pub rs_ident: String,
    /// The resolved column name, unquoted.
    pub column: String,
    /// The field's data type.
    pub ty: String,
}

/// The column catalog with the primary key resolved against it.
#[derive(Debug, Clone, PartialEq, Eq)]
pub struct Catalog {
    /// One entry per field, in declaration order.
    pub cols: Vec<ColInfo>,
    /// For each key column, in configured order, the position of its field.
    pub pk_fields: Vec<usize>,
    /// For each key column, in configured order, the type of its field.
    pub pk_types: Vec<String>,
}

/// The type of the value that identifies one row.
#[derive(Debug, Clone, PartialEq, Eq)]
pub enum KeyType {
    /// One key column: the type of its field.
    Single(String),
    /// Two key columns: the pair of their fields' types, in configured order.
    Pair(String, String),
}

pub struct FieldDeclView {
    pub name: Seq<char>,
    pub ty: Seq<char>,
    pub attrs: Seq<DirectiveView>,
}

pub struct RecordTypeView {
    pub name: Seq<char>,
    pub attrs: Seq<DirectiveView>,
    pub fields: Seq<FieldDeclView>,
}

pub struct ColInfoView {
    pub rs_ident: Seq<char>,
    pub column: Seq<char>,
    pub ty: Seq<char>,
}

pub struct CatalogView {
    pub cols: Seq<ColInfoView>,
    pub pk_fields: Seq<int>,
    pub pk_types: Seq<Seq<char>>,
}

pub enum KeyTypeView {
    Single(Seq<char>),
    Pair(Seq<char>, Seq<char>),
}

impl View for FieldDecl {
    type V = FieldDeclView;

    open spec fn view(&self) -> FieldDeclView {
        FieldDeclView { name: self.name@, ty: self.ty@, attrs: views(self.attrs@) }
    }
}

impl View for RecordType {
    type V = RecordTypeView;

    open spec fn view(&self) -> RecordTypeView {
        RecordTypeView {
            name: self.name@,
            attrs: views(self.attrs@),
            fields: views(self.fields@),
        }
    }
}

impl View for ColInfo {
    type V = ColInfoView;

    open spec fn view(&self) -> ColInfoView {
        ColInfoView { rs_ident: self.rs_ident@, column: self.column@, ty: self.ty@ }
    }
}

impl View for Catalog {
    type V = CatalogView;

    open spec fn view(&self) -> CatalogView {
        CatalogView {
            cols: views(self.cols@),
            pk_fields: positions(self.pk_fields@),
            pk_types: views(self.pk_types@),
        }
    }
}

impl View for KeyType {
    type V = KeyTypeView;

    open spec fn view(&self) -> KeyTypeView {
        match self {
            KeyType::Single(a) => KeyTypeView::Single(a@),
            KeyType::Pair(a, b) => KeyTypeView::Pair(a@, b@),
        }
    }
}

/// Machine positions as integers.
pub open spec fn positions(v: Seq<usize>) -> Seq<int> {
    v.map_values(|i: usize| i as int)
}

/// The column name that a field directive gives: `rename = "name"` is the
/// one recognized form.
pub open spec fn rename_of(d: DirectiveView) -> Option<Seq<char>> {
    match d.value {
        DirectiveValueView::Text(v) => if d.key == "rename"@ {
            Some(v)
        } else {
            None
        },
        _ => None,
    }
}

/// The column name of a field: every directive on the field must be a
/// rename, the first of them gives the name, and a field without directives
/// keeps its own name.
pub open spec fn column_name_from_field(attrs: Seq<DirectiveView>, fallback: Seq<char>) -> Result<
    Seq<char>,
    ConfigErrorView,
> {
    if exists|i: int| 0 <= i < attrs.len() && rename_of(#[trigger] attrs[i]) is None {
        Err(ConfigErrorView::UnknownDirective)
    } else if attrs.len() == 0 {
        Ok(fallback)
    } else {
        Ok(rename_of(attrs[0])->0)
    }
}

/// The catalog entry of one field.
pub open spec fn col_info(f: FieldDeclView) -> ColInfoView {
    ColInfoView { rs_ident: f.name, column: column_name_from_field(f.attrs, f.name)->Ok_0, ty: f.ty }
}

/// The catalog entries of the fields, in declaration order; none if a field
/// carries an unrecognized directive.
pub open spec fn columns(fields: Seq<FieldDeclView>) -> Result<Seq<ColInfoView>, ConfigErrorView> {
    if exists|i: int|
        0 <= i < fields.len() && column_name_from_field(
            (#[trigger] fields[i]).attrs,
            fields[i].name,
        ) is Err {
        Err(ConfigErrorView::UnknownDirective)
    } else {
        Ok(fields.map_values(|f: FieldDeclView| col_info(f)))
    }
}

/// Whether a configured key name designates this entry: by the field's own
/// name or by its resolved column name.
pub open spec fn pk_match(c: ColInfoView, pk: Seq<char>) -> bool {
    c.rs_ident == pk || c.column == pk
}

/// The position of the first entry at or after `from` that `pk` designates.
pub open spec fn first_match(cols: Seq<ColInfoView>, pk: Seq<char>, from: int) -> Option<int>
    decreases cols.len() - from,
{
    if from < 0 || from >= cols.len() {
        None
    } else if pk_match(cols[from], pk) {
        Some(from)
    } else {
        first_match(cols, pk, from + 1)
    }
}

/// The positions of the fields that the key columns designate, in
/// configured order. The first key name that designates no field decides
/// the error.
pub open spec fn pk_positions(cols: Seq<ColInfoView>, pks: Seq<Seq<char>>) -> Result<
    Seq<int>,
    ConfigErrorView,
>
    decreases pks.len(),
{
    if pks.len() == 0 {
        Ok(Seq::empty())
    } else {
        match pk_positions(cols, pks.drop_last()) {
            Err(e) => Err(e),
            Ok(found) => match first_match(cols, pks.last(), 0) {
                None => Err(ConfigErrorView::PrimaryKeyFieldNotFound { requested_name: pks.last() }),
                Some(i) => Ok(found.push(i)),
            },
        }
    }
}

/// The column names of the entries, in order.
pub open spec fn column_names(cols: Seq<ColInfoView>) -> Seq<Seq<char>> {
    cols.map_values(|c: ColInfoView| c.column)
}

/// The data types of the entries at the given positions.
pub open spec fn types_at(cols: Seq<ColInfoView>, at: Seq<int>) -> Seq<Seq<char>> {
    at.map_values(|i: int| cols[i].ty)
}

/// The catalog of a record type under its schema descriptor.
pub open spec fn catalog(fields: Seq<FieldDeclView>, cfg: ModelCfgView) -> Result<
    CatalogView,
    ConfigErrorView,
> {
    match columns(fields) {
        Err(e) => Err(e),
        Ok(cols) => match pk_positions(cols, cfg.pk_cols) {
            Err(e) => Err(e),
            Ok(pk_fields) => Ok(
                CatalogView {
                    cols,
                    pk_fields,
                    pk_types: types_at(cols, pk_fields),
                },
            ),
        },
    }
}

/// The key type for the types of the key fields: the type itself for one,
/// the ordered pair for two.
pub open spec fn key_type(pk_types: Seq<Seq<char>>) -> Result<KeyTypeView, ConfigErrorView> {
    if pk_types.len() == 0 {
        Err(ConfigErrorView::EmptyPrimaryKey)
    } else if pk_types.len() == 1 {
        Ok(KeyTypeView::Single(pk_types[0]))
    } else if pk_types.len() == 2 {
        Ok(KeyTypeView::Pair(pk_types[0], pk_types[1]))
    } else {
        Err(ConfigErrorView::UnsupportedKeyArity)
    }
}

/// A first match is the least position that the key name designates, and
/// there is none exactly when no entry is designated.
pub proof fn first_match_is_least(cols: Seq<ColInfoView>, pk: Seq<char>, from: int)
    requires
        0 <= from,
    ensures
        match first_match(cols, pk, from) {
            Some(i) => from <= i < cols.len() && pk_match(cols[i], pk) && forall|j: int|
                from <= j < i ==> !pk_match(#[trigger] cols[j], pk),
            None => forall|j: int| from <= j < cols.len() ==> !pk_match(#[trigger] cols[j], pk),
        },
    decreases cols.len() - from,
{
    if from < cols.len() && !pk_match(cols[from], pk) {
        first_match_is_least(cols, pk, from + 1);
    }
}

/// Once a prefix of the key names fails to resolve, the whole list fails
/// with the same error.
pub proof fn pk_error_persists(cols: Seq<ColInfoView>, pks: Seq<Seq<char>>, k: int)
    requires
        0 <= k <= pks.len(),
        pk_positions(cols, pks.take(k)) is Err,
    ensures
        pk_positions(cols, pks) == pk_positions(cols, pks.take(k)),
    decreases pks.len() - k,
{
    if k == pks.len() {
        assert(pks.take(k) =~= pks);
    } else {
        assert(pks.take(k + 1).drop_last() =~= pks.take(k));
        pk_error_persists(cols, pks, k + 1);
    }
}

/// The column name of a field with the directives `attrs`, whose own name
/// is `fallback`.
pub fn field_rename(attrs: &Vec<Directive>, fallback: &str) -> (r: Result<String, ConfigError>)
    ensures
        result_view(r) == column_name_from_field(views(attrs@), fallback@),
{
    let mut i: usize = 0;
    while i < attrs.len()
        invariant
            i <= attrs.len(),
            forall|j: int| 0 <= j < i ==> rename_of(#[trigger] views(attrs@)[j]) is Some,
        decreases attrs.len() - i,
    {
        let recognized = match &attrs[i].value {
            DirectiveValue::Text(_) => same_text(attrs[i].key.as_str(), "rename"),
            _ => false,
        };
        proof {
            assert(views(attrs@)[i as int] == attrs@[i as int]@);
        }
        if !recognized {
            return Err(ConfigError::UnknownDirective);
        }
        i += 1;
    }
    if attrs.len() == 0 {
        return Ok(fallback.to_owned());
    }
    proof {
        assert(views(attrs@)[0] == attrs@[0]@);
    }
    match &attrs[0].value {
        DirectiveValue::Text(v) => Ok(v.clone()),
        _ => Err(ConfigError::UnknownDirective),
    }
}

/// The position of the first entry that the key name `pk` designates.
pub fn find_pk(cols: &Vec<ColInfo>, pk: &str) -> (r: Option<usize>)
    ensures
        match first_match(views(cols@), pk@, 0) {
            Some(i) => 0 <= i < cols.len() && r == Some(i as usize),
            None => r is None,
        },
{
    let mut j: usize = 0;
    while j < cols.len()
        invariant
            j <= cols.len(),
            first_match(views(cols@), pk@, 0) == first_match(views(cols@), pk@, j as int),
        decreases cols.len() - j,
    {
        proof {
            assert(views(cols@)[j as int] == cols@[j as int]@);
        }
        if same_text(cols[j].rs_ident.as_str(), pk) || same_text(cols[j].column.as_str(), pk) {
            return Some(j);
        }
        j += 1;
    }
    None
}

/// Builds the column catalog of `input` and resolves the key columns of
/// `cfg` against it.
pub fn collect(input: &RecordType, cfg: &ModelCfg) -> (r: Result<Catalog, ConfigError>)
    ensures
        result_view(r) == catalog(input@.fields, cfg@),
{
    let ghost fields = input@.fields;
    let mut cols: Vec<ColInfo> = Vec::new();
    let mut i: usize = 0;
    while i < input.fields.len()
        invariant
            i <= input.fields.len(),
            fields == views(input.fields@),
            cols@.len() == i,
            forall|j: int|
                0 <= j < i ==> column_name_from_field((#[trigger] fields[j]).attrs, fields[j].name) is Ok,
            forall|j: int| 0 <= j < i ==> (#[trigger] cols@[j])@ == col_info(fields[j]),
        decreases input.fields.len() - i,
    {
        let f = &input.fields[i];
        proof {
            assert(fields[i as int] == f@);
        }
        let column = match field_rename(&f.attrs, f.name.as_str()) {
            Ok(column) => column,
            Err(e) => {
                return Err(e);
            },
        };
        cols.push(ColInfo { rs_ident: f.name.clone(), column, ty: f.ty.clone() });
        i += 1;
    }
    proof {
        assert(views(cols@) =~= fields.map_values(|f: FieldDeclView| col_info(f)));
        assert(columns(fields) == Ok::<Seq<ColInfoView>, ConfigErrorView>(views(cols@)));
    }
    let mut pk_fields: Vec<usize> = Vec::new();
    let mut pk_types: Vec<String> = Vec::new();
    let ghost pks = cfg@.pk_cols;
    let mut k: usize = 0;
    proof {
        assert(positions(pk_fields@) =~= Seq::<int>::empty());
        assert(views(pk_types@) =~= types_at(views(cols@), positions(pk_fields@)));
    }
    while k < cfg.pk_cols.len()
        invariant
            k <= cfg.pk_cols.len(),
            pks == views(cfg.pk_cols@),
            fields == input@.fields,
            columns(fields) == Ok::<Seq<ColInfoView>, ConfigErrorView>(views(cols@)),
            pk_positions(views(cols@), pks.take(k as int)) == Ok::<Seq<int>, ConfigErrorView>(
                positions(pk_fields@),
            ),
            views(pk_types@) == types_at(views(cols@), positions(pk_fields@)),
            forall|j: int| 0 <= j < pk_fields@.len() ==> (#[trigger] pk_fields@[j]) < cols@.len(),
        decreases cfg.pk_cols.len() - k,
    {
        proof {
            assert(pks.take(k + 1).drop_last() =~= pks.take(k as int));
            assert(pks.take(k + 1).last() == cfg.pk_cols@[k as int]@);
        }
        let ghost before = pk_fields@;
        let ghost types_before = pk_types@;
        match find_pk(&cols, cfg.pk_cols[k].as_str()) {
            Some(p) => {
                pk_fields.push(p);
                pk_types.push(cols[p].ty.clone());
                proof {
                    assert(positions(pk_fields@) =~= positions(before).push(p as int));
                    assert(views(pk_types@) =~= views(types_before).push(cols@[p as int].ty@));
                    assert(views(pk_types@) =~= types_at(views(cols@), positions(pk_fields@)));
                }
            },
            None => {
                proof {
                    pk_error_persists(views(cols@), pks, k + 1);
                }
                return Err(
                    ConfigError::PrimaryKeyFieldNotFound {
                        requested_name: cfg.pk_cols[k].clone(),
                    },
                );
            },
        }
        k += 1;
    }
    proof {
        assert(pks.take(cfg.pk_cols.len() as int) =~= pks);
    }
    Ok(Catalog { cols, pk_fields, pk_types })
}

/// The key type for the types of the key fields.
pub fn pk_ty(pk_types: &Vec<String>) -> (r: Result<KeyType, ConfigError>)
    ensures
        result_view(r) == key_type(views(pk_types@)),
{
    if pk_types.len() == 0 {
        Err(ConfigError::EmptyPrimaryKey)
    } else if pk_types.len() == 1 {
        Ok(KeyType::Single(pk_types[0].clone()))
    } else if pk_types.len() == 2 {
        Ok(KeyType::Pair(pk_types[0].clone(), pk_types[1].clone()))
    } else {
        Err(ConfigError::UnsupportedKeyArity)
    }
}

} // verus!
