//! The mapping configuration of a record type: the directives it declares
//! and the schema descriptor they resolve to.

use crate::naming::{table_name_from_type, to_snake_plural};
use crate::text::{clone_all, same_text, views};
use vstd::prelude::*;

verus! {

/// The value of a directive, by the shape it was written in.
#[derive(Debug, Clone, PartialEq, Eq)]
pub enum DirectiveValue {
    /// A bare key: `key`.
    Flag,
    /// One string: `key = "text"`.
    Text(String),
    /// A list of strings: `key("a", "b")`.
    List(Vec<String>),
}

/// One key/value directive of a record type or of a field.
#[derive(Debug, Clone, PartialEq, Eq)]
pub struct Directive {
    pub key: String,
    pub value: DirectiveValue,
}

/// Why a record type cannot be compiled.
#[derive(Debug, Clone, PartialEq, Eq)]
pub enum ConfigError {
    /// A directive whose key, or whose shape for that key, is not recognized.
    UnknownDirective,
    /// An explicit primary-key list without entries.
    EmptyPrimaryKey,
    /// A primary key of more than two columns.
    UnsupportedKeyArity,
    /// A primary-key column that no field provides.
    PrimaryKeyFieldNotFound { requested_name: String },
    /// Every column is excluded from update.
    NoUpdatableColumns,
}

/// A recognized type-level directive.
#[derive(Debug, Clone, PartialEq, Eq)]
pub enum TableArg {
    Schema(String),
    Table(String),
    PkList(Vec<String>),
    InsertSkip(Vec<String>),
    SkipUpdate(Vec<String>),
}

/// The schema descriptor: the resolved configuration of one record type.
#[derive(Debug, Clone, PartialEq, Eq)]
pub struct ModelCfg {
    /// Namespace of the table.
    pub schema: String,
    /// Physical table name.
    pub table: String,
    /// Primary-key column names, in configured order.
    pub pk_cols: Vec<String>,
    /// Column names that insert never writes.
    pub insert_skip: Vec<String>,
    /// Names that update never writes.
    pub skip_update: Vec<String>,
}

pub enum DirectiveValueView {
    Flag,
    Text(Seq<char>),
    List(Seq<Seq<char>>),
}

pub struct DirectiveView {
    pub key: Seq<char>,
    pub value: DirectiveValueView,
}

pub enum ConfigErrorView {
    UnknownDirective,
    EmptyPrimaryKey,
    UnsupportedKeyArity,
    PrimaryKeyFieldNotFound { requested_name: Seq<char> },
    NoUpdatableColumns,
}

pub enum TableArgView {
    Schema(Seq<char>),
    Table(Seq<char>),
    PkList(Seq<Seq<char>>),
    InsertSkip(Seq<Seq<char>>),
    SkipUpdate(Seq<Seq<char>>),
}

pub struct ModelCfgView {
    pub schema: Seq<char>,
    pub table: Seq<char>,
    pub pk_cols: Seq<Seq<char>>,
    pub insert_skip: Seq<Seq<char>>,
    pub skip_update: Seq<Seq<char>>,
}

impl View for DirectiveValue {
    type V = DirectiveValueView;

    open spec fn view(&self) -> DirectiveValueView {
        match self {
            DirectiveValue::Flag => DirectiveValueView::Flag,
            DirectiveValue::Text(s) => DirectiveValueView::Text(s@),
            DirectiveValue::List(l) => DirectiveValueView::List(views(l@)),
        }
    }
}

impl View for Directive {
    type V = DirectiveView;

    open spec fn view(&self) -> DirectiveView {
        DirectiveView { key: self.key@, value: self.value@ }
    }
}

impl View for ConfigError {
    type V = ConfigErrorView;

    open spec fn view(&self) -> ConfigErrorView {
        match self {
            ConfigError::UnknownDirective => ConfigErrorView::UnknownDirective,
            ConfigError::EmptyPrimaryKey => ConfigErrorView::EmptyPrimaryKey,
            ConfigError::UnsupportedKeyArity => ConfigErrorView::UnsupportedKeyArity,
            ConfigError::PrimaryKeyFieldNotFound { requested_name } => {
                ConfigErrorView::PrimaryKeyFieldNotFound { requested_name: requested_name@ }
            },
            ConfigError::NoUpdatableColumns => ConfigErrorView::NoUpdatableColumns,
        }
    }
}

impl View for TableArg {
    type V = TableArgView;

    open spec fn view(&self) -> TableArgView {
        match self {
            TableArg::Schema(s) => TableArgView::Schema(s@),
            TableArg::Table(s) => TableArgView::Table(s@),
            TableArg::PkList(l) => TableArgView::PkList(views(l@)),
            TableArg::InsertSkip(l) => TableArgView::InsertSkip(views(l@)),
            TableArg::SkipUpdate(l) => TableArgView::SkipUpdate(views(l@)),
        }
    }
}

impl View for ModelCfg {
    type V = ModelCfgView;

    open spec fn view(&self) -> ModelCfgView {
        ModelCfgView {
            schema: self.schema@,
            table: self.table@,
            pk_cols: views(self.pk_cols@),
            insert_skip: views(self.insert_skip@),
            skip_update: views(self.skip_update@),
        }
    }
}

/// A result seen through the views of its two sides.
pub open spec fn result_view<T: View, E: View>(r: Result<T, E>) -> Result<T::V, E::V> {
    match r {
        Ok(t) => Ok(t@),
        Err(e) => Err(e@),
    }
}

/// The type-level directive that `d` stands for, if its key is recognized
/// and written in a shape that the key admits: `schema` and `table` take one
/// string, `pk` one string or a list, `insert_skip` and `skip_update` a list.
pub open spec fn table_arg(d: DirectiveView) -> Option<TableArgView> {
    match d.value {
        DirectiveValueView::Text(v) => {
            if d.key == "schema"@ {
                Some(TableArgView::Schema(v))
            } else if d.key == "table"@ {
                Some(TableArgView::Table(v))
            } else if d.key == "pk"@ {
                Some(TableArgView::PkList(seq![v]))
            } else {
                None
            }
        },
        DirectiveValueView::List(l) => {
            if d.key == "pk"@ {
                Some(TableArgView::PkList(l))
            } else if d.key == "insert_skip"@ {
                Some(TableArgView::InsertSkip(l))
            } else if d.key == "skip_update"@ {
                Some(TableArgView::SkipUpdate(l))
            } else {
                None
            }
        },
        DirectiveValueView::Flag => None,
    }
}

/// The descriptor of a type that declares no directive: schema `public`,
/// the table named after the type, key column `id`, nothing kept out of
/// insert, `id` and `created_at` kept out of update.
pub open spec fn default_cfg(ty_name: Seq<char>) -> ModelCfgView {
    ModelCfgView {
        schema: "public"@,
        table: table_name_from_type(ty_name),
        pk_cols: seq!["id"@],
        insert_skip: Seq::empty(),
        skip_update: seq!["id"@, "created_at"@],
    }
}

/// The descriptor after one recognized directive has replaced the entry it
/// names. An explicit key list must have an entry.
pub open spec fn apply_arg(cfg: ModelCfgView, arg: TableArgView) -> Result<
    ModelCfgView,
    ConfigErrorView,
> {
    match arg {
        TableArgView::Schema(s) => Ok(ModelCfgView { schema: s, ..cfg }),
        TableArgView::Table(t) => Ok(ModelCfgView { table: t, ..cfg }),
        TableArgView::PkList(l) => {
            if l.len() == 0 {
                Err(ConfigErrorView::EmptyPrimaryKey)
            } else {
                Ok(ModelCfgView { pk_cols: l, ..cfg })
            }
        },
        TableArgView::InsertSkip(l) => Ok(ModelCfgView { insert_skip: l, ..cfg }),
        TableArgView::SkipUpdate(l) => Ok(ModelCfgView { skip_update: l, ..cfg }),
    }
}

/// The descriptor after the directives have been applied in order; the
/// first one that is not recognized, or that empties the key, decides the
/// error.
pub open spec fn apply_directives(cfg: ModelCfgView, ds: Seq<DirectiveView>) -> Result<
    ModelCfgView,
    ConfigErrorView,
>
    decreases ds.len(),
{
    if ds.len() == 0 {
        Ok(cfg)
    } else {
        match table_arg(ds[0]) {
            None => Err(ConfigErrorView::UnknownDirective),
            Some(arg) => match apply_arg(cfg, arg) {
                Err(e) => Err(e),
                Ok(next) => apply_directives(next, ds.drop_first()),
            },
        }
    }
}

/// The schema descriptor of a type: its defaults overridden by its
/// directives, with a key of one or two columns.
pub open spec fn model_cfg(ds: Seq<DirectiveView>, ty_name: Seq<char>) -> Result<
    ModelCfgView,
    ConfigErrorView,
> {
    match apply_directives(default_cfg(ty_name), ds) {
        Err(e) => Err(e),
        Ok(cfg) => {
            if cfg.pk_cols.len() > 2 {
                Err(ConfigErrorView::UnsupportedKeyArity)
            } else {
                Ok(cfg)
            }
        },
    }
}

/// What the error tells the author of the record type.
pub open spec fn message_text(e: ConfigErrorView) -> Seq<char> {
    match e {
        ConfigErrorView::UnknownDirective => {
            "unknown directive; expected schema = \"..\", table = \"..\", pk(..) or pk = \"..\", insert_skip(..), skip_update(..), or rename = \"..\" on a field"@
        },
        ConfigErrorView::EmptyPrimaryKey => "pk(...) cannot be empty"@,
        ConfigErrorView::UnsupportedKeyArity => "only 1-2 PK columns are supported"@,
        ConfigErrorView::PrimaryKeyFieldNotFound { requested_name } => {
            "pk field '"@ + requested_name + "' not found"@
        },
        ConfigErrorView::NoUpdatableColumns => "no fields to UPDATE (all are in skip_update)"@,
    }
}

impl ConfigError {
    /// The error as a message for the author of the record type.
    pub fn message(&self) -> (out: String)
        ensures
            out@ == message_text(self@),
    {
        match self {
            ConfigError::UnknownDirective => {
                "unknown directive; expected schema = \"..\", table = \"..\", pk(..) or pk = \"..\", insert_skip(..), skip_update(..), or rename = \"..\" on a field".to_owned()
            },
            ConfigError::EmptyPrimaryKey => "pk(...) cannot be empty".to_owned(),
            ConfigError::UnsupportedKeyArity => "only 1-2 PK columns are supported".to_owned(),
            ConfigError::PrimaryKeyFieldNotFound { requested_name } => {
                let mut out = "pk field '".to_owned();
                out.append(requested_name.as_str());
                out.append("' not found");
                out
            },
            ConfigError::NoUpdatableColumns => {
                "no fields to UPDATE (all are in skip_update)".to_owned()
            },
        }
    }
}

impl TableArg {
    /// Recognizes one type-level directive.
    pub fn parse(d: &Directive) -> (r: Result<TableArg, ConfigError>)
        ensures
            match table_arg(d@) {
                Some(arg) => r is Ok && r->Ok_0@ == arg,
                None => r == Err::<TableArg, ConfigError>(ConfigError::UnknownDirective),
            },
    {
        let key = d.key.as_str();
        match &d.value {
            DirectiveValue::Text(v) => {
                if same_text(key, "schema") {
                    Ok(TableArg::Schema(v.clone()))
                } else if same_text(key, "table") {
                    Ok(TableArg::Table(v.clone()))
                } else if same_text(key, "pk") {
                    let mut list: Vec<String> = Vec::new();
                    list.push(v.clone());
                    proof {
                        assert(views(list@) =~= seq![v@]);
                    }
                    Ok(TableArg::PkList(list))
                } else {
                    Err(ConfigError::UnknownDirective)
                }
            },
            DirectiveValue::List(l) => {
                if same_text(key, "pk") {
                    Ok(TableArg::PkList(clone_all(l)))
                } else if same_text(key, "insert_skip") {
                    Ok(TableArg::InsertSkip(clone_all(l)))
                } else if same_text(key, "skip_update") {
                    Ok(TableArg::SkipUpdate(clone_all(l)))
                } else {
                    Err(ConfigError::UnknownDirective)
                }
            },
            DirectiveValue::Flag => Err(ConfigError::UnknownDirective),
        }
    }
}

impl ModelCfg {
    /// The descriptor of a type that declares no directive.
    pub fn apply_default(ty_name: &str) -> (cfg: ModelCfg)
        ensures
            cfg@ == default_cfg(ty_name@),
    {
        let mut pk_cols: Vec<String> = Vec::new();
        pk_cols.push("id".to_owned());
        let mut skip_update: Vec<String> = Vec::new();
        skip_update.push("id".to_owned());
        skip_update.push("created_at".to_owned());
        let cfg = ModelCfg {
            schema: "public".to_owned(),
            table: to_snake_plural(ty_name),
            pk_cols,
            insert_skip: Vec::new(),
            skip_update,
        };
        proof {
            assert(views(cfg.pk_cols@) =~= seq!["id"@]);
            assert(views(cfg.insert_skip@) =~= Seq::<Seq<char>>::empty());
            assert(views(cfg.skip_update@) =~= seq!["id"@, "created_at"@]);
        }
        cfg
    }

    /// Replaces the entry that one recognized directive names.
    pub fn apply(self, arg: TableArg) -> (r: Result<ModelCfg, ConfigError>)
        ensures
            result_view(r) == apply_arg(self@, arg@),
    {
        let mut cfg = self;
        match arg {
            TableArg::Schema(s) => {
                cfg.schema = s;
            },
            TableArg::Table(t) => {
                cfg.table = t;
            },
            TableArg::PkList(l) => {
                if l.len() == 0 {
                    proof {
                        assert(views(l@).len() == 0);
                    }
                    return Err(ConfigError::EmptyPrimaryKey);
                }
                proof {
                    assert(views(l@).len() == l@.len());
                }
                cfg.pk_cols = l;
            },
            TableArg::InsertSkip(l) => {
                cfg.insert_skip = l;
            },
            TableArg::SkipUpdate(l) => {
                cfg.skip_update = l;
            },
        }
        Ok(cfg)
    }
}

/// Resolves the schema descriptor of the type called `ty_name` from the
/// directives it declares.
pub fn parse_model_cfg(attrs: &Vec<Directive>, ty_name: &str) -> (r: Result<
    ModelCfg,
    ConfigError,
>)
    ensures
        result_view(r) == model_cfg(views(attrs@), ty_name@),
{
    let mut cfg = ModelCfg::apply_default(ty_name);
    let mut i: usize = 0;
    proof {
        assert(views(attrs@).skip(0) =~= views(attrs@));
    }
    while i < attrs.len()
        invariant
            i <= attrs.len(),
            apply_directives(default_cfg(ty_name@), views(attrs@)) == apply_directives(
                cfg@,
                views(attrs@).skip(i as int),
            ),
        decreases attrs.len() - i,
    {
        proof {
            let rest = views(attrs@).skip(i as int);
            assert(rest[0] == attrs@[i as int]@);
            assert(rest.drop_first() =~= views(attrs@).skip(i + 1));
        }
        let arg = match TableArg::parse(&attrs[i]) {
            Ok(arg) => arg,
            Err(e) => {
                return Err(e);
            },
        };
        cfg = match cfg.apply(arg) {
            Ok(next) => next,
            Err(e) => {
                return Err(e);
            },
        };
        i += 1;
    }
    proof {
        assert(views(attrs@).skip(attrs.len() as int).len() == 0);
        assert(views(cfg.pk_cols@).len() == cfg.pk_cols@.len());
    }
    if cfg.pk_cols.len() > 2 {
        return Err(ConfigError::UnsupportedKeyArity);
    }
    Ok(cfg)
}

} // verus!
