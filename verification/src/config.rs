//! The project configuration as the commands read it, and the options of
//! the `print-schema` command laid over it.

use crate::path::{clone_opt_path, opt_path, FsPath, Segment};
use crate::text::{clone_opt_text, clone_opt_texts, opt_text, opt_texts, texts};
use vstd::prelude::*;
use vstd::string::*;

verus! {

/// The mathematical value of a table's name.
pub struct TableNameView {
    pub name: Seq<char>,
    pub schema: Option<Seq<char>>,
}

/// The name of a table, with the schema it lives in where one is given.
#[derive(Debug, PartialEq, Eq)]
pub struct TableName {
    pub name: String,
    pub schema: Option<String>,
}

impl View for TableName {
    type V = TableNameView;

    open spec fn view(&self) -> TableNameView {
        TableNameView { name: self.name@, schema: opt_text(self.schema) }
    }
}

impl Clone for TableName {
    fn clone(&self) -> (r: Self)
        ensures
            r@ == self@,
    {
        TableName { name: self.name.clone(), schema: clone_opt_text(&self.schema) }
    }
}

/// The values of a list of table names.
pub open spec fn table_names(v: Seq<TableName>) -> Seq<TableNameView> {
    Seq::new(v.len(), |i: int| v[i]@)
}

/// The mathematical value of a table filter.
pub enum FilteringView {
    OnlyTables(Seq<TableNameView>),
    ExceptTables(Seq<TableNameView>),
    Unfiltered,
}

/// Which tables the schema snapshot shows.
#[derive(Debug, PartialEq, Eq)]
pub enum Filtering {
    OnlyTables(Vec<TableName>),
    ExceptTables(Vec<TableName>),
    /// Every table is shown.
    Unfiltered,
}

impl View for Filtering {
    type V = FilteringView;

    open spec fn view(&self) -> FilteringView {
        match self {
            Filtering::OnlyTables(v) => FilteringView::OnlyTables(table_names(v@)),
            Filtering::ExceptTables(v) => FilteringView::ExceptTables(table_names(v@)),
            Filtering::Unfiltered => FilteringView::Unfiltered,
        }
    }
}

fn clone_table_names(v: &Vec<TableName>) -> (r: Vec<TableName>)
    ensures
        table_names(r@) == table_names(v@),
{
    let mut out: Vec<TableName> = Vec::new();
    let mut i: usize = 0;
    while i < v.len()
        invariant
            i <= v.len(),
            out@.len() == i,
            forall|k: int| 0 <= k < i ==> (#[trigger] out@[k])@ == v@[k]@,
        decreases v.len() - i,
    {
        out.push(v[i].clone());
        i = i + 1;
    }
    assert(table_names(out@) =~= table_names(v@));
    out
}

impl Clone for Filtering {
    fn clone(&self) -> (r: Self)
        ensures
            r@ == self@,
    {
        match self {
            Filtering::OnlyTables(v) => Filtering::OnlyTables(clone_table_names(v)),
            Filtering::ExceptTables(v) => Filtering::ExceptTables(clone_table_names(v)),
            Filtering::Unfiltered => Filtering::Unfiltered,
        }
    }
}

/// The mathematical value of the `print_schema` record.
pub struct PrintSchemaView {
    pub file: Option<Seq<Segment>>,
    pub with_docs: bool,
    pub filter: FilteringView,
    pub schema: Option<Seq<char>>,
    pub patch_file: Option<Seq<Segment>>,
    pub import_types: Option<Seq<Seq<char>>>,
}

/// How the schema snapshot is rendered and where it is kept.
#[derive(Debug, PartialEq, Eq)]
pub struct PrintSchema {
    /// The snapshot file; without one the snapshot is not kept.
    pub file: Option<FsPath>,
    pub with_docs: bool,
    pub filter: Filtering,
    pub schema: Option<String>,
    pub patch_file: Option<FsPath>,
    pub import_types: Option<Vec<String>>,
}

impl View for PrintSchema {
    type V = PrintSchemaView;

    open spec fn view(&self) -> PrintSchemaView {
        PrintSchemaView {
            file: opt_path(self.file),
            with_docs: self.with_docs,
            filter: self.filter@,
            schema: opt_text(self.schema),
            patch_file: opt_path(self.patch_file),
            import_types: opt_texts(self.import_types),
        }
    }
}

impl Clone for PrintSchema {
    fn clone(&self) -> (r: Self)
        ensures
            r@ == self@,
    {
        PrintSchema {
            file: clone_opt_path(&self.file),
            with_docs: self.with_docs,
            filter: self.filter.clone(),
            schema: clone_opt_text(&self.schema),
            patch_file: clone_opt_path(&self.patch_file),
            import_types: clone_opt_texts(&self.import_types),
        }
    }
}

/// The mathematical value of a configuration.
pub struct ConfigView {
    pub migrations_directory: Option<Seq<Segment>>,
    pub print_schema: PrintSchemaView,
}

/// The project configuration.
#[derive(Debug, PartialEq, Eq)]
pub struct Config {
    pub migrations_directory: Option<FsPath>,
    pub print_schema: PrintSchema,
}

impl View for Config {
    type V = ConfigView;

    open spec fn view(&self) -> ConfigView {
        ConfigView {
            migrations_directory: opt_path(self.migrations_directory),
            print_schema: self.print_schema@,
        }
    }
}

/// What the command line of `print-schema` holds.
#[derive(Debug, PartialEq, Eq)]
pub struct PrintSchemaArgs {
    pub schema: Option<String>,
    pub table_names: Vec<String>,
    pub only_tables: bool,
    pub except_tables: bool,
    /// The old name of `only_tables`.
    pub whitelist: bool,
    /// The old name of `except_tables`.
    pub blacklist: bool,
    pub with_docs: bool,
    pub patch_file: Option<FsPath>,
    pub import_types: Option<Vec<String>>,
}

/// The mathematical value of the command line of `print-schema`.
pub struct PrintSchemaArgsView {
    pub schema: Option<Seq<char>>,
    pub table_names: Seq<Seq<char>>,
    pub only_tables: bool,
    pub except_tables: bool,
    pub whitelist: bool,
    pub blacklist: bool,
    pub with_docs: bool,
    pub patch_file: Option<Seq<Segment>>,
    pub import_types: Option<Seq<Seq<char>>>,
}

impl View for PrintSchemaArgs {
    type V = PrintSchemaArgsView;

    open spec fn view(&self) -> PrintSchemaArgsView {
        PrintSchemaArgsView {
            schema: opt_text(self.schema),
            table_names: texts(self.table_names@),
            only_tables: self.only_tables,
            except_tables: self.except_tables,
            whitelist: self.whitelist,
            blacklist: self.blacklist,
            with_docs: self.with_docs,
            patch_file: opt_path(self.patch_file),
            import_types: opt_texts(self.import_types),
        }
    }
}

/// An option that was given under its old name.
#[derive(Debug, Clone, Copy, PartialEq, Eq)]
pub enum Deprecation {
    Whitelist,
    Blacklist,
}

/// The old names among the options given, `whitelist` first.
pub open spec fn deprecations_spec(args: PrintSchemaArgsView) -> Seq<Deprecation> {
    (if args.whitelist {
        seq![Deprecation::Whitelist]
    } else {
        Seq::empty()
    }) + (if args.blacklist {
        seq![Deprecation::Blacklist]
    } else {
        Seq::empty()
    })
}

/// The table that `name` stands for: in the schema `schema` where one is
/// set, and as it stands where none is.
pub open spec fn table_in(name: Seq<char>, schema: Option<Seq<char>>) -> TableNameView {
    TableNameView { name, schema }
}

/// The filter that the table names on the command line make: each name in
/// the schema in force.
pub open spec fn filter_tables(names: Seq<Seq<char>>, schema: Option<Seq<char>>) -> Seq<
    TableNameView,
> {
    Seq::new(names.len(), |i: int| table_in(names[i], schema))
}

/// The configuration with the options of the command line laid over it. An
/// option that is given replaces the configured value; one that is not given
/// leaves it. The table names become the filter only where one of the two
/// filter options, under its new or its old name, is given; `only-tables`
/// wins over `except-tables`.
pub open spec fn overlay_spec(
    config: PrintSchemaView,
    args: PrintSchemaArgsView,
) -> PrintSchemaView {
    let schema = if args.schema is Some {
        args.schema
    } else {
        config.schema
    };
    let tables = filter_tables(args.table_names, schema);
    PrintSchemaView {
        file: config.file,
        with_docs: config.with_docs || args.with_docs,
        filter: if args.only_tables || args.whitelist {
            FilteringView::OnlyTables(tables)
        } else if args.except_tables || args.blacklist {
            FilteringView::ExceptTables(tables)
        } else {
            config.filter
        },
        schema,
        patch_file: if args.patch_file is Some {
            args.patch_file
        } else {
            config.patch_file
        },
        import_types: if args.import_types is Some {
            args.import_types
        } else {
            config.import_types
        },
    }
}

/// The message that tells of an option's new name.
pub open spec fn deprecation_text(d: Deprecation) -> Seq<char> {
    match d {
        Deprecation::Whitelist =>
            "The `whitelist` option has been deprecated and renamed to `only-tables`."@,
        Deprecation::Blacklist =>
            "The `blacklist` option has been deprecated and renamed to `except-tables`."@,
    }
}

impl Deprecation {
    /// The message that tells of the option's new name.
    pub fn message(&self) -> (r: String)
        ensures
            r@ == deprecation_text(*self),
    {
        match self {
            Deprecation::Whitelist => String::from_str(
                "The `whitelist` option has been deprecated and renamed to `only-tables`.",
            ),
            Deprecation::Blacklist => String::from_str(
                "The `blacklist` option has been deprecated and renamed to `except-tables`.",
            ),
        }
    }
}

/// The table names on the command line as a filter, each in `schema`.
fn tables_from_names(names: &Vec<String>, schema: &Option<String>) -> (r: Vec<TableName>)
    ensures
        table_names(r@) == filter_tables(texts(names@), opt_text(*schema)),
{
    let mut out: Vec<TableName> = Vec::new();
    let mut i: usize = 0;
    while i < names.len()
        invariant
            i <= names.len(),
            out@.len() == i,
            forall|k: int|
                0 <= k < i ==> (#[trigger] out@[k])@ == table_in(names@[k]@, opt_text(*schema)),
        decreases names.len() - i,
    {
        out.push(TableName { name: names[i].clone(), schema: clone_opt_text(schema) });
        i = i + 1;
    }
    assert(table_names(out@) =~= filter_tables(texts(names@), opt_text(*schema)));
    out
}

/// The settings that the `print-schema` command renders with, and the old
/// option names to warn of: the configured record with the options of the
/// command line laid over it.
pub fn run_infer_schema(config: PrintSchema, args: PrintSchemaArgs) -> (r: (
    PrintSchema,
    Vec<Deprecation>,
))
    ensures
        r.0@ == overlay_spec(config@, args@),
        r.1@ == deprecations_spec(args@),
{
    let ghost before = config@;
    let ghost given = args@;
    let mut config = config;
    let PrintSchemaArgs {
        schema,
        table_names: names,
        only_tables,
        except_tables,
        whitelist,
        blacklist,
        with_docs,
        patch_file,
        import_types,
    } = args;
    if schema.is_some() {
        config.schema = schema;
    }
    let mut warnings: Vec<Deprecation> = Vec::new();
    if whitelist {
        warnings.push(Deprecation::Whitelist);
    }
    if blacklist {
        warnings.push(Deprecation::Blacklist);
    }
    assert(warnings@ =~= deprecations_spec(given));
    if only_tables || whitelist {
        config.filter = Filtering::OnlyTables(tables_from_names(&names, &config.schema));
    } else if except_tables || blacklist {
        config.filter = Filtering::ExceptTables(tables_from_names(&names, &config.schema));
    }
    if with_docs {
        config.with_docs = true;
    }
    if patch_file.is_some() {
        config.patch_file = patch_file;
    }
    if import_types.is_some() {
        config.import_types = import_types;
    }
    (config, warnings)
}

} // verus!
