//! The source text of the methods that the derive generates.
//!
//! Each generated method builds its SQL statement at run time with
//! `sqlx::QueryBuilder`, binding every value as a parameter; names (table,
//! columns) are written into the method as string literals.
use vstd::prelude::*;
use vstd::string::StringExecFns;

use crate::attr::{contains_operation, Attr, AttrView};
use crate::database::{spec_executor_name, DbType};
use crate::error::{MacroError, MacroErrorView};
use crate::text::{
    has_prefix, is_plain, plain_literal, spec_unraw, str_eq, str_literal, to_string,
};
use crate::types::{columns_view, spec_uses_set_option, Column, ColumnView, Operation, StructType};

verus! {

/// What a generated method gives back.
#[derive(Debug)]
pub enum ReturnType {
    /// The primary key of the written row.
    PrimaryKey(Column),
    /// One row, as the named type.
    EntireRow(String),
    /// At most one row, as the named type.
    OptionalRow(String),
    /// All rows, as the named type.
    MultipleRows(String),
    /// Nothing.
    Unit,
}

/// The view of a `ReturnType`.
pub enum ReturnTypeView {
    PrimaryKey(ColumnView),
    EntireRow(Seq<char>),
    OptionalRow(Seq<char>),
    MultipleRows(Seq<char>),
    Unit,
}

impl View for ReturnType {
    type V = ReturnTypeView;

    open spec fn view(&self) -> ReturnTypeView {
        match self {
            ReturnType::PrimaryKey(c) => ReturnTypeView::PrimaryKey(c@),
            ReturnType::EntireRow(o) => ReturnTypeView::EntireRow(o@),
            ReturnType::OptionalRow(o) => ReturnTypeView::OptionalRow(o@),
            ReturnType::MultipleRows(o) => ReturnTypeView::MultipleRows(o@),
            ReturnType::Unit => ReturnTypeView::Unit,
        }
    }
}

/// The texts of the string literals that the generated code writes for a
/// struct's names.
pub struct Literals {
    /// The table's name.
    pub table: String,
    /// The key column's field name; empty when there is no key.
    pub key: String,
    /// Each column's SQL name, in the order of the columns.
    pub columns: Vec<String>,
}

/// The view of `Literals`.
pub struct LiteralsView {
    pub table: Seq<char>,
    pub key: Seq<char>,
    pub columns: Seq<Seq<char>>,
}

/// The texts of a sequence of strings.
pub open spec fn strings_view(v: Seq<String>) -> Seq<Seq<char>> {
    v.map_values(|s: String| s@)
}

impl View for Literals {
    type V = LiteralsView;

    open spec fn view(&self) -> LiteralsView {
        LiteralsView { table: self.table@, key: self.key@, columns: strings_view(self.columns@) }
    }
}

/// `l` is a string literal of `name`: a quoted text, which is the name
/// itself in quotes when the name needs no escape.
pub open spec fn literal_of(name: Seq<char>, l: Seq<char>) -> bool {
    &&& l.len() >= 2
    &&& l[0] == '"'
    &&& l.last() == '"'
    &&& is_plain(name) ==> l == plain_literal(name)
}

/// `l` holds a string literal of each name that the code generated for `a`
/// writes: the table, the key column and every column's SQL name.
pub open spec fn lits_ok(a: AttrView, l: LiteralsView) -> bool {
    &&& literal_of(a.parsed_struct.table_name, l.table)
    &&& match a.primary_key {
        Some(pk) => literal_of(pk.name, l.key),
        None => l.key.len() == 0,
    }
    &&& l.columns.len() == a.columns.len()
    &&& forall|k: int|
        #![trigger l.columns[k]]
        0 <= k < a.columns.len() ==> literal_of(spec_unraw(a.columns[k].name), l.columns[k])
}

/// Every column's SQL name needs no escape in a literal.
pub open spec fn spec_columns_plain(cols: Seq<ColumnView>) -> bool {
    forall|k: int| 0 <= k < cols.len() ==> is_plain(spec_unraw(#[trigger] cols[k].name))
}

/// The names that the generated code writes as literals (table, columns,
/// key) need no escape.
pub open spec fn spec_names_plain(a: AttrView) -> bool {
    &&& is_plain(a.parsed_struct.table_name)
    &&& spec_columns_plain(a.columns)
    &&& (a.primary_key matches Some(pk) ==> is_plain(pk.name))
}

/// The literals of names that need no escape: each name in quotes.
pub open spec fn spec_plain_literals(a: AttrView) -> LiteralsView {
    LiteralsView {
        table: plain_literal(a.parsed_struct.table_name),
        key: match a.primary_key {
            Some(pk) => plain_literal(pk.name),
            None => Seq::empty(),
        },
        columns: Seq::new(a.columns.len(), |k: int| plain_literal(spec_unraw(a.columns[k].name))),
    }
}

/// When no name needs an escape, the literals are the names in quotes.
pub proof fn lemma_plain_literals(a: AttrView, l: LiteralsView)
    requires
        lits_ok(a, l),
        spec_names_plain(a),
    ensures
        l == spec_plain_literals(a),
{
    let p = spec_plain_literals(a);
    assert forall|k: int| 0 <= k < l.columns.len() implies l.columns[k] == p.columns[k] by {
        assert(is_plain(spec_unraw(a.columns[k].name)));
    }
    assert(l.columns =~= p.columns);
    assert(l.table == p.table);
    assert(l.key == p.key) by {
        if let Some(pk) = a.primary_key {
            assert(is_plain(pk.name));
        }
    }
}

/// Writes the string literal of each name that the code generated for
/// `attr` holds.
pub fn literals(attr: &Attr) -> (l: Literals)
    ensures
        lits_ok(attr@, l@),
{
    let table = str_literal(attr.parsed_struct.table_name.as_str());
    let key = match &attr.primary_key {
        Some(pk) => str_literal(pk.name.as_str()),
        None => String::new(),
    };
    let mut columns: Vec<String> = Vec::new();
    let mut i: usize = 0;
    while i < attr.columns.len()
        invariant
            i <= attr.columns@.len(),
            columns@.len() == i,
            forall|k: int|
                0 <= k < i ==> literal_of(
                    spec_unraw(attr.columns@[k]@.name),
                    #[trigger] columns@[k]@,
                ),
        decreases attr.columns.len() - i,
    {
        let name = attr.columns[i].safe_name();
        let lit = str_literal(name.as_str());
        columns.push(lit);
        i = i + 1;
    }
    let l = Literals { table, key, columns };
    proof {
        assert forall|k: int| 0 <= k < attr@.columns.len() implies literal_of(
            spec_unraw(attr@.columns[k].name),
            #[trigger] l@.columns[k],
        ) by {
            assert(l@.columns[k] == l.columns@[k]@);
            assert(attr@.columns[k] == attr.columns@[k]@);
        }
    }
    l
}

/// The outcome of a generator against the text that it is to write: its
/// reason to refuse, or that text.
pub open spec fn text_match(r: Result<Seq<char>, MacroErrorView>, res: Result<String, MacroError>) -> bool {
    match r {
        Err(e) => res matches Err(x) && x@ == e,
        Ok(s) => res matches Ok(x) && x@ == s,
    }
}

/// The generated method's declared result type.
pub open spec fn spec_function_output(rt: ReturnTypeView) -> Seq<char> {
    match rt {
        ReturnTypeView::PrimaryKey(pk) => "::sqlx::Result<"@ + pk.ty + ">"@,
        ReturnTypeView::EntireRow(o) => "::sqlx::Result<"@ + o + ">"@,
        ReturnTypeView::OptionalRow(o) => "::sqlx::Result<Option<"@ + o + ">>"@,
        ReturnTypeView::MultipleRows(o) => "::sqlx::Result<Vec<"@ + o + ">>"@,
        ReturnTypeView::Unit => "::sqlx::Result<()>"@,
    }
}

/// The `RETURNING` clause, which MySQL does not have; `key` is the literal
/// of the key column's name.
pub open spec fn spec_returning_statement(rt: ReturnTypeView, db: DbType, key: Seq<char>) -> Seq<
    char,
> {
    if db == DbType::MySQL {
        Seq::empty()
    } else {
        match rt {
            ReturnTypeView::PrimaryKey(_) => "qb.push(\" RETURNING \");\nqb.push("@ + key
                + ");\n"@,
            ReturnTypeView::Unit => Seq::empty(),
            _ => "qb.push(\" RETURNING * \");\n"@,
        }
    }
}

/// How the statement is run and its result turned into the method's result.
/// On MySQL a key comes from the insert id when the database fills it, and
/// is the struct's own value otherwise.
pub open spec fn spec_query_builder_execution(rt: ReturnTypeView, db: DbType) -> Seq<char> {
    match rt {
        ReturnTypeView::PrimaryKey(pk) => if db == DbType::MySQL {
            if pk.auto_increment {
                "qb.build()\n.execute(db)\n.await\n.map(|result| result.last_insert_id() as _)\n"@
            } else {
                "qb.build()\n.execute(db)\n.await?;\n\nOk(self."@ + pk.name + ".clone())\n"@
            }
        } else {
            "qb.build()\n.fetch_one(db)\n.await\n.map(|row| row.get(0))\n"@
        },
        ReturnTypeView::EntireRow(_) => "qb.build_query_as()\n.fetch_one(db)\n.await\n"@,
        ReturnTypeView::OptionalRow(_) => "qb.build_query_as()\n.fetch_optional(db)\n.await\n"@,
        ReturnTypeView::MultipleRows(_) => "qb.build_query_as()\n.fetch_all(db)\n.await\n"@,
        ReturnTypeView::Unit => "qb.build()\n.execute(db)\n.await\n.map(|_| ())\n"@,
    }
}

impl ReturnType {
    /// The generated method's declared result type.
    pub fn function_output(&self) -> (res: String)
        ensures
            res@ == spec_function_output(self@),
    {
        match self {
            ReturnType::PrimaryKey(pk) => to_string("::sqlx::Result<").concat(pk._type.as_str()).concat(
                ">",
            ),
            ReturnType::EntireRow(o) => to_string("::sqlx::Result<").concat(o.as_str()).concat(">"),
            ReturnType::OptionalRow(o) => to_string("::sqlx::Result<Option<").concat(
                o.as_str(),
            ).concat(">>"),
            ReturnType::MultipleRows(o) => to_string("::sqlx::Result<Vec<").concat(o.as_str()).concat(
                ">>",
            ),
            ReturnType::Unit => to_string("::sqlx::Result<()>"),
        }
    }

    /// The `RETURNING` clause for the database: none on MySQL nor for a
    /// method that returns nothing, the key column for a key, else the row.
    pub fn returning_statement(&self, db: DbType) -> (res: String)
        ensures
            db == DbType::MySQL ==> res@.len() == 0,
            !(self@ is PrimaryKey) ==> res@ == spec_returning_statement(self@, db, Seq::empty()),
            self@ matches ReturnTypeView::PrimaryKey(pk) ==> exists|l: Seq<char>|
                #[trigger] literal_of(pk.name, l) && res@ == spec_returning_statement(self@, db, l),
            self@ matches ReturnTypeView::PrimaryKey(pk) ==> (is_plain(pk.name) ==> res@
                == spec_returning_statement(self@, db, plain_literal(pk.name))),
    {
        let key = match self {
            ReturnType::PrimaryKey(pk) => str_literal(pk.name.as_str()),
            _ => String::new(),
        };
        let res = returning_text(self, db, key.as_str());
        proof {
            if let ReturnTypeView::PrimaryKey(pk) = self@ {
                assert(literal_of(pk.name, key@));
            }
        }
        res
    }

    /// How the statement is run on the database.
    pub fn query_builder_execution(&self, db: DbType) -> (res: String)
        ensures
            res@ == spec_query_builder_execution(self@, db),
    {
        match self {
            ReturnType::PrimaryKey(pk) => {
                if db == DbType::MySQL {
                    if pk.auto_increment {
                        to_string(
                            "qb.build()\n.execute(db)\n.await\n.map(|result| result.last_insert_id() as _)\n",
                        )
                    } else {
                        to_string("qb.build()\n.execute(db)\n.await?;\n\nOk(self.").concat(
                            pk.name.as_str(),
                        ).concat(".clone())\n")
                    }
                } else {
                    to_string("qb.build()\n.fetch_one(db)\n.await\n.map(|row| row.get(0))\n")
                }
            },
            ReturnType::EntireRow(_) => to_string("qb.build_query_as()\n.fetch_one(db)\n.await\n"),
            ReturnType::OptionalRow(_) => to_string(
                "qb.build_query_as()\n.fetch_optional(db)\n.await\n",
            ),
            ReturnType::MultipleRows(_) => to_string("qb.build_query_as()\n.fetch_all(db)\n.await\n"),
            ReturnType::Unit => to_string("qb.build()\n.execute(db)\n.await\n.map(|_| ())\n"),
        }
    }
}

/// Writes the `RETURNING` clause with the given literal of the key's name.
fn returning_text(rt: &ReturnType, db: DbType, key: &str) -> (res: String)
    ensures
        res@ == spec_returning_statement(rt@, db, key@),
{
    if db == DbType::MySQL {
        return String::new();
    }
    match rt {
        ReturnType::PrimaryKey(_) => to_string("qb.push(\" RETURNING \");\nqb.push(").concat(
            key,
        ).concat(");\n"),
        ReturnType::Unit => String::new(),
        _ => to_string("qb.push(\" RETURNING * \");\n"),
    }
}

/// A method's signature from its head (up to `->`), its result and the
/// executor bound, up to the opening brace of its body.
pub open spec fn spec_header(head: Seq<char>, rt: ReturnTypeView, db: DbType) -> Seq<char> {
    head + spec_function_output(rt) + "\nwhere\n    E: ::sqlx::"@ + spec_executor_name(db)
        + "<'e>\n{\n"@
}

fn header(head: &str, rt: &ReturnType, db: DbType) -> (res: String)
    ensures
        res@ == spec_header(head@, rt@, db),
{
    let out = rt.function_output();
    let exec = db.to_ident();
    to_string(head).concat(out.as_str()).concat("\nwhere\n    E: ::sqlx::").concat(
        exec.as_str(),
    ).concat("<'e>\n{\n")
}

/// The start of a `WHERE` clause that names the key column next; with soft
/// deletion it leaves out the deleted rows.
pub open spec fn spec_where_statement(soft_deletion: bool) -> Seq<char> {
    if soft_deletion {
        "qb.push(\" WHERE deleted_at IS NULL AND \");\n"@
    } else {
        "qb.push(\" WHERE \");\n"@
    }
}

fn where_statement(soft_deletion: bool) -> (res: String)
    ensures
        res@ == spec_where_statement(soft_deletion),
{
    if soft_deletion {
        to_string("qb.push(\" WHERE deleted_at IS NULL AND \");\n")
    } else {
        to_string("qb.push(\" WHERE \");\n")
    }
}

/// The comparison of the key column, named by the literal `key`, with a
/// bound value.
pub open spec fn spec_key_condition(key: Seq<char>, bound: Seq<char>) -> Seq<char> {
    "qb.push("@ + key + ");\nqb.push(\" = \");\nqb.push_bind("@ + bound + ");\n\n"@
}

fn key_condition(key: &str, bound: &str) -> (res: String)
    ensures
        res@ == spec_key_condition(key@, bound@),
{
    to_string("qb.push(").concat(key).concat(");\nqb.push(\" = \");\nqb.push_bind(").concat(
        bound,
    ).concat(");\n\n")
}

/// `table_name()`, the table's name, given the literal of that name.
pub open spec fn spec_table_name_fn(table: Seq<char>) -> Seq<char> {
    "pub fn table_name<'a>() -> &'a str {\n"@ + table + "\n}\n"@
}

/// Writes `table_name()` with the given literals.
pub fn get_table_name_with(lits: &Literals) -> (res: String)
    ensures
        res@ == spec_table_name_fn(lits@.table),
{
    to_string("pub fn table_name<'a>() -> &'a str {\n").concat(lits.table.as_str()).concat("\n}\n")
}

/// Generates `table_name()`.
pub fn get_table_name(attr: &Attr) -> (res: String)
    ensures
        exists|l: LiteralsView| #[trigger] lits_ok(attr@, l) && res@ == spec_table_name_fn(l.table),
        spec_names_plain(attr@) ==> res@ == spec_table_name_fn(
            plain_literal(attr@.parsed_struct.table_name),
        ),
{
    let lits = literals(attr);
    let res = get_table_name_with(&lits);
    assert(lits_ok(attr@, lits@));
    res
}

/// `get_by_id(db, id)`: the row with the given key, if there is one.
pub open spec fn spec_get_by_id_fn(a: AttrView, pk: ColumnView, l: LiteralsView) -> Seq<char> {
    let rt = ReturnTypeView::OptionalRow(a.parsed_struct.return_object);
    spec_header("pub async fn get_by_id<'e, E>(db: E, id: &"@ + pk.ty + ") -> "@, rt, a.db_type)
        + "let mut qb = ::sqlx::QueryBuilder::new(\"SELECT * FROM \");\nqb.push("@ + l.table
        + ");\n"@ + spec_where_statement(a.soft_deletion) + spec_key_condition(l.key, "id"@)
        + spec_query_builder_execution(rt, a.db_type) + "}\n"@
}

/// `get_by_id`, or why the struct cannot have it: it needs a primary key.
pub open spec fn spec_get_by_id(a: AttrView, l: LiteralsView) -> Result<Seq<char>, MacroErrorView> {
    match a.primary_key {
        None => Err(MacroErrorView::MissingPrimaryKeyForGet),
        Some(pk) => Ok(spec_get_by_id_fn(a, pk, l)),
    }
}

/// Writes `get_by_id` with the given literals.
pub fn get_by_id_fn_with(attr: &Attr, lits: &Literals) -> (res: Result<String, MacroError>)
    ensures
        text_match(spec_get_by_id(attr@, lits@), res),
{
    let pk = match &attr.primary_key {
        Some(pk) => pk,
        None => return Err(MacroError::MissingPrimaryKeyForGet),
    };
    let rt = ReturnType::OptionalRow(attr.parsed_struct.return_object.clone());
    let head = to_string("pub async fn get_by_id<'e, E>(db: E, id: &").concat(
        pk._type.as_str(),
    ).concat(") -> ");
    let h = header(head.as_str(), &rt, attr.db_type);
    let w = where_statement(attr.soft_deletion);
    let k = key_condition(lits.key.as_str(), "id");
    let e = rt.query_builder_execution(attr.db_type);
    Ok(
        h.concat("let mut qb = ::sqlx::QueryBuilder::new(\"SELECT * FROM \");\nqb.push(").concat(
            lits.table.as_str(),
        ).concat(");\n").concat(w.as_str()).concat(k.as_str()).concat(e.as_str()).concat("}\n"),
    )
}

/// Generates `get_by_id`; the struct needs a primary key.
pub fn get_by_id_fn(attr: &Attr) -> (res: Result<String, MacroError>)
    ensures
        exists|l: LiteralsView| #[trigger] lits_ok(attr@, l) && text_match(spec_get_by_id(attr@, l), res),
        spec_names_plain(attr@) ==> text_match(spec_get_by_id(attr@, spec_plain_literals(attr@)), res),
{
    let lits = literals(attr);
    let res = get_by_id_fn_with(attr, &lits);
    proof {
        if spec_names_plain(attr@) {
            lemma_plain_literals(attr@, lits@);
        }
    }
    res
}

/// `list_all(db)`: every row (with soft deletion, every row not deleted).
pub open spec fn spec_list_all_fn(a: AttrView, l: LiteralsView) -> Seq<char> {
    let rt = ReturnTypeView::MultipleRows(a.parsed_struct.return_object);
    spec_header("pub async fn list_all<'e, E>(db: E) -> "@, rt, a.db_type)
        + "let mut qb = ::sqlx::QueryBuilder::new(\"SELECT * FROM \");\nqb.push("@ + l.table
        + ");\n"@ + (if a.soft_deletion {
        "qb.push(\" WHERE deleted_at IS NULL \");\n"@
    } else {
        Seq::empty()
    }) + "\n"@ + spec_query_builder_execution(rt, a.db_type) + "}\n"@
}

/// Writes `list_all` with the given literals.
pub fn list_all_fn_with(attr: &Attr, lits: &Literals) -> (res: String)
    ensures
        res@ == spec_list_all_fn(attr@, lits@),
{
    let rt = ReturnType::MultipleRows(attr.parsed_struct.return_object.clone());
    let h = header("pub async fn list_all<'e, E>(db: E) -> ", &rt, attr.db_type);
    let w = if attr.soft_deletion {
        to_string("qb.push(\" WHERE deleted_at IS NULL \");\n")
    } else {
        String::new()
    };
    let e = rt.query_builder_execution(attr.db_type);
    h.concat("let mut qb = ::sqlx::QueryBuilder::new(\"SELECT * FROM \");\nqb.push(").concat(
        lits.table.as_str(),
    ).concat(");\n").concat(w.as_str()).concat("\n").concat(e.as_str()).concat("}\n")
}

/// Generates `list_all`.
pub fn list_all_fn(attr: &Attr) -> (res: String)
    ensures
        exists|l: LiteralsView| #[trigger] lits_ok(attr@, l) && res@ == spec_list_all_fn(attr@, l),
        spec_names_plain(attr@) ==> res@ == spec_list_all_fn(attr@, spec_plain_literals(attr@)),
{
    let lits = literals(attr);
    let res = list_all_fn_with(attr, &lits);
    proof {
        if spec_names_plain(attr@) {
            lemma_plain_literals(attr@, lits@);
        }
    }
    res
}

/// The naming of one column in an insert, given the literal of its SQL
/// name: left out when the database fills it, and only when set for a
/// `SetOption` field.
pub open spec fn spec_insert_name(c: ColumnView, lit: Seq<char>) -> Seq<char> {
    if c.auto_increment {
        Seq::empty()
    } else if spec_uses_set_option(c.ty) {
        "if self."@ + c.name + ".is_set() {\nfields_str.push("@ + lit + ");\n}\n"@
    } else {
        "fields_str.push("@ + lit + ");\n"@
    }
}

/// The value of one column in an insert, under the same conditions.
pub open spec fn spec_insert_value(c: ColumnView) -> Seq<char> {
    if c.auto_increment {
        Seq::empty()
    } else if spec_uses_set_option(c.ty) {
        "if let SetOption::Set(v) = &self."@ + c.name + " {\nseparated.push_bind(v);\n}\n"@
    } else {
        "separated.push_bind(&self."@ + c.name + ");\n"@
    }
}

/// The assignment of one column in an update, given the literal of its SQL
/// name: left out for the key and for columns the database fills, and only
/// when set for a `SetOption` field.
pub open spec fn spec_update_assignment(c: ColumnView, lit: Seq<char>) -> Seq<char> {
    if c.auto_increment || c.primary_key {
        Seq::empty()
    } else {
        let q = "if !first {\nqb.push(\", \");\n}\nqb.push("@ + lit
            + ");\nqb.push(\" = \");\nqb.push_bind(&self."@ + c.name + ");\nfirst = false;\n"@;
        if spec_uses_set_option(c.ty) {
            "if self."@ + c.name + ".is_set() {\n"@ + q + "}\n"@
        } else {
            q
        }
    }
}

/// Which per-column piece a generator writes.
pub enum Piece {
    InsertName,
    InsertValue,
    UpdateAssignment,
}

/// One column's piece of the given kind; the column comes with the literal
/// of its SQL name.
pub open spec fn spec_piece(k: Piece, p: (ColumnView, Seq<char>)) -> Seq<char> {
    match k {
        Piece::InsertName => spec_insert_name(p.0, p.1),
        Piece::InsertValue => spec_insert_value(p.0),
        Piece::UpdateAssignment => spec_update_assignment(p.0, p.1),
    }
}

/// The pieces of all columns, in order.
pub open spec fn spec_pieces(k: Piece, ps: Seq<(ColumnView, Seq<char>)>) -> Seq<char>
    decreases ps.len(),
{
    if ps.len() == 0 {
        Seq::empty()
    } else {
        spec_pieces(k, ps.drop_last()) + spec_piece(k, ps.last())
    }
}

/// Each column paired with the literal of its SQL name.
pub open spec fn spec_named_columns(cols: Seq<ColumnView>, lits: Seq<Seq<char>>) -> Seq<
    (ColumnView, Seq<char>),
> {
    Seq::new(cols.len(), |k: int| (cols[k], lits[k]))
}

fn insert_name(c: &Column, lit: &str) -> (res: String)
    ensures
        res@ == spec_insert_name(c@, lit@),
{
    if c.auto_increment {
        return String::new();
    }
    if c.use_set_options() {
        to_string("if self.").concat(c.name.as_str()).concat(
            ".is_set() {\nfields_str.push(",
        ).concat(lit).concat(");\n}\n")
    } else {
        to_string("fields_str.push(").concat(lit).concat(");\n")
    }
}

fn insert_value(c: &Column) -> (res: String)
    ensures
        res@ == spec_insert_value(c@),
{
    if c.auto_increment {
        String::new()
    } else if c.use_set_options() {
        to_string("if let SetOption::Set(v) = &self.").concat(c.name.as_str()).concat(
            " {\nseparated.push_bind(v);\n}\n",
        )
    } else {
        to_string("separated.push_bind(&self.").concat(c.name.as_str()).concat(");\n")
    }
}

fn update_assignment(c: &Column, lit: &str) -> (res: String)
    ensures
        res@ == spec_update_assignment(c@, lit@),
{
    if c.auto_increment || c.primary_key {
        return String::new();
    }
    let q = to_string("if !first {\nqb.push(\", \");\n}\nqb.push(").concat(lit).concat(
        ");\nqb.push(\" = \");\nqb.push_bind(&self.",
    ).concat(c.name.as_str()).concat(");\nfirst = false;\n");
    if c.use_set_options() {
        to_string("if self.").concat(c.name.as_str()).concat(".is_set() {\n").concat(
            q.as_str(),
        ).concat("}\n")
    } else {
        q
    }
}

/// Writes the pieces of the given kind for all columns, each with the
/// literal at the same place in `lits`.
fn pieces(k: Piece, cols: &Vec<Column>, lits: &Vec<String>) -> (res: String)
    requires
        lits@.len() == cols@.len(),
    ensures
        res@ == spec_pieces(k, spec_named_columns(columns_view(cols@), strings_view(lits@))),
{
    let ghost ps = spec_named_columns(columns_view(cols@), strings_view(lits@));
    let mut out = String::new();
    let mut i: usize = 0;
    while i < cols.len()
        invariant
            i <= cols@.len(),
            lits@.len() == cols@.len(),
            ps == spec_named_columns(columns_view(cols@), strings_view(lits@)),
            out@ == spec_pieces(k, ps.take(i as int)),
        decreases cols.len() - i,
    {
        let c = &cols[i];
        let lit = lits[i].as_str();
        let p = match k {
            Piece::InsertName => insert_name(c, lit),
            Piece::InsertValue => insert_value(c),
            Piece::UpdateAssignment => update_assignment(c, lit),
        };
        out.append(p.as_str());
        proof {
            let t = ps.take(i as int + 1);
            assert(t.drop_last() =~= ps.take(i as int));
            assert(t.last() == ps[i as int]);
            assert(ps[i as int] == (c@, lit@));
        }
        i = i + 1;
    }
    assert(ps.take(cols@.len() as int) =~= ps);
    out
}

/// What `create` returns: the key when there is one, else the whole row;
/// MySQL, which has no `RETURNING`, needs the key.
pub open spec fn spec_create_return(a: AttrView) -> Result<ReturnTypeView, MacroErrorView> {
    match a.primary_key {
        Some(pk) => Ok(ReturnTypeView::PrimaryKey(pk)),
        None => if a.db_type == DbType::MySQL {
            Err(MacroErrorView::MySqlCreateWithoutPrimaryKey)
        } else {
            Ok(ReturnTypeView::EntireRow(a.parsed_struct.return_object))
        },
    }
}

/// `create(&self, db)`: inserts the row and returns its key or the row.
pub open spec fn spec_create_fn(a: AttrView, rt: ReturnTypeView, l: LiteralsView) -> Seq<char> {
    let cs = spec_named_columns(a.columns, l.columns);
    spec_header("pub async fn create<'e, E>(&self, db: E) -> "@, rt, a.db_type)
        + "let mut fields_str = Vec::new();\n"@ + spec_pieces(Piece::InsertName, cs)
        + "\nlet mut qb = ::sqlx::QueryBuilder::new(\"INSERT INTO \");\nqb.push("@ + l.table
        + ");\nqb.push(\" (\");\nqb.push(fields_str.join(\", \"));\nqb.push(\") VALUES (\");\n\nlet mut separated = qb.separated(\", \");\n"@
        + spec_pieces(Piece::InsertValue, cs) + "separated.push_unseparated(\")\");\n\n"@
        + spec_returning_statement(rt, a.db_type, l.key) + "\n"@ + spec_query_builder_execution(
        rt,
        a.db_type,
    ) + "}\n"@
}

/// `create`, or why the struct cannot have it.
pub open spec fn spec_create(a: AttrView, l: LiteralsView) -> Result<Seq<char>, MacroErrorView> {
    match spec_create_return(a) {
        Err(e) => Err(e),
        Ok(rt) => Ok(spec_create_fn(a, rt, l)),
    }
}

/// Writes `create` with the given literals.
pub fn create_fn_with(attr: &Attr, lits: &Literals) -> (res: Result<String, MacroError>)
    requires
        lits@.columns.len() == attr@.columns.len(),
    ensures
        text_match(spec_create(attr@, lits@), res),
{
    let rt = match &attr.primary_key {
        Some(pk) => ReturnType::PrimaryKey(pk.clone()),
        None => {
            if attr.db_type == DbType::MySQL {
                return Err(MacroError::MySqlCreateWithoutPrimaryKey);
            }
            ReturnType::EntireRow(attr.parsed_struct.return_object.clone())
        },
    };
    let h = header("pub async fn create<'e, E>(&self, db: E) -> ", &rt, attr.db_type);
    let names = pieces(Piece::InsertName, &attr.columns, &lits.columns);
    let values = pieces(Piece::InsertValue, &attr.columns, &lits.columns);
    let r = returning_text(&rt, attr.db_type, lits.key.as_str());
    let e = rt.query_builder_execution(attr.db_type);
    Ok(
        h.concat("let mut fields_str = Vec::new();\n").concat(names.as_str()).concat(
            "\nlet mut qb = ::sqlx::QueryBuilder::new(\"INSERT INTO \");\nqb.push(",
        ).concat(lits.table.as_str()).concat(
            ");\nqb.push(\" (\");\nqb.push(fields_str.join(\", \"));\nqb.push(\") VALUES (\");\n\nlet mut separated = qb.separated(\", \");\n",
        ).concat(values.as_str()).concat("separated.push_unseparated(\")\");\n\n").concat(
            r.as_str(),
        ).concat("\n").concat(e.as_str()).concat("}\n"),
    )
}

/// Generates `create`. A MySQL struct without a primary key is answered
/// with `MySqlCreateWithoutPrimaryKey` (MySQL has no `RETURNING`, so
/// `create` needs the key), which the derive's entry point turns into a
/// compile error; nothing here panics.
pub fn create_fn(attr: &Attr) -> (res: Result<String, MacroError>)
    ensures
        exists|l: LiteralsView| #[trigger] lits_ok(attr@, l) && text_match(spec_create(attr@, l), res),
        spec_names_plain(attr@) ==> text_match(spec_create(attr@, spec_plain_literals(attr@)), res),
{
    let lits = literals(attr);
    let res = create_fn_with(attr, &lits);
    proof {
        if spec_names_plain(attr@) {
            lemma_plain_literals(attr@, lits@);
        }
    }
    res
}

/// What `update` returns: nothing on MySQL or when the struct is the row
/// itself, else the updated row.
pub open spec fn spec_update_return(a: AttrView) -> ReturnTypeView {
    if a.db_type == DbType::MySQL || a.parsed_struct.return_object == "Self"@ {
        ReturnTypeView::Unit
    } else {
        ReturnTypeView::EntireRow(a.parsed_struct.return_object)
    }
}

/// `update(&self, db)`: writes the row's columns to the row with its key.
pub open spec fn spec_update_fn(a: AttrView, pk: ColumnView, l: LiteralsView) -> Seq<char> {
    let rt = spec_update_return(a);
    spec_header("pub async fn update<'e, E>(&self, db: E) -> "@, rt, a.db_type)
        + "let mut qb = ::sqlx::QueryBuilder::new(\"UPDATE \");\nqb.push("@ + l.table
        + ");\nqb.push(\" SET \");\n\nlet mut first = true;\n"@ + spec_pieces(
        Piece::UpdateAssignment,
        spec_named_columns(a.columns, l.columns),
    ) + "\n"@ + spec_where_statement(a.soft_deletion) + spec_key_condition(
        l.key,
        "&self."@ + pk.name,
    ) + spec_returning_statement(rt, a.db_type, l.key) + "\n"@ + spec_query_builder_execution(
        rt,
        a.db_type,
    ) + "}\n"@
}

/// `update`, or why the struct cannot have it: it needs a primary key.
pub open spec fn spec_update(a: AttrView, l: LiteralsView) -> Result<Seq<char>, MacroErrorView> {
    match a.primary_key {
        None => Err(MacroErrorView::MissingPrimaryKey),
        Some(pk) => Ok(spec_update_fn(a, pk, l)),
    }
}

/// Writes `update` with the given literals.
pub fn update_fn_with(attr: &Attr, lits: &Literals) -> (res: Result<String, MacroError>)
    requires
        lits@.columns.len() == attr@.columns.len(),
    ensures
        text_match(spec_update(attr@, lits@), res),
{
    let pk = match &attr.primary_key {
        Some(pk) => pk,
        None => return Err(MacroError::MissingPrimaryKey),
    };
    let rt = if attr.db_type == DbType::MySQL || str_eq(
        attr.parsed_struct.return_object.as_str(),
        "Self",
    ) {
        ReturnType::Unit
    } else {
        ReturnType::EntireRow(attr.parsed_struct.return_object.clone())
    };
    let h = header("pub async fn update<'e, E>(&self, db: E) -> ", &rt, attr.db_type);
    let sets = pieces(Piece::UpdateAssignment, &attr.columns, &lits.columns);
    let w = where_statement(attr.soft_deletion);
    let bound = to_string("&self.").concat(pk.name.as_str());
    let k = key_condition(lits.key.as_str(), bound.as_str());
    let r = returning_text(&rt, attr.db_type, lits.key.as_str());
    let e = rt.query_builder_execution(attr.db_type);
    Ok(
        h.concat("let mut qb = ::sqlx::QueryBuilder::new(\"UPDATE \");\nqb.push(").concat(
            lits.table.as_str(),
        ).concat(");\nqb.push(\" SET \");\n\nlet mut first = true;\n").concat(sets.as_str()).concat(
            "\n",
        ).concat(w.as_str()).concat(k.as_str()).concat(r.as_str()).concat("\n").concat(
            e.as_str(),
        ).concat("}\n"),
    )
}

/// Generates `update`; the struct needs a primary key.
pub fn update_fn(attr: &Attr) -> (res: Result<String, MacroError>)
    ensures
        exists|l: LiteralsView| #[trigger] lits_ok(attr@, l) && text_match(spec_update(attr@, l), res),
        spec_names_plain(attr@) ==> text_match(spec_update(attr@, spec_plain_literals(attr@)), res),
{
    let lits = literals(attr);
    let res = update_fn_with(attr, &lits);
    proof {
        if spec_names_plain(attr@) {
            lemma_plain_literals(attr@, lits@);
        }
    }
    res
}

/// The statement that removes a row of the table named by the literal
/// `table`: `DELETE`, or with soft deletion an `UPDATE` that stamps
/// `deleted_at` with the database's current time.
pub open spec fn spec_delete_statement(table: Seq<char>, soft_deletion: bool, db: DbType) -> Seq<
    char,
> {
    if soft_deletion {
        "let mut qb = ::sqlx::QueryBuilder::new(\"UPDATE \");\nqb.push("@ + table + ");\n"@
            + match db {
            DbType::Postgres => "qb.push(\" SET deleted_at = NOW() \");\n"@,
            DbType::MySQL => "qb.push(\" SET deleted_at = CURRENT_TIMESTAMP \");\n"@,
            DbType::Sqlite => "qb.push(\" SET deleted_at = DATETIME('now') \");\n"@,
        }
    } else {
        "let mut qb = ::sqlx::QueryBuilder::new(\"DELETE FROM \");\nqb.push("@ + table + ");\n"@
    }
}

/// `delete(&self, db)`: removes the row with the struct's key.
pub open spec fn spec_delete_fn(a: AttrView, pk: ColumnView, l: LiteralsView) -> Seq<char> {
    spec_header("pub async fn delete<'e, E>(&self, db: E) -> "@, ReturnTypeView::Unit, a.db_type)
        + spec_delete_statement(l.table, a.soft_deletion, a.db_type) + spec_where_statement(
        a.soft_deletion,
    ) + spec_key_condition(l.key, "&self."@ + pk.name) + spec_query_builder_execution(
        ReturnTypeView::Unit,
        a.db_type,
    ) + "}\n"@
}

/// `delete`, or why the struct cannot have it: it needs a primary key.
pub open spec fn spec_delete(a: AttrView, l: LiteralsView) -> Result<Seq<char>, MacroErrorView> {
    match a.primary_key {
        None => Err(MacroErrorView::MissingPrimaryKey),
        Some(pk) => Ok(spec_delete_fn(a, pk, l)),
    }
}

/// Writes `delete` with the given literals.
pub fn delete_fn_with(attr: &Attr, lits: &Literals) -> (res: Result<String, MacroError>)
    ensures
        text_match(spec_delete(attr@, lits@), res),
{
    let pk = match &attr.primary_key {
        Some(pk) => pk,
        None => return Err(MacroError::MissingPrimaryKey),
    };
    let rt = ReturnType::Unit;
    let h = header("pub async fn delete<'e, E>(&self, db: E) -> ", &rt, attr.db_type);
    let stmt = if attr.soft_deletion {
        let stamp = match attr.db_type {
            DbType::Postgres => "qb.push(\" SET deleted_at = NOW() \");\n",
            DbType::MySQL => "qb.push(\" SET deleted_at = CURRENT_TIMESTAMP \");\n",
            DbType::Sqlite => "qb.push(\" SET deleted_at = DATETIME('now') \");\n",
        };
        to_string("let mut qb = ::sqlx::QueryBuilder::new(\"UPDATE \");\nqb.push(").concat(
            lits.table.as_str(),
        ).concat(");\n").concat(stamp)
    } else {
        to_string("let mut qb = ::sqlx::QueryBuilder::new(\"DELETE FROM \");\nqb.push(").concat(
            lits.table.as_str(),
        ).concat(");\n")
    };
    let w = where_statement(attr.soft_deletion);
    let bound = to_string("&self.").concat(pk.name.as_str());
    let k = key_condition(lits.key.as_str(), bound.as_str());
    let e = rt.query_builder_execution(attr.db_type);
    Ok(h.concat(stmt.as_str()).concat(w.as_str()).concat(k.as_str()).concat(e.as_str()).concat("}\n"))
}

/// Generates `delete`; the struct needs a primary key.
pub fn delete_fn(attr: &Attr) -> (res: Result<String, MacroError>)
    ensures
        exists|l: LiteralsView| #[trigger] lits_ok(attr@, l) && text_match(spec_delete(attr@, l), res),
        spec_names_plain(attr@) ==> text_match(spec_delete(attr@, spec_plain_literals(attr@)), res),
{
    let lits = literals(attr);
    let res = delete_fn_with(attr, &lits);
    proof {
        if spec_names_plain(attr@) {
            lemma_plain_literals(attr@, lits@);
        }
    }
    res
}

/// A method's text when the operations hold `op`, else nothing.
pub open spec fn spec_section(a: AttrView, op: Operation, r: Result<Seq<char>, MacroErrorView>) -> Result<
    Seq<char>,
    MacroErrorView,
> {
    if a.operations.contains(op) {
        r
    } else {
        Ok(Seq::empty())
    }
}

/// `table_name()` for a row struct.
pub open spec fn spec_table_section(a: AttrView, l: LiteralsView) -> Seq<char> {
    if a.parsed_struct.struct_type == StructType::Generic {
        spec_table_name_fn(l.table)
    } else {
        Seq::empty()
    }
}

/// `list_all` when the operations hold `list`.
pub open spec fn spec_list_section(a: AttrView, l: LiteralsView) -> Seq<char> {
    if a.operations.contains(Operation::List) {
        spec_list_all_fn(a, l)
    } else {
        Seq::empty()
    }
}

/// The `impl` block with the asked-for methods, in the order `table_name`,
/// `get_by_id`, `list_all`, `create`, `update`, `delete`; or the first
/// method's reason to refuse the struct.
pub open spec fn spec_generate_impl(a: AttrView, l: LiteralsView) -> Result<Seq<char>, MacroErrorView> {
    match spec_section(a, Operation::Get, spec_get_by_id(a, l)) {
        Err(e) => Err(e),
        Ok(g) => match spec_section(a, Operation::Create, spec_create(a, l)) {
            Err(e) => Err(e),
            Ok(c) => match spec_section(a, Operation::Update, spec_update(a, l)) {
                Err(e) => Err(e),
                Ok(u) => match spec_section(a, Operation::Delete, spec_delete(a, l)) {
                    Err(e) => Err(e),
                    Ok(d) => Ok(
                        "impl "@ + a.parsed_struct.name + " {\n"@ + spec_table_section(a, l) + g
                            + spec_list_section(a, l) + c + u + d + "}\n"@,
                    ),
                },
            },
        },
    }
}

/// Writes the `impl` block of the struct with the given literals.
pub fn generate_impl_with(attr: &Attr, lits: &Literals) -> (res: Result<String, MacroError>)
    requires
        lits@.columns.len() == attr@.columns.len(),
    ensures
        text_match(spec_generate_impl(attr@, lits@), res),
{
    let ops = &attr.operations;
    let table_fn = if attr.parsed_struct.struct_type == StructType::Generic {
        get_table_name_with(lits)
    } else {
        String::new()
    };
    let get_impl = if contains_operation(ops, Operation::Get) {
        match get_by_id_fn_with(attr, lits) {
            Ok(s) => s,
            Err(e) => return Err(e),
        }
    } else {
        String::new()
    };
    let list_impl = if contains_operation(ops, Operation::List) {
        list_all_fn_with(attr, lits)
    } else {
        String::new()
    };
    let create_impl = if contains_operation(ops, Operation::Create) {
        match create_fn_with(attr, lits) {
            Ok(s) => s,
            Err(e) => return Err(e),
        }
    } else {
        String::new()
    };
    let update_impl = if contains_operation(ops, Operation::Update) {
        match update_fn_with(attr, lits) {
            Ok(s) => s,
            Err(e) => return Err(e),
        }
    } else {
        String::new()
    };
    let delete_impl = if contains_operation(ops, Operation::Delete) {
        match delete_fn_with(attr, lits) {
            Ok(s) => s,
            Err(e) => return Err(e),
        }
    } else {
        String::new()
    };
    Ok(
        to_string("impl ").concat(attr.parsed_struct.name.as_str()).concat(" {\n").concat(
            table_fn.as_str(),
        ).concat(get_impl.as_str()).concat(list_impl.as_str()).concat(create_impl.as_str()).concat(
            update_impl.as_str(),
        ).concat(delete_impl.as_str()).concat("}\n"),
    )
}

/// Generates the `impl` block of the struct.
pub fn generate_impl(attr: &Attr) -> (res: Result<String, MacroError>)
    ensures
        exists|l: LiteralsView| #[trigger] lits_ok(attr@, l) && text_match(spec_generate_impl(attr@, l), res),
        spec_names_plain(attr@) ==> text_match(spec_generate_impl(attr@, spec_plain_literals(attr@)), res),
{
    let lits = literals(attr);
    let res = generate_impl_with(attr, &lits);
    proof {
        if spec_names_plain(attr@) {
            lemma_plain_literals(attr@, lits@);
        }
    }
    res
}

/// Whether a piece of the given kind writes anything for a column.
pub open spec fn spec_writes(k: Piece, c: ColumnView) -> bool {
    match k {
        Piece::InsertName | Piece::InsertValue => !c.auto_increment,
        Piece::UpdateAssignment => !c.auto_increment && !c.primary_key,
    }
}

/// `create` never names nor binds a column that the database fills, and
/// `update` never assigns the key nor such a column: the pieces of the
/// columns are those of the columns that are written, whatever their
/// literals.
pub proof fn law_only_written_columns(k: Piece, ps: Seq<(ColumnView, Seq<char>)>)
    ensures
        spec_pieces(k, ps) == spec_pieces(
            k,
            ps.filter(|p: (ColumnView, Seq<char>)| spec_writes(k, p.0)),
        ),
    decreases ps.len(),
{
    reveal_with_fuel(Seq::<_>::filter, 1);
    if ps.len() > 0 {
        law_only_written_columns(k, ps.drop_last());
        let f = ps.filter(|p: (ColumnView, Seq<char>)| spec_writes(k, p.0));
        let g = ps.drop_last().filter(|p: (ColumnView, Seq<char>)| spec_writes(k, p.0));
        if spec_writes(k, ps.last().0) {
            assert(f.drop_last() =~= g);
        } else {
            assert(spec_piece(k, ps.last()) =~= Seq::<char>::empty());
            assert(spec_pieces(k, ps) =~= spec_pieces(k, ps.drop_last()));
        }
    }
}

/// A field left `NotSet` is skipped by the writes: in `create` a column is
/// named exactly when a value is bound for it, a `SetOption` column on the
/// one condition that it is set; in `update` a `SetOption` column is
/// assigned only when it is set. This holds whatever the literal of the
/// column's name.
pub proof fn law_not_set_fields_are_skipped(c: ColumnView, lit: Seq<char>)
    ensures
        (spec_insert_name(c, lit).len() == 0) == (spec_insert_value(c).len() == 0),
        (spec_insert_name(c, lit).len() == 0) == c.auto_increment,
        !c.auto_increment && spec_uses_set_option(c.ty) ==> {
            &&& spec_insert_name(c, lit) == "if self."@ + c.name + ".is_set() {\nfields_str.push("@
                + lit + ");\n}\n"@
            &&& spec_insert_value(c) == "if let SetOption::Set(v) = &self."@ + c.name
                + " {\nseparated.push_bind(v);\n}\n"@
        },
        !c.auto_increment && !c.primary_key && spec_uses_set_option(c.ty) ==> has_prefix(
            spec_update_assignment(c, lit),
            "if self."@ + c.name + ".is_set() {\n"@,
        ),
{
    reveal_strlit("if self.");
    reveal_strlit("fields_str.push(");
    reveal_strlit("if let SetOption::Set(v) = &self.");
    reveal_strlit("separated.push_bind(&self.");
    if !c.auto_increment && !c.primary_key && spec_uses_set_option(c.ty) {
        let p = "if self."@ + c.name + ".is_set() {\n"@;
        let q = "if !first {\nqb.push(\", \");\n}\nqb.push("@ + lit
            + ");\nqb.push(\" = \");\nqb.push_bind(&self."@ + c.name + ");\nfirst = false;\n"@;
        assert(spec_update_assignment(c, lit) == p + q + "}\n"@);
        assert((p + q + "}\n"@).take(p.len() as int) =~= p);
    }
}


/// `t` stands somewhere in `s`, as a run of consecutive characters.
pub open spec fn has_text(s: Seq<char>, t: Seq<char>) -> bool {
    exists|i: int| 0 <= i && i + t.len() <= s.len() && #[trigger] s.subrange(i, i + t.len()) == t
}

/// A text between two others stands in their concatenation.
pub proof fn lemma_has_text(p: Seq<char>, t: Seq<char>, r: Seq<char>)
    ensures
        has_text(p + t + r, t),
{
    let s = p + t + r;
    assert(s.subrange(p.len() as int, (p.len() + t.len()) as int) =~= t);
}

/// A key is read back from the database wherever it can be: on a database
/// with `RETURNING` (Postgres, SQLite) the statement returns the key column
/// and the method reads it from the returned row; only on MySQL does it
/// take the insert id (a key the database fills) or the struct's own
/// field. So `create` on a struct with a key, on such a database, returns
/// the key that the database stored, not the value the struct held.
pub proof fn law_key_is_read_back(a: AttrView, pk: ColumnView, l: LiteralsView)
    ensures
        a.db_type != DbType::MySQL ==> spec_query_builder_execution(ReturnTypeView::PrimaryKey(pk), a.db_type)
            == "qb.build()\n.fetch_one(db)\n.await\n.map(|row| row.get(0))\n"@,
        a.db_type == DbType::MySQL && pk.auto_increment ==> spec_query_builder_execution(
            ReturnTypeView::PrimaryKey(pk),
            a.db_type,
        ) == "qb.build()\n.execute(db)\n.await\n.map(|result| result.last_insert_id() as _)\n"@,
        a.db_type == DbType::MySQL && !pk.auto_increment ==> spec_query_builder_execution(
            ReturnTypeView::PrimaryKey(pk),
            a.db_type,
        ) == "qb.build()\n.execute(db)\n.await?;\n\nOk(self."@ + pk.name + ".clone())\n"@,
        a.primary_key == Some(pk) && a.db_type != DbType::MySQL ==> (spec_create(a, l) matches Ok(s)
            && has_text(
            s,
            "qb.push(\" RETURNING \");\nqb.push("@ + l.key + ");\n"@ + "\n"@
                + "qb.build()\n.fetch_one(db)\n.await\n.map(|row| row.get(0))\n"@,
        )),
{
    if a.primary_key == Some(pk) && a.db_type != DbType::MySQL {
        let rt = ReturnTypeView::PrimaryKey(pk);
        let cs = spec_named_columns(a.columns, l.columns);
        let t = "qb.push(\" RETURNING \");\nqb.push("@ + l.key + ");\n"@ + "\n"@
            + "qb.build()\n.fetch_one(db)\n.await\n.map(|row| row.get(0))\n"@;
        let p = spec_header("pub async fn create<'e, E>(&self, db: E) -> "@, rt, a.db_type)
            + "let mut fields_str = Vec::new();\n"@ + spec_pieces(Piece::InsertName, cs)
            + "\nlet mut qb = ::sqlx::QueryBuilder::new(\"INSERT INTO \");\nqb.push("@ + l.table
            + ");\nqb.push(\" (\");\nqb.push(fields_str.join(\", \"));\nqb.push(\") VALUES (\");\n\nlet mut separated = qb.separated(\", \");\n"@
            + spec_pieces(Piece::InsertValue, cs) + "separated.push_unseparated(\")\");\n\n"@;
        assert(spec_create_fn(a, rt, l) =~= p + t + "}\n"@);
        lemma_has_text(p, t, "}\n"@);
    }
}

/// `update` gives back the updated row (read with `RETURNING *`) on every
/// database that has `RETURNING`, unless the struct is the row itself; it
/// gives back nothing on MySQL and for a struct that is the row.
pub proof fn law_update_returns_the_row(a: AttrView, pk: ColumnView, l: LiteralsView)
    ensures
        a.db_type != DbType::MySQL && a.parsed_struct.return_object != "Self"@ ==> {
            &&& has_text(
                spec_update_fn(a, pk, l),
                "::sqlx::Result<"@ + a.parsed_struct.return_object + ">"@,
            )
            &&& has_text(
                spec_update_fn(a, pk, l),
                "qb.push(\" RETURNING * \");\n"@ + "\n"@
                    + "qb.build_query_as()\n.fetch_one(db)\n.await\n"@,
            )
        },
        a.db_type == DbType::MySQL || a.parsed_struct.return_object == "Self"@ ==> {
            &&& has_text(spec_update_fn(a, pk, l), "::sqlx::Result<()>"@)
            &&& has_text(
                spec_update_fn(a, pk, l),
                "\n"@ + "qb.build()\n.execute(db)\n.await\n.map(|_| ())\n"@,
            )
        },
{
    let rt = spec_update_return(a);
    let head = "pub async fn update<'e, E>(&self, db: E) -> "@;
    let out = spec_function_output(rt);
    let mid = "\nwhere\n    E: ::sqlx::"@ + spec_executor_name(a.db_type) + "<'e>\n{\n"@
        + "let mut qb = ::sqlx::QueryBuilder::new(\"UPDATE \");\nqb.push("@ + l.table
        + ");\nqb.push(\" SET \");\n\nlet mut first = true;\n"@ + spec_pieces(
        Piece::UpdateAssignment,
        spec_named_columns(a.columns, l.columns),
    ) + "\n"@ + spec_where_statement(a.soft_deletion) + spec_key_condition(
        l.key,
        "&self."@ + pk.name,
    );
    let fin = spec_returning_statement(rt, a.db_type, l.key) + "\n"@
        + spec_query_builder_execution(rt, a.db_type);
    let s = spec_update_fn(a, pk, l);
    assert(s =~= head + out + (mid + fin + "}\n"@));
    lemma_has_text(head, out, mid + fin + "}\n"@);
    assert(s =~= head + out + mid + fin + "}\n"@);
    assert(fin == spec_returning_statement(rt, a.db_type, l.key) + ("\n"@
        + spec_query_builder_execution(rt, a.db_type)));
    if a.db_type != DbType::MySQL && a.parsed_struct.return_object != "Self"@ {
        let t = "qb.push(\" RETURNING * \");\n"@ + "\n"@ + "qb.build_query_as()\n.fetch_one(db)\n.await\n"@;
        assert(fin == t);
        lemma_has_text(head + out + mid, t, "}\n"@);
    } else {
        let t = "\n"@ + "qb.build()\n.execute(db)\n.await\n.map(|_| ())\n"@;
        assert(fin == Seq::<char>::empty() + t);
        assert(s =~= head + out + mid + t + "}\n"@);
        lemma_has_text(head + out + mid, t, "}\n"@);
    }
}

/// With soft deletion, on every database, `get_by_id` leaves out the
/// deleted rows: its `WHERE` clause asks for `deleted_at IS NULL` before it
/// compares the key with the given id.
pub proof fn law_get_by_id_skips_deleted_rows(a: AttrView, pk: ColumnView, l: LiteralsView)
    requires
        a.soft_deletion,
    ensures
        has_text(
            spec_get_by_id_fn(a, pk, l),
            "qb.push(\" WHERE deleted_at IS NULL AND \");\n"@ + ("qb.push("@ + l.key
                + ");\nqb.push(\" = \");\nqb.push_bind("@ + "id"@ + ");\n\n"@),
        ),
{
    let rt = ReturnTypeView::OptionalRow(a.parsed_struct.return_object);
    let p = spec_header("pub async fn get_by_id<'e, E>(db: E, id: &"@ + pk.ty + ") -> "@, rt, a.db_type)
        + "let mut qb = ::sqlx::QueryBuilder::new(\"SELECT * FROM \");\nqb.push("@ + l.table
        + ");\n"@;
    let t = "qb.push(\" WHERE deleted_at IS NULL AND \");\n"@ + ("qb.push("@ + l.key
        + ");\nqb.push(\" = \");\nqb.push_bind("@ + "id"@ + ");\n\n"@);
    let r = spec_query_builder_execution(rt, a.db_type) + "}\n"@;
    assert(spec_get_by_id_fn(a, pk, l) =~= p + t + r);
    lemma_has_text(p, t, r);
}

/// With soft deletion, on every database, `list_all` leaves out the deleted
/// rows: right after the table it asks for `deleted_at IS NULL`.
pub proof fn law_list_all_skips_deleted_rows(a: AttrView, l: LiteralsView)
    requires
        a.soft_deletion,
    ensures
        has_text(
            spec_list_all_fn(a, l),
            "qb.push("@ + l.table + ");\n"@ + "qb.push(\" WHERE deleted_at IS NULL \");\n"@,
        ),
{
    let rt = ReturnTypeView::MultipleRows(a.parsed_struct.return_object);
    let p = spec_header("pub async fn list_all<'e, E>(db: E) -> "@, rt, a.db_type)
        + "let mut qb = ::sqlx::QueryBuilder::new(\"SELECT * FROM \");\n"@;
    let t = "qb.push("@ + l.table + ");\n"@ + "qb.push(\" WHERE deleted_at IS NULL \");\n"@;
    let r = "\n"@ + spec_query_builder_execution(rt, a.db_type) + "}\n"@;
    reveal_strlit("let mut qb = ::sqlx::QueryBuilder::new(\"SELECT * FROM \");\nqb.push(");
    reveal_strlit("let mut qb = ::sqlx::QueryBuilder::new(\"SELECT * FROM \");\n");
    reveal_strlit("qb.push(");
    assert(spec_list_all_fn(a, l) =~= p + t + r);
    lemma_has_text(p, t, r);
}


/// With soft deletion, on every database, `update` only writes a row that
/// is not deleted: its `WHERE` clause asks for `deleted_at IS NULL` before
/// it compares the key with the struct's own.
pub proof fn law_update_skips_deleted_rows(a: AttrView, pk: ColumnView, l: LiteralsView)
    requires
        a.soft_deletion,
    ensures
        has_text(
            spec_update_fn(a, pk, l),
            "qb.push(\" WHERE deleted_at IS NULL AND \");\n"@ + ("qb.push("@ + l.key
                + ");\nqb.push(\" = \");\nqb.push_bind("@ + ("&self."@ + pk.name) + ");\n\n"@),
        ),
{
    let rt = spec_update_return(a);
    let p = spec_header("pub async fn update<'e, E>(&self, db: E) -> "@, rt, a.db_type)
        + "let mut qb = ::sqlx::QueryBuilder::new(\"UPDATE \");\nqb.push("@ + l.table
        + ");\nqb.push(\" SET \");\n\nlet mut first = true;\n"@ + spec_pieces(
        Piece::UpdateAssignment,
        spec_named_columns(a.columns, l.columns),
    ) + "\n"@;
    let t = "qb.push(\" WHERE deleted_at IS NULL AND \");\n"@ + ("qb.push("@ + l.key
        + ");\nqb.push(\" = \");\nqb.push_bind("@ + ("&self."@ + pk.name) + ");\n\n"@);
    let r = spec_returning_statement(rt, a.db_type, l.key) + "\n"@ + spec_query_builder_execution(
        rt,
        a.db_type,
    ) + "}\n"@;
    assert(spec_update_fn(a, pk, l) =~= p + t + r);
    lemma_has_text(p, t, r);
}

/// `delete` removes the row with a `DELETE` only without soft deletion;
/// with soft deletion, on every database, it is an `UPDATE` of the table
/// that leaves the row in place, limited to rows not deleted yet.
pub proof fn law_delete_is_soft_with_soft_deletion(a: AttrView, pk: ColumnView, l: LiteralsView)
    ensures
        !a.soft_deletion ==> has_text(
            spec_delete_fn(a, pk, l),
            "let mut qb = ::sqlx::QueryBuilder::new(\"DELETE FROM \");\nqb.push("@ + l.table + ");\n"@,
        ),
        a.soft_deletion ==> has_text(
            spec_delete_fn(a, pk, l),
            "let mut qb = ::sqlx::QueryBuilder::new(\"UPDATE \");\nqb.push("@ + l.table + ");\n"@,
        ),
        a.soft_deletion ==> has_text(
            spec_delete_fn(a, pk, l),
            "qb.push(\" WHERE deleted_at IS NULL AND \");\n"@ + ("qb.push("@ + l.key
                + ");\nqb.push(\" = \");\nqb.push_bind("@ + ("&self."@ + pk.name) + ");\n\n"@),
        ),
{
    let h = spec_header(
        "pub async fn delete<'e, E>(&self, db: E) -> "@,
        ReturnTypeView::Unit,
        a.db_type,
    );
    let w = spec_where_statement(a.soft_deletion) + spec_key_condition(l.key, "&self."@ + pk.name);
    let r = spec_query_builder_execution(ReturnTypeView::Unit, a.db_type) + "}\n"@;
    if a.soft_deletion {
        let t = "let mut qb = ::sqlx::QueryBuilder::new(\"UPDATE \");\nqb.push("@ + l.table + ");\n"@;
        let stamp = spec_delete_statement(l.table, true, a.db_type).skip(t.len() as int);
        assert(spec_delete_statement(l.table, true, a.db_type) =~= t + stamp);
        assert(spec_delete_fn(a, pk, l) =~= h + t + (stamp + w + r));
        lemma_has_text(h, t, stamp + w + r);
        let t2 = "qb.push(\" WHERE deleted_at IS NULL AND \");\n"@ + ("qb.push("@ + l.key
            + ");\nqb.push(\" = \");\nqb.push_bind("@ + ("&self."@ + pk.name) + ");\n\n"@);
        assert(spec_delete_fn(a, pk, l) =~= (h + t + stamp) + t2 + r);
        lemma_has_text(h + t + stamp, t2, r);
    } else {
        let t = "let mut qb = ::sqlx::QueryBuilder::new(\"DELETE FROM \");\nqb.push("@ + l.table + ");\n"@;
        assert(spec_delete_fn(a, pk, l) =~= h + t + (w + r));
        lemma_has_text(h, t, w + r);
    }
}

} // verus!
