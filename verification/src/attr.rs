//! Reading the `#[tiny_orm(...)]` attributes of a struct and of its fields.
use vstd::prelude::*;

use crate::database::{spec_db_type_named, DbType};
use crate::error::{MacroError, MacroErrorView};
use crate::text::{
    blank_trim, ident_outcome, is_ascii_ident, is_keyword, parse_ident, spec_split, spec_trim,
    split_commas, str_eq, to_string, trim,
};
use crate::types::{
    columns_view, opt_column_view, spec_all_operations, spec_default_operations,
    spec_operation_named, spec_parsed_struct, Column, ColumnView, Operation, ParsedStruct,
    ParsedStructView,
};

verus! {

/// Whether an operation is in a list.
pub fn contains_operation(ops: &Vec<Operation>, op: Operation) -> (res: bool)
    ensures
        res == ops@.contains(op),
{
    let mut i: usize = 0;
    while i < ops.len()
        invariant
            i <= ops@.len(),
            forall|k: int| 0 <= k < i ==> ops@[k] != op,
        decreases ops.len() - i,
    {
        if ops[i] == op {
            assert(ops@[i as int] == op);
            return true;
        }
        i = i + 1;
    }
    false
}

/// An operation is kept when the defaults or `add` hold it and `exclude`
/// does not.
pub open spec fn spec_keeps(
    op: Operation,
    default: Seq<Operation>,
    add: Seq<Operation>,
    exclude: Seq<Operation>,
) -> bool {
    (default.contains(op) || add.contains(op)) && !exclude.contains(op)
}

/// The kept operations, each once, in their declared order.
pub open spec fn spec_merged_operations(
    default: Seq<Operation>,
    add: Seq<Operation>,
    exclude: Seq<Operation>,
) -> Seq<Operation> {
    spec_all_operations().filter(|op: Operation| spec_keeps(op, default, add, exclude))
}

/// What `get_operations` gives for its four arguments: `only` cannot stand
/// with `exclude` or with `add`; `only` alone is taken as it is; nothing at
/// all gives the defaults; otherwise the defaults and `add` without
/// `exclude`.
pub open spec fn spec_get_operations(
    only: Option<Seq<Operation>>,
    exclude: Option<Seq<Operation>>,
    add: Option<Seq<Operation>>,
    default: Seq<Operation>,
) -> Result<Seq<Operation>, Seq<char>> {
    match (only, exclude, add) {
        (None, None, None) => Ok(default),
        (Some(_), Some(_), _) => Err("Only and Exclude are specified which is not allowed"@),
        (Some(_), None, Some(_)) => Err("Only and Add are specified which is not allowed"@),
        (Some(o), None, None) => Ok(o),
        (None, e, a) => Ok(
            spec_merged_operations(
                default,
                match a {
                    Some(x) => x,
                    None => Seq::empty(),
                },
                match e {
                    Some(x) => x,
                    None => Seq::empty(),
                },
            ),
        ),
    }
}

/// The views of optional lists of operations.
pub open spec fn opt_ops(o: Option<Vec<Operation>>) -> Option<Seq<Operation>> {
    match o {
        Some(v) => Some(v@),
        None => None,
    }
}

/// The view of the outcome of `get_operations`.
pub open spec fn ops_result(r: Result<Vec<Operation>, &'static str>) -> Result<
    Seq<Operation>,
    Seq<char>,
> {
    match r {
        Ok(v) => Ok(v@),
        Err(e) => Err(e@),
    }
}

/// The merged operations hold exactly the kept ones, each once.
pub proof fn law_merged_operations(
    default: Seq<Operation>,
    add: Seq<Operation>,
    exclude: Seq<Operation>,
)
    ensures
        forall|op: Operation|
            spec_merged_operations(default, add, exclude).contains(op) <==> spec_keeps(
                op,
                default,
                add,
                exclude,
            ),
        spec_merged_operations(default, add, exclude).no_duplicates(),
{
    let p = |op: Operation| spec_keeps(op, default, add, exclude);
    reveal_with_fuel(Seq::<_>::filter, 6);
    let all = spec_all_operations();
    let r = spec_merged_operations(default, add, exclude);
    assert(all.drop_last().drop_last().drop_last().drop_last().drop_last() =~= Seq::empty());
    assert forall|op: Operation| r.contains(op) <==> p(op) by {
        if p(op) {
            match op {
                Operation::Get => assert(all[0] == op),
                Operation::List => assert(all[1] == op),
                Operation::Create => assert(all[2] == op),
                Operation::Update => assert(all[3] == op),
                Operation::Delete => assert(all[4] == op),
            }
            all.lemma_filter_contains(p, match op {
                Operation::Get => 0,
                Operation::List => 1,
                Operation::Create => 2,
                Operation::Update => 3,
                Operation::Delete => 4,
            });
        }
        if r.contains(op) {
            let k = choose|k: int| 0 <= k < r.len() && r[k] == op;
            all.lemma_filter_pred(p, k);
        }
    }
    assert(r.no_duplicates()) by {
        let g0 = if p(Operation::Get) {
            seq![Operation::Get]
        } else {
            Seq::<Operation>::empty()
        };
        let g1 = if p(Operation::List) {
            g0.push(Operation::List)
        } else {
            g0
        };
        let g2 = if p(Operation::Create) {
            g1.push(Operation::Create)
        } else {
            g1
        };
        let g3 = if p(Operation::Update) {
            g2.push(Operation::Update)
        } else {
            g2
        };
        let g4 = if p(Operation::Delete) {
            g3.push(Operation::Delete)
        } else {
            g3
        };
        assert(r =~= g4);
    }
}

/// The parser of the derive's attributes.
pub struct Parser;

impl Parser {
    /// Chooses the operations to generate from the `only`, `exclude` and
    /// `add` arguments and the struct's default operations.
    pub fn get_operations(
        only: Option<Vec<Operation>>,
        exclude: Option<Vec<Operation>>,
        add: Option<Vec<Operation>>,
        default: Vec<Operation>,
    ) -> (res: Result<Vec<Operation>, &'static str>)
        ensures
            ops_result(res) == spec_get_operations(
                opt_ops(only),
                opt_ops(exclude),
                opt_ops(add),
                default@,
            ),
    {
        match (only, exclude, add) {
            (None, None, None) => Ok(default),
            (Some(_only), Some(_exclude), _) => Err(
                "Only and Exclude are specified which is not allowed",
            ),
            (Some(_only), None, Some(_add)) => Err("Only and Add are specified which is not allowed"),
            (Some(only_ops), None, None) => Ok(only_ops),
            (None, exclude_ops, add_ops) => {
                let excluded = match exclude_ops {
                    Some(x) => x,
                    None => Vec::new(),
                };
                let added = match add_ops {
                    Some(x) => x,
                    None => Vec::new(),
                };
                let mut res: Vec<Operation> = Vec::new();
                let all = Operation::all();
                let mut i: usize = 0;
                while i < all.len()
                    invariant
                        all@ == spec_all_operations(),
                        i <= all@.len(),
                        res@ == all@.take(i as int).filter(
                            |op: Operation| spec_keeps(op, default@, added@, excluded@),
                        ),
                    decreases all.len() - i,
                {
                    let op = all[i];
                    let in_default = contains_operation(&default, op);
                    let in_added = contains_operation(&added, op);
                    let in_excluded = contains_operation(&excluded, op);
                    let keep = (in_default || in_added) && !in_excluded;
                    assert(keep == spec_keeps(op, default@, added@, excluded@));
                    if keep {
                        res.push(op);
                    }
                    proof {
                        reveal_with_fuel(Seq::<_>::filter, 1);
                        let t = all@.take(i as int + 1);
                        assert(t.drop_last() =~= all@.take(i as int));
                        assert(t.last() == op);
                    }
                    i = i + 1;
                }
                assert(all@.take(all@.len() as int) =~= all@);
                Ok(res)
            },
        }
    }
}

/// A named field of the struct, as the derive reads it.
#[derive(Debug, Clone, PartialEq, Eq)]
pub struct FieldInput {
    /// The field's identifier.
    pub name: String,
    /// The field's visibility as written, empty when it has none.
    pub vis: String,
    /// The field type's text.
    pub ty: String,
    /// The field carries `#[tiny_orm(primary_key)]`.
    pub primary_key: bool,
    /// The marker is `#[tiny_orm(primary_key(auto))]`: the database fills it.
    pub auto_increment: bool,
}

/// The primary key and the columns found in a prefix of the fields.
pub struct FieldsView {
    pub primary_key: Option<ColumnView>,
    pub columns: Seq<ColumnView>,
}

/// One field read after the ones before it. A marked field becomes the
/// primary key (the last marked field wins); a field named `id` becomes it
/// when no key has been found yet, counting the field's own marker.
pub open spec fn spec_field_step(st: FieldsView, f: FieldInput) -> FieldsView {
    let marked = ColumnView {
        name: f.name@,
        vis: f.vis@,
        ty: f.ty@,
        primary_key: f.primary_key,
        auto_increment: f.primary_key && f.auto_increment,
    };
    let pk = if f.primary_key {
        Some(marked)
    } else {
        st.primary_key
    };
    if f.name@ == "id"@ && pk is None {
        let c = ColumnView { primary_key: true, ..marked };
        FieldsView { primary_key: Some(c), columns: st.columns.push(c) }
    } else {
        FieldsView { primary_key: pk, columns: st.columns.push(marked) }
    }
}

/// The primary key and the columns of a list of fields.
pub open spec fn spec_fields(fields: Seq<FieldInput>) -> FieldsView
    decreases fields.len(),
{
    if fields.len() == 0 {
        FieldsView { primary_key: None, columns: Seq::empty() }
    } else {
        spec_field_step(spec_fields(fields.drop_last()), fields.last())
    }
}

/// Each field gives one column, in order, with its own name, visibility
/// and type.
pub proof fn law_one_column_per_field(fields: Seq<FieldInput>)
    ensures
        spec_fields(fields).columns.len() == fields.len(),
        forall|i: int|
            0 <= i < fields.len() ==> {
                let c = #[trigger] spec_fields(fields).columns[i];
                c.name == fields[i].name@ && c.vis == fields[i].vis@ && c.ty == fields[i].ty@
            },
    decreases fields.len(),
{
    if fields.len() > 0 {
        law_one_column_per_field(fields.drop_last());
        assert forall|i: int| 0 <= i < fields.len() implies {
            let c = #[trigger] spec_fields(fields).columns[i];
            c.name == fields[i].name@ && c.vis == fields[i].vis@ && c.ty == fields[i].ty@
        } by {
            if i < fields.len() - 1 {
                assert(fields.drop_last()[i] == fields[i]);
            }
        }
    }
}

/// An explicit `primary_key` marker wins over a field named `id`, wherever
/// the two stand: with a marked field, the key is the last marked field.
pub proof fn law_marker_wins_over_id(fields: Seq<FieldInput>, k: int)
    requires
        0 <= k < fields.len(),
        fields[k].primary_key,
        forall|j: int| k < j < fields.len() ==> !(#[trigger] fields[j]).primary_key,
    ensures
        spec_fields(fields).primary_key matches Some(c) && c.name == fields[k].name@ && c.primary_key
            && c.ty == fields[k].ty@,
    decreases fields.len(),
{
    if k < fields.len() - 1 {
        law_marker_wins_over_id(fields.drop_last(), k);
        assert(!fields.last().primary_key);
    }
}

/// Without any `primary_key` marker and without a field named `id`, no key
/// is found.
proof fn lemma_no_key_without_marker_or_id(fields: Seq<FieldInput>)
    requires
        forall|j: int| 0 <= j < fields.len() ==> !(#[trigger] fields[j]).primary_key && fields[j].name@
            != "id"@,
    ensures
        spec_fields(fields).primary_key is None,
    decreases fields.len(),
{
    if fields.len() > 0 {
        lemma_no_key_without_marker_or_id(fields.drop_last());
        assert(!fields.last().primary_key && fields.last().name@ != "id"@);
    }
}

/// When no field carries a `primary_key` marker, the field named `id` is
/// the primary key, wherever it stands among the fields: the key is a
/// column named `id`, with that field's type, flagged as key, and the
/// field's own column is flagged as key too.
pub proof fn law_id_is_the_default_key(fields: Seq<FieldInput>, k: int)
    requires
        0 <= k < fields.len(),
        fields[k].name@ == "id"@,
        forall|j: int| 0 <= j < fields.len() ==> !(#[trigger] fields[j]).primary_key,
        forall|j: int| 0 <= j < k ==> (#[trigger] fields[j]).name@ != "id"@,
    ensures
        spec_fields(fields).primary_key matches Some(c) && c.name == "id"@ && c.primary_key && c.ty
            == fields[k].ty@,
        spec_fields(fields).columns[k].primary_key,
    decreases fields.len(),
{
    if k < fields.len() - 1 {
        law_id_is_the_default_key(fields.drop_last(), k);
        law_one_column_per_field(fields.drop_last());
        assert(!fields.last().primary_key);
        assert(spec_fields(fields).columns[k] == spec_fields(fields.drop_last()).columns[k]);
    } else {
        let pre = fields.drop_last();
        assert forall|j: int| 0 <= j < pre.len() implies !(#[trigger] pre[j]).primary_key
            && pre[j].name@ != "id"@ by {
            assert(pre[j] == fields[j]);
        }
        lemma_no_key_without_marker_or_id(pre);
        law_one_column_per_field(pre);
    }
}

impl Parser {
    /// Reads the struct's fields: the primary key (if any) and the columns,
    /// one per field, in order.
    pub fn parse_fields_macro_arguments(fields: &Vec<FieldInput>) -> (res: (
        Option<Column>,
        Vec<Column>,
    ))
        ensures
            opt_column_view(res.0) == spec_fields(fields@).primary_key,
            columns_view(res.1@) == spec_fields(fields@).columns,
    {
        let mut primary_key: Option<Column> = None;
        let mut columns: Vec<Column> = Vec::new();
        let mut i: usize = 0;
        while i < fields.len()
            invariant
                i <= fields@.len(),
                opt_column_view(primary_key) == spec_fields(fields@.take(i as int)).primary_key,
                columns_view(columns@) == spec_fields(fields@.take(i as int)).columns,
            decreases fields.len() - i,
        {
            let field = &fields[i];
            let mut column = Column::new(field.name.as_str(), field.vis.as_str(), field.ty.as_str());
            if field.primary_key {
                column.set_primary_key();
                if field.auto_increment {
                    column.set_auto_increment();
                }
                primary_key = Some(column.clone());
            }
            if str_eq(column.name.as_str(), "id") && primary_key.is_none() {
                column.set_primary_key();
                primary_key = Some(column.clone());
            }
            let ghost before = columns@;
            columns.push(column);
            proof {
                let t = fields@.take(i as int + 1);
                assert(t.drop_last() =~= fields@.take(i as int));
                assert(t.last() == fields@[i as int]);
                assert(columns_view(columns@) =~= columns_view(before).push(column@));
            }
            i = i + 1;
        }
        assert(fields@.take(fields@.len() as int) =~= fields@);
        (primary_key, columns)
    }
}

/// One argument inside `#[tiny_orm(...)]`.
#[derive(Debug, Clone, PartialEq, Eq)]
pub enum MacroArg {
    /// `name = value`. `path` is the name when it is one identifier, `text`
    /// the value's tokens as text, `str_value` the value when it is a string
    /// literal.
    NameValue { path: Option<String>, text: String, str_value: Option<String> },
    /// A bare name, as `all` or `soft_deletion`; `path` as above.
    Path { path: Option<String> },
    /// `name(...)`, or the same in brackets or braces; `first` is the first
    /// token inside when that token is an identifier.
    List { path: Option<String>, first: Option<String> },
}

/// Whether an argument's path is the single identifier `name`.
pub open spec fn is_named(path: Option<String>, name: Seq<char>) -> bool {
    path matches Some(p) && p@ == name
}

/// The operations of a comma-separated list, each piece trimmed; the first
/// piece that names no operation, untrimmed, is the error.
pub open spec fn spec_operation_list(pieces: Seq<Seq<char>>) -> Result<Seq<Operation>, Seq<char>>
    decreases pieces.len(),
{
    if pieces.len() == 0 {
        Ok(Seq::empty())
    } else {
        match spec_operation_list(pieces.drop_last()) {
            Err(e) => Err(e),
            Ok(ops) => match spec_operation_named(spec_trim(pieces.last())) {
                Some(op) => Ok(ops.push(op)),
                None => Err(pieces.last()),
            },
        }
    }
}

/// Reads a list such as `"create, get"` into operations, or gives back the
/// first piece that names no operation.
pub fn parse_operation_list(text: &str) -> (res: Result<Vec<Operation>, String>)
    ensures
        match spec_operation_list(spec_split(text@)) {
            Ok(ops) => res matches Ok(v) && v@ == ops,
            Err(p) => res matches Err(s) && s@ == p,
        },
{
    let pieces = split_commas(text);
    let ghost all = spec_split(text@);
    let mut ops: Vec<Operation> = Vec::new();
    let mut i: usize = 0;
    while i < pieces.len()
        invariant
            all == spec_split(text@),
            pieces@.len() == all.len(),
            forall|k: int| 0 <= k < pieces@.len() ==> #[trigger] pieces@[k]@ == all[k],
            i <= pieces@.len(),
            spec_operation_list(all.take(i as int)) == Ok::<Seq<Operation>, Seq<char>>(ops@),
        decreases pieces.len() - i,
    {
        let piece = &pieces[i];
        let trimmed = trim(piece.as_str());
        proof {
            let t = all.take(i as int + 1);
            assert(t.drop_last() =~= all.take(i as int));
            assert(t.last() == pieces@[i as int]@);
        }
        match Operation::from_name(trimmed.as_str()) {
            Some(op) => {
                ops.push(op);
            },
            None => {
                let res = piece.clone();
                proof {
                    let t = all.take(i as int + 1);
                    assert(t.last() == piece@);
                    assert(spec_operation_named(spec_trim(t.last())) is None);
                    assert(spec_operation_list(t) == Err::<Seq<Operation>, Seq<char>>(piece@));
                    lemma_operation_list_error(all, i as int + 1);
                }
                return Err(res);
            },
        }
        i = i + 1;
    }
    assert(all.take(all.len() as int) =~= all);
    Ok(ops)
}

/// An error in a prefix of the pieces is the error of the whole list.
proof fn lemma_operation_list_error(pieces: Seq<Seq<char>>, i: int)
    requires
        0 <= i <= pieces.len(),
        spec_operation_list(pieces.take(i)) is Err,
    ensures
        spec_operation_list(pieces) == spec_operation_list(pieces.take(i)),
    decreases pieces.len() - i,
{
    if i < pieces.len() {
        assert(pieces.take(i + 1).drop_last() =~= pieces.take(i));
        lemma_operation_list_error(pieces, i + 1);
    } else {
        assert(pieces.take(i) =~= pieces);
    }
}

/// The settings read from the struct's arguments so far.
pub struct ArgsView {
    pub only: Option<Seq<Operation>>,
    pub exclude: Option<Seq<Operation>>,
    pub add: Option<Seq<Operation>>,
    pub return_object: Option<Seq<char>>,
    pub table_name: Option<Seq<char>>,
    pub db_type: Option<DbType>,
    pub soft_deletion: bool,
}

/// A list argument (`only`, `exclude`, `add`): a string value is read as a
/// list of operations, and may be given once; any other value is ignored.
pub open spec fn spec_list_arg(
    current: Option<Seq<Operation>>,
    str_value: Option<String>,
    twice: MacroErrorView,
) -> Result<Option<Seq<Operation>>, MacroErrorView> {
    match str_value {
        None => Ok(current),
        Some(v) => if current is Some {
            Err(twice)
        } else {
            match spec_operation_list(spec_split(v@)) {
                Ok(ops) => Ok(Some(ops)),
                Err(p) => Err(MacroErrorView::UnsupportedOperation(p)),
            }
        },
    }
}

/// The `return_object` named by a string value: `Self` is refused, and the
/// text must parse as an identifier.
pub open spec fn spec_return_object_arg(v: Seq<char>, parsed: Option<Seq<char>>) -> Result<
    Seq<char>,
    MacroErrorView,
> {
    if v == "Self"@ {
        Err(MacroErrorView::ReturnObjectIsSelf)
    } else {
        match parsed {
            Some(id) => Ok(id),
            None => Err(MacroErrorView::InvalidReturnObject(v)),
        }
    }
}

/// One argument read after the ones before it; `parsed` is what the
/// identifier parser gave for a `return_object` value.
pub open spec fn spec_arg_step(st: ArgsView, arg: MacroArg, parsed: Option<Seq<char>>) -> Result<
    ArgsView,
    MacroErrorView,
> {
    match arg {
        MacroArg::NameValue { path, text, str_value } => {
            if is_named(path, "table_name"@) {
                Ok(ArgsView { table_name: Some(text@), ..st })
            } else if is_named(path, "db_type"@) {
                match str_value {
                    None => Ok(st),
                    Some(v) => match spec_db_type_named(v@) {
                        Some(d) => Ok(ArgsView { db_type: Some(d), ..st }),
                        None => Err(MacroErrorView::UnknownDbType(v@)),
                    },
                }
            } else if is_named(path, "return_object"@) {
                match str_value {
                    None => Ok(st),
                    Some(v) => match spec_return_object_arg(v@, parsed) {
                        Ok(id) => Ok(ArgsView { return_object: Some(id), ..st }),
                        Err(e) => Err(e),
                    },
                }
            } else if is_named(path, "only"@) {
                match spec_list_arg(st.only, str_value, MacroErrorView::DuplicateOnly) {
                    Ok(o) => Ok(ArgsView { only: o, ..st }),
                    Err(e) => Err(e),
                }
            } else if is_named(path, "exclude"@) {
                match spec_list_arg(st.exclude, str_value, MacroErrorView::DuplicateExclude) {
                    Ok(o) => Ok(ArgsView { exclude: o, ..st }),
                    Err(e) => Err(e),
                }
            } else if is_named(path, "add"@) {
                match spec_list_arg(st.add, str_value, MacroErrorView::DuplicateAdd) {
                    Ok(o) => Ok(ArgsView { add: o, ..st }),
                    Err(e) => Err(e),
                }
            } else {
                Err(MacroErrorView::UnknownArgument)
            }
        },
        MacroArg::Path { path } => {
            if is_named(path, "all"@) {
                Ok(ArgsView { add: Some(spec_all_operations()), ..st })
            } else if is_named(path, "soft_deletion"@) {
                Ok(ArgsView { soft_deletion: true, ..st })
            } else {
                Err(MacroErrorView::UnknownArgument)
            }
        },
        MacroArg::List { .. } => Err(MacroErrorView::UnknownArgument),
    }
}

/// The identifier parser's outcome for an argument agrees with what every
/// run of it gives; arguments other than a `return_object` string have none.
pub open spec fn arg_ident_ok(arg: MacroArg, parsed: Option<Seq<char>>) -> bool {
    match arg {
        MacroArg::NameValue { path, str_value: Some(v), .. } => if is_named(path, "return_object"@) {
            ident_outcome(v@, parsed)
        } else {
            parsed is None
        },
        _ => parsed is None,
    }
}

/// One outcome per argument, each as `arg_ident_ok` allows.
pub open spec fn idents_ok(args: Seq<MacroArg>, parsed: Seq<Option<Seq<char>>>) -> bool {
    &&& parsed.len() == args.len()
    &&& forall|k: int| 0 <= k < args.len() ==> arg_ident_ok(args[k], #[trigger] parsed[k])
}

/// An outcome that `arg_ident_ok` allows for every argument.
pub open spec fn some_ident_outcome(arg: MacroArg) -> Option<Seq<char>> {
    match arg {
        MacroArg::NameValue { path, str_value: Some(v), .. } => if is_named(path, "return_object"@)
            && is_ascii_ident(blank_trim(v@)) && !is_keyword(blank_trim(v@)) {
            Some(blank_trim(v@))
        } else {
            None
        },
        _ => None,
    }
}

/// The settings of a list of arguments, given the identifier parser's
/// outcome for each, or the first argument's error.
pub open spec fn spec_args(args: Seq<MacroArg>, parsed: Seq<Option<Seq<char>>>) -> Result<
    ArgsView,
    MacroErrorView,
>
    decreases args.len(),
{
    if args.len() == 0 {
        Ok(
            ArgsView {
                only: None,
                exclude: None,
                add: None,
                return_object: None,
                table_name: None,
                db_type: None,
                soft_deletion: false,
            },
        )
    } else {
        match spec_args(args.drop_last(), parsed.drop_last()) {
            Err(e) => Err(e),
            Ok(st) => spec_arg_step(st, args.last(), parsed.last()),
        }
    }
}

/// An error in a prefix of the arguments is the error of all of them.
proof fn lemma_args_error(args: Seq<MacroArg>, parsed: Seq<Option<Seq<char>>>, i: int)
    requires
        0 <= i <= args.len(),
        parsed.len() == args.len(),
        spec_args(args.take(i), parsed.take(i)) is Err,
    ensures
        spec_args(args, parsed) == spec_args(args.take(i), parsed.take(i)),
    decreases args.len() - i,
{
    if i < args.len() {
        assert(args.take(i + 1).drop_last() =~= args.take(i));
        assert(parsed.take(i + 1).drop_last() =~= parsed.take(i));
        lemma_args_error(args, parsed, i + 1);
    } else {
        assert(args.take(i) =~= args);
        assert(parsed.take(i) =~= parsed);
    }
}

/// The settings being read, as values the code can hold.
struct ArgsAcc {
    only: Option<Vec<Operation>>,
    exclude: Option<Vec<Operation>>,
    add: Option<Vec<Operation>>,
    return_object: Option<String>,
    table_name: Option<String>,
    db_type: Option<DbType>,
    soft_deletion: bool,
}

impl View for ArgsAcc {
    type V = ArgsView;

    closed spec fn view(&self) -> ArgsView {
        ArgsView {
            only: opt_ops(self.only),
            exclude: opt_ops(self.exclude),
            add: opt_ops(self.add),
            return_object: self.return_object.deep_view(),
            table_name: self.table_name.deep_view(),
            db_type: self.db_type,
            soft_deletion: self.soft_deletion,
        }
    }
}

/// Reads a list argument into `current`.
fn read_list_arg(
    current: Option<Vec<Operation>>,
    str_value: &Option<String>,
    twice: MacroError,
) -> (res: Result<Option<Vec<Operation>>, MacroError>)
    ensures
        match spec_list_arg(opt_ops(current), *str_value, twice@) {
            Ok(o) => res matches Ok(x) && opt_ops(x) == o,
            Err(e) => res matches Err(x) && x@ == e,
        },
{
    match str_value {
        None => Ok(current),
        Some(v) => {
            if current.is_some() {
                return Err(twice);
            }
            match parse_operation_list(v.as_str()) {
                Ok(ops) => Ok(Some(ops)),
                Err(p) => Err(MacroError::UnsupportedOperation(p)),
            }
        },
    }
}

/// Whether an optional path is the single identifier `name`.
fn path_is(path: &Option<String>, name: &str) -> (res: bool)
    ensures
        res == is_named(*path, name@),
{
    match path {
        Some(p) => str_eq(p.as_str(), name),
        None => false,
    }
}

impl Parser {
    /// The `return_object` named by the string value `raw`, given what the
    /// identifier parser made of it: `Self` is refused, and a text that did
    /// not parse is refused.
    pub fn return_object_ident(raw: &str, parsed: Option<String>) -> (res: Result<
        String,
        MacroError,
    >)
        ensures
            match spec_return_object_arg(raw@, parsed.deep_view()) {
                Ok(id) => res matches Ok(x) && x@ == id,
                Err(e) => res matches Err(x) && x@ == e,
            },
    {
        if str_eq(raw, "Self") {
            return Err(MacroError::ReturnObjectIsSelf);
        }
        match parsed {
            Some(id) => Ok(id),
            None => Err(MacroError::InvalidReturnObject(to_string(raw))),
        }
    }
}

/// Reads one argument into the settings.
fn read_arg(acc: ArgsAcc, arg: &MacroArg) -> (res: (Result<ArgsAcc, MacroError>, Ghost<Option<Seq<char>>>))
    ensures
        arg_ident_ok(*arg, res.1@),
        match spec_arg_step(acc@, *arg, res.1@) {
            Ok(st) => res.0 matches Ok(x) && x@ == st,
            Err(e) => res.0 matches Err(x) && x@ == e,
        },
{
    let mut acc = acc;
    let is_return_object = match arg {
        MacroArg::NameValue { path, str_value: Some(_), .. } => path_is(path, "return_object"),
        _ => false,
    };
    if is_return_object {
        proof {
            reveal_strlit("return_object");
            reveal_strlit("table_name");
            reveal_strlit("db_type");
            assert("return_object"@.len() != "table_name"@.len());
            assert("return_object"@.len() != "db_type"@.len());
        }
        if let MacroArg::NameValue { str_value: Some(v), .. } = arg {
            let parsed = parse_ident(v.as_str());
            let ghost o = parsed.deep_view();
            let r = match Parser::return_object_ident(v.as_str(), parsed) {
                Ok(id) => {
                    acc.return_object = Some(id);
                    Ok(acc)
                },
                Err(e) => Err(e),
            };
            return (r, Ghost(o));
        }
    }
    (read_arg_without_ident(acc, arg), Ghost(None))
}

/// Reads one argument other than a `return_object` string.
fn read_arg_without_ident(acc: ArgsAcc, arg: &MacroArg) -> (res: Result<ArgsAcc, MacroError>)
    requires
        !(*arg matches MacroArg::NameValue { path, str_value: Some(_), .. } && is_named(
            path,
            "return_object"@,
        )),
    ensures
        match spec_arg_step(acc@, *arg, None) {
            Ok(st) => res matches Ok(x) && x@ == st,
            Err(e) => res matches Err(x) && x@ == e,
        },
{
    let mut acc = acc;
    match arg {
        MacroArg::NameValue { path, text, str_value } => {
            if path_is(path, "table_name") {
                acc.table_name = Some(text.clone());
                Ok(acc)
            } else if path_is(path, "db_type") {
                match str_value {
                    None => Ok(acc),
                    Some(v) => match DbType::from_name(v.as_str()) {
                        Some(d) => {
                            acc.db_type = Some(d);
                            Ok(acc)
                        },
                        None => Err(MacroError::UnknownDbType(v.clone())),
                    },
                }
            } else if path_is(path, "return_object") {
                Ok(acc)
            } else if path_is(path, "only") {
                let cur = acc.only;
                match read_list_arg(cur, str_value, MacroError::DuplicateOnly) {
                    Ok(o) => Ok(ArgsAcc { only: o, ..acc }),
                    Err(e) => Err(e),
                }
            } else if path_is(path, "exclude") {
                let cur = acc.exclude;
                match read_list_arg(cur, str_value, MacroError::DuplicateExclude) {
                    Ok(o) => Ok(ArgsAcc { exclude: o, ..acc }),
                    Err(e) => Err(e),
                }
            } else if path_is(path, "add") {
                let cur = acc.add;
                match read_list_arg(cur, str_value, MacroError::DuplicateAdd) {
                    Ok(o) => Ok(ArgsAcc { add: o, ..acc }),
                    Err(e) => Err(e),
                }
            } else {
                Err(MacroError::UnknownArgument)
            }
        },
        MacroArg::Path { path } => {
            if path_is(path, "all") {
                acc.add = Some(Operation::all());
                Ok(acc)
            } else if path_is(path, "soft_deletion") {
                acc.soft_deletion = true;
                Ok(acc)
            } else {
                Err(MacroError::UnknownArgument)
            }
        },
        MacroArg::List { .. } => Err(MacroError::UnknownArgument),
    }
}

/// What the struct's arguments give: its names, the database, the
/// operations and whether rows are deleted softly; or the first error.
pub open spec fn spec_struct_arguments(
    name: Seq<char>,
    vis: Seq<char>,
    args: Seq<MacroArg>,
    parsed: Seq<Option<Seq<char>>>,
) -> Result<(ParsedStructView, DbType, Seq<Operation>, bool), MacroErrorView> {
    match spec_args(args, parsed) {
        Err(e) => Err(e),
        Ok(st) => {
            let ps = spec_parsed_struct(name, vis, st.table_name, st.return_object);
            match spec_get_operations(
                st.only,
                st.exclude,
                st.add,
                spec_default_operations(ps.struct_type),
            ) {
                Err(m) => Err(MacroErrorView::ConflictingOperations(m)),
                Ok(ops) => Ok(
                    (
                        ps,
                        match st.db_type {
                            Some(d) => d,
                            None => DbType::Postgres,
                        },
                        ops,
                        st.soft_deletion,
                    ),
                ),
            }
        },
    }
}

/// A result of reading the arguments agrees with their spec outcome.
pub open spec fn struct_arguments_match(
    spec: Result<(ParsedStructView, DbType, Seq<Operation>, bool), MacroErrorView>,
    res: Result<(ParsedStruct, DbType, Vec<Operation>, bool), MacroError>,
) -> bool {
    match spec {
        Ok((ps, db, ops, soft)) => res matches Ok((p, d, o, s)) && p@ == ps && d == db && o@ == ops
            && s == soft,
        Err(e) => res matches Err(x) && x@ == e,
    }
}

impl Parser {
    /// Reads the arguments of the struct's `#[tiny_orm(...)]` attributes, in
    /// order, for a struct with the given name. Every argument list that the
    /// derive cannot accept (an unknown or repeated argument, conflicting
    /// operation options, an unknown operation or database, a bad
    /// `return_object`) is answered with its `MacroError`, which the derive's
    /// entry point turns into the compile error that stops the build; this
    /// function itself never panics.
    pub fn parse_struct_macro_arguments(
        struct_name: &str,
        struct_visibility: &str,
        args: &Vec<MacroArg>,
    ) -> (res: Result<
        (ParsedStruct, DbType, Vec<Operation>, bool),
        MacroError,
    >)
        ensures
            exists|parsed: Seq<Option<Seq<char>>>|
                idents_ok(args@, parsed) && #[trigger] struct_arguments_match(
                    spec_struct_arguments(struct_name@, struct_visibility@, args@, parsed),
                    res,
                ),
    {
        let ghost mut ids: Seq<Option<Seq<char>>> = Seq::empty();
        let mut acc = ArgsAcc {
            only: None,
            exclude: None,
            add: None,
            return_object: None,
            table_name: None,
            db_type: None,
            soft_deletion: false,
        };
        let mut i: usize = 0;
        while i < args.len()
            invariant
                i <= args@.len(),
                ids.len() == i,
                forall|k: int| 0 <= k < i ==> arg_ident_ok(args@[k], #[trigger] ids[k]),
                spec_args(args@.take(i as int), ids) == Ok::<ArgsView, MacroErrorView>(acc@),
            decreases args.len() - i,
        {
            proof {
                let t = args@.take(i as int + 1);
                assert(t.drop_last() =~= args@.take(i as int));
                assert(t.last() == args@[i as int]);
            }
            let (r, Ghost(o)) = read_arg(acc, &args[i]);
            proof {
                assert(ids.push(o).drop_last() =~= ids);
                ids = ids.push(o);
            }
            match r {
                Ok(next) => {
                    acc = next;
                },
                Err(e) => {
                    proof {
                        let n = args@.len();
                        let pad = Seq::new(
                            (n - (i + 1)) as nat,
                            |j: int| some_ident_outcome(args@[i + 1 + j]),
                        );
                        let full = ids + pad;
                        assert(full.take(i as int + 1) =~= ids);
                        assert forall|k: int| 0 <= k < n implies arg_ident_ok(
                            args@[k],
                            #[trigger] full[k],
                        ) by {
                            if k > i {
                                assert(full[k] == some_ident_outcome(args@[k]));
                            }
                        }
                        lemma_args_error(args@, full, i as int + 1);
                        assert(struct_arguments_match(
                            spec_struct_arguments(struct_name@, struct_visibility@, args@, full),
                            Err(e),
                        ));
                    }
                    return Err(e);
                },
            }
            i = i + 1;
        }
        assert(args@.take(args@.len() as int) =~= args@);
        assert(idents_ok(args@, ids));
        let ArgsAcc { only, exclude, add, return_object, table_name, db_type, soft_deletion } = acc;
        let parsed_struct = ParsedStruct::new(struct_name, struct_visibility, table_name, return_object);
        let db = match db_type {
            Some(d) => d,
            None => DbType::default(),
        };
        let default = parsed_struct.struct_type.default_operation();
        let res = match Parser::get_operations(only, exclude, add, default) {
            Ok(ops) => Ok((parsed_struct, db, ops, soft_deletion)),
            Err(m) => Err(MacroError::ConflictingOperations(to_string(m))),
        };
        assert(struct_arguments_match(spec_struct_arguments(struct_name@, struct_visibility@, args@, ids), res));
        res
    }
}

/// The fields of the item that derives `Table`.
#[derive(Debug, Clone, PartialEq, Eq)]
pub enum StructData {
    /// A struct with named fields, in order.
    Named(Vec<FieldInput>),
    /// A tuple or unit struct.
    NotNamed,
    /// An enum or a union.
    NotStruct,
}

/// A struct that derives `Table`, as the derive reads it.
#[derive(Debug, Clone, PartialEq, Eq)]
pub struct StructInput {
    pub name: String,
    /// Its visibility as written, empty when it has none.
    pub vis: String,
    /// The arguments of its `#[tiny_orm(...)]` attributes, in order.
    pub args: Vec<MacroArg>,
    /// Its fields.
    pub data: StructData,
}

/// Everything the generated code is made from.
#[derive(Debug, Clone, PartialEq, Eq)]
pub struct Attr {
    pub parsed_struct: ParsedStruct,
    pub primary_key: Option<Column>,
    pub columns: Vec<Column>,
    pub operations: Vec<Operation>,
    pub soft_deletion: bool,
    pub db_type: DbType,
}

/// The view of an `Attr`.
pub struct AttrView {
    pub parsed_struct: ParsedStructView,
    pub primary_key: Option<ColumnView>,
    pub columns: Seq<ColumnView>,
    pub operations: Seq<Operation>,
    pub soft_deletion: bool,
    pub db_type: DbType,
}

impl View for Attr {
    type V = AttrView;

    open spec fn view(&self) -> AttrView {
        AttrView {
            parsed_struct: self.parsed_struct@,
            primary_key: opt_column_view(self.primary_key),
            columns: columns_view(self.columns@),
            operations: self.operations@,
            soft_deletion: self.soft_deletion,
            db_type: self.db_type,
        }
    }
}

/// What the derive reads from a struct, or why it refuses it.
pub open spec fn spec_attr(input: StructInput, parsed: Seq<Option<Seq<char>>>) -> Result<
    AttrView,
    MacroErrorView,
> {
    match spec_struct_arguments(input.name@, input.vis@, input.args@, parsed) {
        Err(e) => Err(e),
        Ok((ps, db, ops, soft)) => {
            match input.data {
                StructData::NotStruct => Err(MacroErrorView::NotAStruct),
                StructData::NotNamed => Err(MacroErrorView::NotNamedFields),
                StructData::Named(fields) => {
            let f = spec_fields(fields@);
            Ok(
                AttrView {
                    parsed_struct: ps,
                    primary_key: f.primary_key,
                    columns: f.columns,
                    operations: ops,
                    soft_deletion: soft,
                    db_type: db,
                },
            )
                },
            }
        },
    }
}

/// A read struct agrees with its spec outcome.
pub open spec fn attr_match(spec: Result<AttrView, MacroErrorView>, res: Result<Attr, MacroError>) -> bool {
    match spec {
        Ok(a) => res matches Ok(x) && x@ == a,
        Err(e) => res matches Err(x) && x@ == e,
    }
}

impl Attr {
    /// Reads a struct: its arguments, then its fields. The outcome is exact
    /// for some outcomes of the identifier parser that agree with
    /// `idents_ok`. An enum, a union, or a struct without named fields is
    /// answered with `NotAStruct` or `NotNamedFields`, like every refusal a
    /// `MacroError` that the derive's entry point turns into a compile
    /// error; nothing here panics.
    pub fn parse(input: &StructInput) -> (res: Result<Attr, MacroError>)
        ensures
            exists|parsed: Seq<Option<Seq<char>>>|
                idents_ok(input.args@, parsed) && #[trigger] attr_match(spec_attr(*input, parsed), res),
    {
        let r = Parser::parse_struct_macro_arguments(
            input.name.as_str(),
            input.vis.as_str(),
            &input.args,
        );
        let ghost parsed = choose|parsed: Seq<Option<Seq<char>>>|
            idents_ok(input.args@, parsed) && #[trigger] struct_arguments_match(
                spec_struct_arguments(input.name@, input.vis@, input.args@, parsed),
                r,
            );
        let (parsed_struct, db_type, operations, soft_deletion) = match r {
            Ok(r) => r,
            Err(e) => {
                assert(attr_match(spec_attr(*input, parsed), Err(e)));
                return Err(e);
            },
        };
        let fields = match &input.data {
            StructData::Named(fields) => fields,
            StructData::NotNamed => {
                assert(attr_match(spec_attr(*input, parsed), Err(MacroError::NotNamedFields)));
                return Err(MacroError::NotNamedFields);
            },
            StructData::NotStruct => {
                assert(attr_match(spec_attr(*input, parsed), Err(MacroError::NotAStruct)));
                return Err(MacroError::NotAStruct);
            },
        };
        let (primary_key, columns) = Parser::parse_fields_macro_arguments(fields);
        let res = Attr { parsed_struct, primary_key, columns, operations, soft_deletion, db_type };
        assert(attr_match(spec_attr(*input, parsed), Ok(res)));
        Ok(res)
    }
}

} // verus!
