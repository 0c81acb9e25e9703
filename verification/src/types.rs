//! The model of a struct that derives `Table`: its operations, its columns
//! and the names it is known by.
use vstd::prelude::*;

use crate::text::{
    has_prefix, is_upper, skip_chars, snake_case, spec_snake_case, spec_trim, spec_trim_quotes,
    spec_type_head, spec_unraw, starts_with, str_eq, to_string, trim, trim_quotes, type_head, unraw,
};

verus! {

/// One of the methods that the derive can generate.
#[derive(Debug, Clone, Copy, PartialEq, Eq, PartialOrd, Ord, Hash, Structural)]
pub enum Operation {
    Get,
    List,
    Create,
    Update,
    Delete,
}

/// Every operation, in their declared order.
pub open spec fn spec_all_operations() -> Seq<Operation> {
    seq![Operation::Get, Operation::List, Operation::Create, Operation::Update, Operation::Delete]
}

/// The operation that an argument of `only`, `exclude` or `add` names.
pub open spec fn spec_operation_named(name: Seq<char>) -> Option<Operation> {
    if name == "get"@ {
        Some(Operation::Get)
    } else if name == "list"@ {
        Some(Operation::List)
    } else if name == "create"@ {
        Some(Operation::Create)
    } else if name == "update"@ {
        Some(Operation::Update)
    } else if name == "delete"@ {
        Some(Operation::Delete)
    } else {
        None
    }
}

impl Operation {
    /// Every operation, in their declared order.
    pub fn all() -> (res: Vec<Operation>)
        ensures
            res@ == spec_all_operations(),
    {
        let mut v = Vec::new();
        v.push(Operation::Get);
        v.push(Operation::List);
        v.push(Operation::Create);
        v.push(Operation::Update);
        v.push(Operation::Delete);
        assert(v@ =~= spec_all_operations());
        v
    }

    /// The operation with the given name, or `None` for an unknown name.
    pub fn from_name(name: &str) -> (res: Option<Operation>)
        ensures
            res == spec_operation_named(name@),
    {
        if str_eq(name, "get") {
            Some(Operation::Get)
        } else if str_eq(name, "list") {
            Some(Operation::List)
        } else if str_eq(name, "create") {
            Some(Operation::Create)
        } else if str_eq(name, "update") {
            Some(Operation::Update)
        } else if str_eq(name, "delete") {
            Some(Operation::Delete)
        } else {
            None
        }
    }
}

/// Whether a type's text names `SetOption`: the last path segment before the
/// generic arguments is `SetOption`.
pub open spec fn spec_uses_set_option(ty: Seq<char>) -> bool {
    spec_type_head(ty).0 == "SetOption"@
}

/// One field of the struct, stored in the column of the same name.
#[derive(Debug, PartialEq, Eq)]
pub struct Column {
    /// The field's identifier, `r#` included for a raw identifier.
    pub name: String,
    /// The field's visibility as written (`pub`, `pub (crate)`, ...),
    /// empty when it has none.
    pub vis: String,
    /// The field type's text.
    pub _type: String,
    pub primary_key: bool,
    pub auto_increment: bool,
}

/// The view of a column, with its texts as sequences.
pub struct ColumnView {
    pub name: Seq<char>,
    pub vis: Seq<char>,
    pub ty: Seq<char>,
    pub primary_key: bool,
    pub auto_increment: bool,
}

impl View for Column {
    type V = ColumnView;

    open spec fn view(&self) -> ColumnView {
        ColumnView {
            name: self.name@,
            vis: self.vis@,
            ty: self._type@,
            primary_key: self.primary_key,
            auto_increment: self.auto_increment,
        }
    }
}

/// The views of a list of columns.
pub open spec fn columns_view(cols: Seq<Column>) -> Seq<ColumnView> {
    cols.map_values(|c: Column| c@)
}

/// The view of an optional column.
pub open spec fn opt_column_view(c: Option<Column>) -> Option<ColumnView> {
    match c {
        Some(col) => Some(col@),
        None => None,
    }
}

impl Clone for Column {
    fn clone(&self) -> (res: Self)
        ensures
            res == *self,
    {
        Column {
            name: self.name.clone(),
            vis: self.vis.clone(),
            _type: self._type.clone(),
            primary_key: self.primary_key,
            auto_increment: self.auto_increment,
        }
    }
}

impl Column {
    /// A plain column: neither primary key nor auto-incremented.
    pub fn new(name: &str, vis: &str, ty: &str) -> (res: Column)
        ensures
            res.name@ == name@,
            res.vis@ == vis@,
            res._type@ == ty@,
            !res.primary_key,
            !res.auto_increment,
    {
        Column {
            name: to_string(name),
            vis: to_string(vis),
            _type: to_string(ty),
            primary_key: false,
            auto_increment: false,
        }
    }

    /// Marks the column as the primary key.
    pub fn set_primary_key(&mut self)
        ensures
            *final(self) == (Column { primary_key: true, ..*old(self) }),
    {
        self.primary_key = true;
    }

    /// Marks the column as filled in by the database.
    pub fn set_auto_increment(&mut self)
        ensures
            *final(self) == (Column { auto_increment: true, ..*old(self) }),
    {
        self.auto_increment = true;
    }

    /// Whether the field's type is a `SetOption`.
    pub open spec fn spec_uses_set_option(&self) -> bool {
        spec_uses_set_option(self._type@)
    }

    /// Whether the field's type is a `SetOption`, so that the generated
    /// writes skip it when it is not set.
    pub fn use_set_options(&self) -> (res: bool)
        ensures
            res == self.spec_uses_set_option(),
    {
        let head = type_head(self._type.as_str());
        str_eq(head.as_str(), "SetOption")
    }

    /// The column's name in SQL: the field's name without the `r#` marker.
    pub open spec fn spec_safe_name(&self) -> Seq<char> {
        spec_unraw(self.name@)
    }

    /// The column's name in SQL.
    pub fn safe_name(&self) -> (res: String)
        ensures
            res@ == self.spec_safe_name(),
    {
        unraw(self.name.as_str())
    }
}

/// The role of a struct, told by its name: `NewX` inserts rows of `X`,
/// `UpdateX` updates them, any other struct is the row itself.
#[derive(Debug, Clone, Copy, PartialEq, Eq, Structural)]
pub enum StructType {
    Generic,
    Create,
    Update,
}

/// `prefix` followed by an upper-case letter begins `name`.
pub open spec fn has_role_prefix(name: Seq<char>, prefix: Seq<char>) -> bool {
    has_prefix(name, prefix) && name.len() > prefix.len() && is_upper(name[prefix.len() as int])
}

/// The role of a struct with the given name.
pub open spec fn spec_struct_type(name: Seq<char>) -> StructType {
    if has_role_prefix(name, "New"@) {
        StructType::Create
    } else if has_role_prefix(name, "Update"@) {
        StructType::Update
    } else {
        StructType::Generic
    }
}

/// The name of the row type a struct stands for: the name without its
/// `New` or `Update` prefix.
pub open spec fn spec_base_name(name: Seq<char>) -> Seq<char> {
    match spec_struct_type(name) {
        StructType::Create => name.skip("New"@.len() as int),
        StructType::Update => name.skip("Update"@.len() as int),
        StructType::Generic => name,
    }
}

/// The operations a struct of each role gets when none are asked for.
pub open spec fn spec_default_operations(t: StructType) -> Seq<Operation> {
    match t {
        StructType::Generic => seq![Operation::Get, Operation::List, Operation::Delete],
        StructType::Create => seq![Operation::Create],
        StructType::Update => seq![Operation::Update],
    }
}

/// Whether `prefix` followed by an upper-case letter begins `name`.
fn role_prefix(name: &str, prefix: &str) -> (res: bool)
    ensures
        res == has_role_prefix(name@, prefix@),
{
    if !starts_with(name, prefix) {
        return false;
    }
    let n = name.unicode_len();
    let m = prefix.unicode_len();
    if n <= m {
        return false;
    }
    let c = name.get_char(m);
    'A' <= c && c <= 'Z'
}

impl StructType {
    /// The role of a struct with the given name.
    pub fn of_name(name: &str) -> (res: StructType)
        ensures
            res == spec_struct_type(name@),
    {
        if role_prefix(name, "New") {
            StructType::Create
        } else if role_prefix(name, "Update") {
            StructType::Update
        } else {
            StructType::Generic
        }
    }

    /// The operations generated when the attributes ask for none.
    pub fn default_operation(&self) -> (res: Vec<Operation>)
        ensures
            res@ == spec_default_operations(*self),
    {
        let mut v = Vec::new();
        match self {
            StructType::Generic => {
                v.push(Operation::Get);
                v.push(Operation::List);
                v.push(Operation::Delete);
            },
            StructType::Create => {
                v.push(Operation::Create);
            },
            StructType::Update => {
                v.push(Operation::Update);
            },
        }
        assert(v@ =~= spec_default_operations(*self));
        v
    }
}

/// The names that the generated code uses for a struct.
#[derive(Debug, PartialEq, Eq)]
pub struct ParsedStruct {
    pub name: String,
    /// The struct's visibility as written, empty when it has none.
    pub vis: String,
    pub struct_type: StructType,
    pub table_name: String,
    /// The type that the methods return rows as (`Self` for a row struct).
    pub return_object: String,
}

/// The view of the names of a struct.
pub struct ParsedStructView {
    pub name: Seq<char>,
    pub vis: Seq<char>,
    pub struct_type: StructType,
    pub table_name: Seq<char>,
    pub return_object: Seq<char>,
}

impl View for ParsedStruct {
    type V = ParsedStructView;

    open spec fn view(&self) -> ParsedStructView {
        ParsedStructView {
            name: self.name@,
            vis: self.vis@,
            struct_type: self.struct_type,
            table_name: self.table_name@,
            return_object: self.return_object@,
        }
    }
}

/// The names of a struct with the given name and overrides.
pub open spec fn spec_parsed_struct(
    name: Seq<char>,
    vis: Seq<char>,
    table_name: Option<Seq<char>>,
    return_object: Option<Seq<char>>,
) -> ParsedStructView {
    ParsedStructView {
        name,
        vis,
        struct_type: spec_struct_type(name),
        table_name: spec_table_name(name, table_name),
        return_object: spec_return_object(name, return_object),
    }
}

impl Clone for ParsedStruct {
    fn clone(&self) -> (res: Self)
        ensures
            res == *self,
    {
        ParsedStruct {
            name: self.name.clone(),
            vis: self.vis.clone(),
            struct_type: self.struct_type,
            table_name: self.table_name.clone(),
            return_object: self.return_object.clone(),
        }
    }
}

/// The table of a struct: the given `table_name` without quotes and outer
/// white space, else the `snake_case` form of the row type's name.
pub open spec fn spec_table_name(name: Seq<char>, table_name: Option<Seq<char>>) -> Seq<char> {
    match table_name {
        Some(t) => spec_trim(spec_trim_quotes(t)),
        None => spec_snake_case(spec_base_name(name)),
    }
}

/// The type the methods return: the given `return_object`, else `Self` for
/// a row struct and the row type for a `New` or `Update` struct.
pub open spec fn spec_return_object(name: Seq<char>, return_object: Option<Seq<char>>) -> Seq<
    char,
> {
    match return_object {
        Some(r) => r,
        None => if spec_struct_type(name) == StructType::Generic {
            "Self"@
        } else {
            spec_base_name(name)
        },
    }
}

impl ParsedStruct {
    /// The names of a struct, from its own name and the optional overrides
    /// (`table_name` as written in the attribute, quotes allowed).
    pub fn new(
        name: &str,
        vis: &str,
        table_name: Option<String>,
        return_object: Option<String>,
    ) -> (res: ParsedStruct)
        ensures
            res@ == spec_parsed_struct(
                name@,
                vis@,
                table_name.deep_view(),
                return_object.deep_view(),
            ),
    {
        let struct_type = StructType::of_name(name);
        proof {
            reveal_strlit("New");
            reveal_strlit("Update");
        }
        let base = match struct_type {
            StructType::Create => skip_chars(name, 3),
            StructType::Update => skip_chars(name, 6),
            StructType::Generic => to_string(name),
        };
        let table = match table_name {
            Some(t) => {
                let unquoted = trim_quotes(t.as_str());
                trim(unquoted.as_str())
            },
            None => snake_case(base.as_str()),
        };
        let ret = match return_object {
            Some(r) => r,
            None => match struct_type {
                StructType::Generic => to_string("Self"),
                _ => base,
            },
        };
        ParsedStruct {
            name: to_string(name),
            vis: to_string(vis),
            struct_type,
            table_name: table,
            return_object: ret,
        }
    }
}

/// The `New` and `Update` companions of a row struct `X` (whose name
/// begins with an upper-case letter) insert and update rows of `X`'s own
/// table, and give back `X`.
pub proof fn law_companions_share_table(x: Seq<char>)
    requires
        x.len() > 0,
        is_upper(x[0]),
        spec_struct_type(x) == StructType::Generic,
    ensures
        spec_struct_type("New"@ + x) == StructType::Create,
        spec_struct_type("Update"@ + x) == StructType::Update,
        spec_table_name("New"@ + x, None) == spec_table_name(x, None),
        spec_table_name("Update"@ + x, None) == spec_table_name(x, None),
        spec_return_object("New"@ + x, None) == x,
        spec_return_object("Update"@ + x, None) == x,
{
    reveal_strlit("New");
    reveal_strlit("Update");
    let n = "New"@ + x;
    let u = "Update"@ + x;
    assert(n.take(3) =~= "New"@);
    assert(n[3] == x[0]);
    assert(n.skip(3) =~= x);
    assert(u.take(6) =~= "Update"@);
    assert(u[6] == x[0]);
    assert(u.skip(6) =~= x);
    assert(u.take(3) != "New"@) by {
        assert(u.take(3)[0] != "New"@[0]);
    }
}

} // verus!
