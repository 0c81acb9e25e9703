//! Why the derive refuses a struct.
use vstd::prelude::*;
use vstd::string::StringExecFns;

use crate::text::to_string;

verus! {

/// A reason to refuse the attributes or the fields of a struct.
#[derive(Debug, PartialEq, Eq)]
pub enum MacroError {
    /// A `db_type` that is none of `postgres`, `mysql`, `sqlite`.
    UnknownDbType(String),
    /// `return_object = "Self"`.
    ReturnObjectIsSelf,
    /// A `return_object` that is not an identifier.
    InvalidReturnObject(String),
    /// `only` given twice.
    DuplicateOnly,
    /// `exclude` given twice.
    DuplicateExclude,
    /// `add` given twice.
    DuplicateAdd,
    /// A name in `only`, `exclude` or `add` that is no operation.
    UnsupportedOperation(String),
    /// An argument that the derive does not know.
    UnknownArgument,
    /// `only` together with `exclude` or `add`; the text says which.
    ConflictingOperations(String),
    /// `get` asked for on a struct without a primary key.
    MissingPrimaryKeyForGet,
    /// `update` or `delete` asked for on a struct without a primary key.
    MissingPrimaryKey,
    /// `create` on MySQL for a struct without a primary key.
    MySqlCreateWithoutPrimaryKey,
    /// An enum or a union.
    NotAStruct,
    /// A tuple or unit struct.
    NotNamedFields,
    /// A named field without a name.
    MissingFieldName,
    /// A `#[tiny_orm]` attribute whose arguments are not a list of
    /// `name`, `name = value` and `name(...)` items.
    InvalidAttribute,
    /// The input is not an item that syn reads; the text is syn's error.
    Unparsable(String),
}

/// The view of a `MacroError`, with its texts as sequences.
pub enum MacroErrorView {
    UnknownDbType(Seq<char>),
    ReturnObjectIsSelf,
    InvalidReturnObject(Seq<char>),
    DuplicateOnly,
    DuplicateExclude,
    DuplicateAdd,
    UnsupportedOperation(Seq<char>),
    UnknownArgument,
    ConflictingOperations(Seq<char>),
    MissingPrimaryKeyForGet,
    MissingPrimaryKey,
    MySqlCreateWithoutPrimaryKey,
    NotAStruct,
    NotNamedFields,
    MissingFieldName,
    InvalidAttribute,
    Unparsable(Seq<char>),
}

impl View for MacroError {
    type V = MacroErrorView;

    open spec fn view(&self) -> MacroErrorView {
        match self {
            MacroError::UnknownDbType(s) => MacroErrorView::UnknownDbType(s@),
            MacroError::ReturnObjectIsSelf => MacroErrorView::ReturnObjectIsSelf,
            MacroError::InvalidReturnObject(s) => MacroErrorView::InvalidReturnObject(s@),
            MacroError::DuplicateOnly => MacroErrorView::DuplicateOnly,
            MacroError::DuplicateExclude => MacroErrorView::DuplicateExclude,
            MacroError::DuplicateAdd => MacroErrorView::DuplicateAdd,
            MacroError::UnsupportedOperation(s) => MacroErrorView::UnsupportedOperation(s@),
            MacroError::UnknownArgument => MacroErrorView::UnknownArgument,
            MacroError::ConflictingOperations(s) => MacroErrorView::ConflictingOperations(s@),
            MacroError::MissingPrimaryKeyForGet => MacroErrorView::MissingPrimaryKeyForGet,
            MacroError::MissingPrimaryKey => MacroErrorView::MissingPrimaryKey,
            MacroError::MySqlCreateWithoutPrimaryKey => MacroErrorView::MySqlCreateWithoutPrimaryKey,
            MacroError::NotAStruct => MacroErrorView::NotAStruct,
            MacroError::NotNamedFields => MacroErrorView::NotNamedFields,
            MacroError::MissingFieldName => MacroErrorView::MissingFieldName,
            MacroError::InvalidAttribute => MacroErrorView::InvalidAttribute,
            MacroError::Unparsable(s) => MacroErrorView::Unparsable(s@),
        }
    }
}

/// The message that the derive fails with.
pub open spec fn spec_error_message(e: MacroErrorView) -> Seq<char> {
    match e {
        MacroErrorView::UnknownDbType(s) => "unknown db type: "@ + s,
        MacroErrorView::ReturnObjectIsSelf => "return_type cannot be Self"@,
        MacroErrorView::InvalidReturnObject(s) => "Failed to parse return_object as identifier: "@
            + s,
        MacroErrorView::DuplicateOnly => "The 'only' keyword has already been specified"@,
        MacroErrorView::DuplicateExclude => "The 'exclude' keyword has already been specified"@,
        MacroErrorView::DuplicateAdd => "The 'add' keyword has already been specified"@,
        MacroErrorView::UnsupportedOperation(s) => "Operation "@ + s + " is not supported"@,
        MacroErrorView::UnknownArgument => "Error - Skip unknown name value"@,
        MacroErrorView::ConflictingOperations(s) =>
            "Cannot parse the only/exclude operations properly.: "@ + s,
        MacroErrorView::MissingPrimaryKeyForGet =>
            "No primary key field found which is mandatory for the 'get' operation"@,
        MacroErrorView::MissingPrimaryKey => "No primary key field found"@,
        MacroErrorView::MySqlCreateWithoutPrimaryKey => "MySQL does not support the `RETURNING *` statement. Thus it's not possible to create a record without a known primary_key column with the `Table` macro. If an auto increment column is used, set a dummy value and it will be ignored."@,
        MacroErrorView::NotAStruct => "Only structs are supported"@,
        MacroErrorView::NotNamedFields => "Only named fields are supported"@,
        MacroErrorView::MissingFieldName => "Field ident is expected to get its name"@,
        MacroErrorView::InvalidAttribute => "The tiny_orm attribute arguments cannot be parsed"@,
        MacroErrorView::Unparsable(s) => s,
    }
}

impl MacroError {
    /// The message that the derive fails with.
    pub fn message(&self) -> (res: String)
        ensures
            res@ == spec_error_message(self@),
    {
        match self {
            MacroError::UnknownDbType(s) => to_string("unknown db type: ").concat(s.as_str()),
            MacroError::ReturnObjectIsSelf => to_string("return_type cannot be Self"),
            MacroError::InvalidReturnObject(s) => to_string(
                "Failed to parse return_object as identifier: ",
            ).concat(s.as_str()),
            MacroError::DuplicateOnly => to_string("The 'only' keyword has already been specified"),
            MacroError::DuplicateExclude => to_string(
                "The 'exclude' keyword has already been specified",
            ),
            MacroError::DuplicateAdd => to_string("The 'add' keyword has already been specified"),
            MacroError::UnsupportedOperation(s) => to_string("Operation ").concat(s.as_str()).concat(
                " is not supported",
            ),
            MacroError::UnknownArgument => to_string("Error - Skip unknown name value"),
            MacroError::ConflictingOperations(s) => to_string(
                "Cannot parse the only/exclude operations properly.: ",
            ).concat(s.as_str()),
            MacroError::MissingPrimaryKeyForGet => to_string(
                "No primary key field found which is mandatory for the 'get' operation",
            ),
            MacroError::MissingPrimaryKey => to_string("No primary key field found"),
            MacroError::MySqlCreateWithoutPrimaryKey => to_string("MySQL does not support the `RETURNING *` statement. Thus it's not possible to create a record without a known primary_key column with the `Table` macro. If an auto increment column is used, set a dummy value and it will be ignored."),
            MacroError::NotAStruct => to_string("Only structs are supported"),
            MacroError::NotNamedFields => to_string("Only named fields are supported"),
            MacroError::MissingFieldName => to_string("Field ident is expected to get its name"),
            MacroError::InvalidAttribute => to_string(
                "The tiny_orm attribute arguments cannot be parsed",
            ),
            MacroError::Unparsable(s) => s.clone(),
        }
    }
}

} // verus!
