//! The whole derive: from a struct to the source of its `impl` block.
use vstd::prelude::*;

use crate::attr::{attr_match, idents_ok, spec_attr, Attr, AttrView, StructInput};
use crate::error::{MacroError, MacroErrorView};
use crate::quotes::{
    generate_impl, lits_ok, spec_generate_impl, spec_names_plain, spec_plain_literals, text_match,
    LiteralsView,
};

verus! {

/// The derive's outcome for a read struct: its reason to refuse, or the
/// source of the `impl` block written with string literals of the struct's
/// names; when no name needs an escape, those literals are the names in
/// quotes.
pub open spec fn generated_match(a: Result<AttrView, MacroErrorView>, res: Result<String, MacroError>) -> bool {
    match a {
        Err(e) => res matches Err(x) && x@ == e,
        Ok(a) => {
            &&& exists|l: LiteralsView|
                #[trigger] lits_ok(a, l) && text_match(spec_generate_impl(a, l), res)
            &&& spec_names_plain(a) ==> text_match(spec_generate_impl(a, spec_plain_literals(a)), res)
        },
    }
}

/// Reads a struct and writes the source of its `impl` block.
pub fn expand(input: &StructInput) -> (res: Result<String, MacroError>)
    ensures
        exists|parsed: Seq<Option<Seq<char>>>|
            idents_ok(input.args@, parsed) && #[trigger] generated_match(spec_attr(*input, parsed), res),
{
    let r = Attr::parse(input);
    let ghost parsed = choose|parsed: Seq<Option<Seq<char>>>|
        idents_ok(input.args@, parsed) && #[trigger] attr_match(spec_attr(*input, parsed), r);
    let attr = match r {
        Ok(a) => a,
        Err(e) => {
            assert(generated_match(spec_attr(*input, parsed), Err(e)));
            return Err(e);
        },
    };
    let res = generate_impl(&attr);
    assert(generated_match(spec_attr(*input, parsed), res));
    res
}

} // verus!
