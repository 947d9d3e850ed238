//! The derive: from the source text of a type definition to the generated
//! `impl` block.
use vstd::prelude::*;
use crate::generate::{impl_text, render_impl};

verus! {

/// syn's parse error, carried through unopened.
#[verifier::external_type_specification]
#[verifier::external_body]
pub struct ExSynError(syn::Error);

/// The name that syn reads from the definition `src` (a struct, an enum or a
/// union), or `None` where `src` does not parse as one.
pub uninterp spec fn derive_ident_of(src: Seq<char>) -> Option<Seq<char>>;

/// Relies on `syn::parse_str::<syn::DeriveInput>` to parse the definition, and
/// on the `Display` of its `ident` to give the name as text.
#[verifier::external_body]
fn parse_derive_ident(src: &str) -> (r: Result<String, syn::Error>)
    ensures
        r is Ok <==> derive_ident_of(src@) is Some,
        r is Ok ==> derive_ident_of(src@) == Some(r->Ok_0@),
{
    match syn::parse_str::<syn::DeriveInput>(src) {
        Ok(input) => Ok(input.ident.to_string()),
        Err(e) => Err(e),
    }
}

/// Why a derive produced no code.
#[derive(Clone, Copy, Debug, PartialEq, Eq, Structural)]
pub enum DeriveError {
    /// The input is not a struct, enum or union definition.
    Syntax,
}

/// Generates the CRUD `impl` block for the type that `input` defines.
///
/// Only the type's name is read; its fields and generics are ignored.
pub fn crud_operations_derive(input: &str) -> (r: Result<String, DeriveError>)
    ensures
        r is Ok <==> derive_ident_of(input@) is Some,
        r is Ok ==> r->Ok_0@ == impl_text(derive_ident_of(input@)->0),
        r is Err ==> r->Err_0 == DeriveError::Syntax,
{
    match parse_derive_ident(input) {
        Ok(name) => Ok(render_impl(name.as_str())),
        Err(_) => Err(DeriveError::Syntax),
    }
}

} // verus!
