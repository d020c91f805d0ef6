//! Generation of a per-variant widget dispatcher for a tagged union.
//!
//! Given the shape of a union type — its name, its visibility, and the name
//! and payload of each variant — this crate validates the declaration,
//! resolves the generated names, and synthesizes the source text of a
//! companion dispatcher type: a builder with one optional child-widget slot
//! per variant that routes the host framework's lifecycle calls to the child
//! of the currently active variant. The routing decisions themselves are
//! modelled and proved in [`dispatch`].

use vstd::prelude::*;

pub mod decl;
pub mod dispatch;
pub mod names;
pub mod parse;
pub mod synth;

verus! {

use crate::decl::RawDecl;
use crate::parse::{parse, spec_parse, ParseError};
use crate::synth::{spec_code_of, synthesize};

/// The whole generation pass: validate the annotated union declaration and,
/// when it is well-formed, synthesize the dispatcher's source text. A
/// malformed declaration yields the error naming the offending construct,
/// and nothing is emitted.
pub fn derive(input: &RawDecl) -> (r: Result<String, ParseError>)
    ensures
        match r {
            Result::Ok(code) => spec_parse(input@) is Ok && code@ == spec_code_of(
                spec_parse(input@)->Ok_0,
            ),
            Result::Err(e) => spec_parse(input@) is Err && e@ == spec_parse(input@)->Err_0,
        },
{
    match parse(input) {
        Result::Ok(d) => Result::Ok(synthesize(&d)),
        Result::Err(e) => Result::Err(e),
    }
}

} // verus!
