//! Reading string literals, as `proc_macro2` and `syn` read them.

use vstd::prelude::*;

verus! {

/// Calls `proc_macro2::Literal::from_str` on `text`, `syn::Lit::new` on the
/// literal it gives, and `syn::LitStr::value` where that is a string
/// literal. Which texts are string literals and what they hold is for the
/// two crates to say, so the contract claims nothing of the outcome:
/// `Some` stands for a string literal's value, `None` for every other
/// text.
#[verifier::external_body]
pub(crate) fn decode_literal(text: &str) -> (value: Option<String>) {
    match text.parse::<proc_macro2::Literal>() {
        Ok(literal) => match syn::Lit::new(literal) {
            syn::Lit::Str(string) => Some(string.value()),
            _ => None,
        },
        Err(_) => None,
    }
}

} // verus!
