use vstd::prelude::*;
use vstd::utf8::is_ascii_chars;

verus! {

/// The identifier that `syn` reads from ASCII text, if the whole text is one
/// identifier that is not a keyword.
pub uninterp spec fn parsed_ident(s: Seq<char>) -> Option<Seq<char>>;

/// Relies on `syn::parse_str::<syn::Ident>`: it succeeds when the text is a single
/// identifier other than a keyword and returns that identifier. On ASCII text
/// the compiler's lexer and proc-macro2's own agree, so the outcome depends on
/// the text alone; on other text it may depend on the lexer in use, and nothing
/// is claimed of it.
#[verifier::external_body]
pub(crate) fn parse_ident(s: &String) -> (r: Option<String>)
    ensures
        is_ascii_chars(s@) ==> (r.is_some() == parsed_ident(s@).is_some()),
        is_ascii_chars(s@) && r.is_some() ==> r.unwrap()@ == parsed_ident(s@).unwrap(),
{
    syn::parse_str::<syn::Ident>(s).ok().map(|i| i.to_string())
}

} // verus!
