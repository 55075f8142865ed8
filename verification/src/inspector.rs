//! Names of types as the inspector shows them.
use vstd::prelude::*;

verus! {

/// What `ShortName`'s `Display` writes for a type path (the path with its module
/// prefixes removed, inside generic arguments too); a function of the path alone.
pub uninterp spec fn short_name(path: Seq<char>) -> Seq<char>;

/// Shortens a type path with `bevy::utils::prelude::ShortName`, as the inspector
/// shows type names: claims that the text is the name `short_name` of the path.
#[verifier::external_body]
pub fn pretty_type_name_str(val: &str) -> (r: String)
    ensures
        r@ == short_name(val@),
{
    format!("{}", bevy::utils::prelude::ShortName(val))
}

} // verus!
