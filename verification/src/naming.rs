//! Names for the free functions of a bridge. CXX has no static methods, so
//! the constructors of every object of a bridge share one namespace; the name
//! of the object is worked into each of them to keep them apart.

use vstd::prelude::*;
use vstd::string::*;
use crate::syntax::Ident;

verus! {

/// What `convert_case` makes of `text` when asked for snake case: the words
/// of `text`, in lower case, joined by underscores.
pub uninterp spec fn snake_case(text: Seq<char>) -> Seq<char>;

/// `convert_case::Casing::to_case` with `Case::Snake`. The conversion splits
/// `text` into words with the crate's default boundaries, lowers each word and
/// joins them with `_`; it reads nothing but `text`.
#[verifier::external_body]
fn to_snake_case(text: &str) -> (snake: String)
    ensures
        snake@ == snake_case(text@),
{
    convert_case::Casing::to_case(&text, convert_case::Case::Snake)
}

/// The name that `mangle` gives to `name` for the object `object`.
pub open spec fn mangled(name: Seq<char>, object: Seq<char>) -> Seq<char> {
    snake_case(name + "_"@ + object)
}

/// Mangle an input name with an object name: `name`, an underscore and
/// `object`, brought to snake case as a whole.
pub fn mangle(name: &str, object: &Ident) -> (ident: Ident)
    ensures
        ident@ == mangled(name@, object@),
{
    let mut joined = String::from_str(name);
    joined.append("_");
    joined.append(object.as_str());
    Ident { name: to_snake_case(joined.as_str()) }
}

} // verus!
