//! What the library asks of the standard library about a file path.
//!
//! Both answers depend on nothing but the text that is handed in, so each has
//! a name under which contracts can speak of it. Neither contract is proved.

use crate::text::text_of;
use vstd::prelude::*;

verus! {

/// The extension that `std::path::Path::extension` finds in a path: the part
/// of the file name after its last dot. There is none if the path has no file
/// name, or if the file name has no dot but, at most, a leading one. What the
/// file name is goes by the path rules of the target the library is built
/// for.
pub uninterp spec fn path_extension(path: Seq<char>) -> Option<Seq<char>>;

/// The text that `str::to_lowercase` makes of a text.
pub uninterp spec fn lowercase(text: Seq<char>) -> Seq<char>;

/// `std::path::Path::extension`, on a path given as text.
#[verifier::external_body]
pub(crate) fn extension_of<'a>(path: &'a str) -> (r: Option<&'a str>)
    ensures
        text_of(r) == path_extension(path@),
{
    std::path::Path::new(path).extension()?.to_str()
}

/// `str::to_lowercase`.
#[verifier::external_body]
pub(crate) fn lowercased(text: &str) -> (r: String)
    ensures
        r@ == lowercase(text@),
{
    text.to_lowercase()
}

} // verus!
