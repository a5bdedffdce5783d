//! URL-friendly identifiers derived from display names.

use vstd::prelude::*;

verus! {

/// The slug of a text: what `slug::slugify` makes of it. The transliteration
/// tables behind it are not modelled; equal texts have equal slugs.
pub uninterp spec fn slug_of(text: Seq<char>) -> Seq<char>;

/// Calls `slug::slugify`, which lower-cases ASCII letters, transliterates
/// everything else to ASCII and joins the alphanumeric runs with single
/// dashes. The contract only names the result: it is a function of the text
/// alone.
#[verifier::external_body]
pub(crate) fn slugify(text: &str) -> (slug: String)
    ensures
        slug@ == slug_of(text@),
{
    slug::slugify(text)
}

/// The texts that a list of strings holds.
pub open spec fn texts_of(slugs: Seq<String>) -> Seq<Seq<char>> {
    slugs.map_values(|slug: String| slug@)
}

/// Whether `found` is the first position of `wanted` in `slugs`, or nothing
/// where `wanted` does not occur.
pub open spec fn is_first_match(slugs: Seq<Seq<char>>, wanted: Seq<char>, found: Option<usize>) -> bool {
    match found {
        Some(position) => {
            &&& position < slugs.len()
            &&& slugs[position as int] == wanted
            &&& forall|earlier: int| 0 <= earlier < position ==> slugs[earlier] != wanted
        },
        None => forall|any: int| 0 <= any < slugs.len() ==> slugs[any] != wanted,
    }
}

/// The first position in `slugs` that holds exactly `wanted`.
pub fn position_of(slugs: &Vec<String>, wanted: &str) -> (found: Option<usize>)
    ensures
        is_first_match(texts_of(slugs@), wanted@, found),
{
    let target = wanted.to_owned();
    let mut i: usize = 0;
    while i < slugs.len()
        invariant
            i <= slugs@.len(),
            target@ == wanted@,
            forall|earlier: int| 0 <= earlier < i ==> texts_of(slugs@)[earlier] != wanted@,
        decreases slugs@.len() - i,
    {
        if slugs[i] == target {
            return Some(i);
        }
        i += 1;
    }
    None
}

} // verus!
