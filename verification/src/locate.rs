//! Finding the artifact to package among the bundles that were produced.

use crate::model::{bundles_view, Bundle, BundleView, PackageType};
use crate::path::{extension_of_path, BundlePath, ComponentView};
use crate::text::str_eq;
use vstd::prelude::*;

verus! {

/// Whether path `j` of bundle `i` is an artifact of the wanted package
/// type with the wanted extension.
pub open spec fn is_match(
    bundles: Seq<BundleView>,
    package_type: PackageType,
    extension: Seq<char>,
    i: int,
    j: int,
) -> bool {
    &&& 0 <= i < bundles.len()
    &&& bundles[i].package_type == package_type
    &&& 0 <= j < bundles[i].bundle_paths.len()
    &&& extension_of_path(bundles[i].bundle_paths[j]) == Some(extension)
}

/// Whether position `(i1, j1)` comes before `(i2, j2)`: in an earlier
/// bundle, or earlier in the same bundle.
pub open spec fn comes_before(i1: int, j1: int, i2: int, j2: int) -> bool {
    i1 < i2 || (i1 == i2 && j1 < j2)
}

/// Whether `(i, j)` is a match before which no match comes.
pub open spec fn is_first_match(
    bundles: Seq<BundleView>,
    package_type: PackageType,
    extension: Seq<char>,
    i: int,
    j: int,
) -> bool {
    &&& is_match(bundles, package_type, extension, i, j)
    &&& forall|a: int, b: int| #[trigger]
        is_match(bundles, package_type, extension, a, b) ==> !comes_before(a, b, i, j)
}

/// Whether any path of any bundle matches.
pub open spec fn has_match(
    bundles: Seq<BundleView>,
    package_type: PackageType,
    extension: Seq<char>,
) -> bool {
    exists|i: int, j: int| is_match(bundles, package_type, extension, i, j)
}

/// The artifact that discovery selects: the first match in bundle order,
/// then path order, if there is any match.
pub open spec fn found_artifact(
    bundles: Seq<BundleView>,
    package_type: PackageType,
    extension: Seq<char>,
) -> Option<Seq<ComponentView>> {
    if exists|i: int, j: int| is_first_match(bundles, package_type, extension, i, j) {
        let (i, j) = choose|i: int, j: int|
            is_first_match(bundles, package_type, extension, i, j);
        Some(bundles[i].bundle_paths[j])
    } else {
        None
    }
}

/// Two first matches are the same position.
pub proof fn lemma_first_match_unique(
    bundles: Seq<BundleView>,
    package_type: PackageType,
    extension: Seq<char>,
    i1: int,
    j1: int,
    i2: int,
    j2: int,
)
    requires
        is_first_match(bundles, package_type, extension, i1, j1),
        is_first_match(bundles, package_type, extension, i2, j2),
    ensures
        i1 == i2,
        j1 == j2,
{
}

/// Where a match exists, a first match exists.
pub proof fn lemma_first_match_exists(
    bundles: Seq<BundleView>,
    package_type: PackageType,
    extension: Seq<char>,
    i: int,
    j: int,
)
    requires
        is_match(bundles, package_type, extension, i, j),
    ensures
        exists|a: int, b: int| is_first_match(bundles, package_type, extension, a, b),
    decreases i, j,
{
    if exists|a: int, b: int|
        is_match(bundles, package_type, extension, a, b) && comes_before(a, b, i, j) {
        let (a, b) = choose|a: int, b: int|
            is_match(bundles, package_type, extension, a, b) && comes_before(a, b, i, j);
        lemma_first_match_exists(bundles, package_type, extension, a, b);
    } else {
        assert(is_first_match(bundles, package_type, extension, i, j));
    }
}

/// Discovery is a function of its input, and selects the first match.
///
/// Whatever the bundles, the selected artifact is the path at the first
/// matching position; it is absent exactly where no path matches. Running
/// discovery again on the same bundles therefore selects the same
/// artifact.
pub proof fn lemma_found_artifact(
    bundles: Seq<BundleView>,
    package_type: PackageType,
    extension: Seq<char>,
)
    ensures
        found_artifact(bundles, package_type, extension) is Some <==> has_match(
            bundles,
            package_type,
            extension,
        ),
        forall|i: int, j: int| #[trigger]
            is_first_match(bundles, package_type, extension, i, j) ==> found_artifact(
                bundles,
                package_type,
                extension,
            ) == Some(bundles[i].bundle_paths[j]),
{
    if has_match(bundles, package_type, extension) {
        let (i, j) = choose|i: int, j: int| is_match(bundles, package_type, extension, i, j);
        lemma_first_match_exists(bundles, package_type, extension, i, j);
    }
    assert forall|i: int, j: int| #[trigger]
        is_first_match(bundles, package_type, extension, i, j) implies found_artifact(
        bundles,
        package_type,
        extension,
    ) == Some(bundles[i].bundle_paths[j]) by {
        let (a, b) = choose|a: int, b: int|
            is_first_match(bundles, package_type, extension, a, b);
        lemma_first_match_unique(bundles, package_type, extension, i, j, a, b);
    }
}

/// The first path with the wanted extension among the bundles of the
/// wanted package type, in bundle order, then path order.
pub fn find_artifact<'a>(bundles: &'a [Bundle], package_type: PackageType, extension: &str) -> (r:
    Option<&'a BundlePath>)
    ensures
        match r {
            Some(p) => {
                &&& found_artifact(bundles_view(bundles@), package_type, extension@) == Some(p@)
                &&& exists|i: int, j: int|
                    is_first_match(bundles_view(bundles@), package_type, extension@, i, j) && *p
                        == #[trigger] bundles@[i].bundle_paths@[j]
            },
            None => {
                &&& found_artifact(bundles_view(bundles@), package_type, extension@) is None
                &&& !has_match(bundles_view(bundles@), package_type, extension@)
            },
        },
{
    let ghost view = bundles_view(bundles@);
    let mut i: usize = 0;
    while i < bundles.len()
        invariant
            i <= bundles.len(),
            view == bundles_view(bundles@),
            forall|a: int, b: int|
                #[trigger] is_match(view, package_type, extension@, a, b) ==> a >= i,
        decreases bundles.len() - i,
    {
        let bundle = &bundles[i];
        if bundle.package_type == package_type {
            let mut j: usize = 0;
            while j < bundle.bundle_paths.len()
                invariant
                    i < bundles.len(),
                    j <= bundle.bundle_paths.len(),
                    *bundle == bundles@[i as int],
                    bundle.package_type == package_type,
                    view == bundles_view(bundles@),
                    forall|a: int, b: int|
                        #[trigger] is_match(view, package_type, extension@, a, b) ==> a > i || (a
                            == i && b >= j),
                decreases bundle.bundle_paths.len() - j,
            {
                let path = &bundle.bundle_paths[j];
                let hit = match path.extension() {
                    Some(e) => str_eq(e, extension),
                    None => false,
                };
                if hit {
                    assert(is_first_match(view, package_type, extension@, i as int, j as int));
                    proof {
                        lemma_found_artifact(view, package_type, extension@);
                    }
                    return Some(path);
                }
                j += 1;
            }
        }
        i += 1;
    }
    proof {
        lemma_found_artifact(view, package_type, extension@);
    }
    None
}

} // verus!
