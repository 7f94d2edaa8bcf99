//! Where the archive of a Windows installer goes.
//!
//! The installer toolchains write into a folder named after the installer
//! family, or, when they build for the updater, into that name followed by
//! `-updater`. The archive is named after the installer, in the family's
//! plain folder, with the family's name and `.zip` in place of the
//! installer's extension.

use crate::path::{
    components_view, path_with_extension, BundlePath, Component, ComponentView,
};
use crate::text::{join, str_eq};
use vstd::prelude::*;
use vstd::string::*;

verus! {

/// The folder that holds the installers built with WiX.
pub const WIX_OUTPUT_FOLDER_NAME: &'static str = "msi";

/// The folder that holds the installers built with WiX for the updater.
pub const WIX_UPDATER_OUTPUT_FOLDER_NAME: &'static str = "msi-updater";

/// The folder that holds the installers built with NSIS.
pub const NSIS_OUTPUT_FOLDER_NAME: &'static str = "nsis";

/// The folder that holds the installers built with NSIS for the updater.
pub const NSIS_UPDATER_OUTPUT_FOLDER_NAME: &'static str = "nsis-updater";

/// What is put in place of an installer's extension, after the bundle
/// name.
pub const ARCHIVE_SUFFIX: &'static str = ".zip";

/// Whether `name` is the updater folder of either installer family.
pub open spec fn is_updater_folder(name: Seq<char>) -> bool {
    name == WIX_UPDATER_OUTPUT_FOLDER_NAME@ || name == NSIS_UPDATER_OUTPUT_FOLDER_NAME@
}

/// The plain folder name of the installer family that `name` is a folder
/// of, if it is the plain or the updater folder of either family.
pub open spec fn folder_family(name: Seq<char>) -> Option<Seq<char>> {
    if name == WIX_UPDATER_OUTPUT_FOLDER_NAME@ || name == WIX_OUTPUT_FOLDER_NAME@ {
        Some(WIX_OUTPUT_FOLDER_NAME@)
    } else if name == NSIS_UPDATER_OUTPUT_FOLDER_NAME@ || name == NSIS_OUTPUT_FOLDER_NAME@ {
        Some(NSIS_OUTPUT_FOLDER_NAME@)
    } else {
        None
    }
}

/// The family that a component names, if it is a name and a folder of
/// either family.
pub open spec fn component_family(component: ComponentView) -> Option<Seq<char>> {
    match component {
        ComponentView::Normal(name) => folder_family(name),
        _ => None,
    }
}

/// A component as it stands in the archive's path: an updater folder gives
/// way to the plain folder of its family, anything else stays.
pub open spec fn rewritten_component(component: ComponentView) -> ComponentView {
    match component {
        ComponentView::Normal(name) => if is_updater_folder(name) {
            ComponentView::Normal(folder_family(name)->0)
        } else {
            component
        },
        _ => component,
    }
}

/// The components of `path`, each rewritten.
pub open spec fn rewritten_components(path: Seq<ComponentView>) -> Seq<ComponentView> {
    Seq::new(path.len(), |i: int| rewritten_component(path[i]))
}

/// The bundle name of `path`: the family of the last component that is a
/// folder of either family, or the empty name where there is none.
pub open spec fn bundle_name_of(path: Seq<ComponentView>) -> Seq<char>
    decreases path.len(),
{
    if path.len() == 0 {
        Seq::empty()
    } else {
        match component_family(path.last()) {
            Some(family) => family,
            None => bundle_name_of(path.drop_last()),
        }
    }
}

/// Where the archive of the installer at `path` goes: the rewritten
/// components, with the bundle name and `.zip` in place of the extension.
pub open spec fn archived_path(path: Seq<ComponentView>) -> Seq<ComponentView> {
    path_with_extension(rewritten_components(path), bundle_name_of(path) + ARCHIVE_SUFFIX@)
}

/// The folder names: an updater folder is its family's plain folder
/// followed by `-updater`, each of the four belongs to its family, and a
/// plain folder is no updater folder.
pub proof fn lemma_folder_names()
    ensures
        WIX_OUTPUT_FOLDER_NAME@ == seq!['m', 's', 'i'],
        NSIS_OUTPUT_FOLDER_NAME@ == seq!['n', 's', 'i', 's'],
        WIX_UPDATER_OUTPUT_FOLDER_NAME@ == WIX_OUTPUT_FOLDER_NAME@ + "-updater"@,
        NSIS_UPDATER_OUTPUT_FOLDER_NAME@ == NSIS_OUTPUT_FOLDER_NAME@ + "-updater"@,
        folder_family(WIX_OUTPUT_FOLDER_NAME@) == Some(WIX_OUTPUT_FOLDER_NAME@),
        folder_family(WIX_UPDATER_OUTPUT_FOLDER_NAME@) == Some(WIX_OUTPUT_FOLDER_NAME@),
        folder_family(NSIS_OUTPUT_FOLDER_NAME@) == Some(NSIS_OUTPUT_FOLDER_NAME@),
        folder_family(NSIS_UPDATER_OUTPUT_FOLDER_NAME@) == Some(NSIS_OUTPUT_FOLDER_NAME@),
        is_updater_folder(WIX_UPDATER_OUTPUT_FOLDER_NAME@),
        is_updater_folder(NSIS_UPDATER_OUTPUT_FOLDER_NAME@),
        !is_updater_folder(WIX_OUTPUT_FOLDER_NAME@),
        !is_updater_folder(NSIS_OUTPUT_FOLDER_NAME@),
{
    reveal_strlit("msi");
    reveal_strlit("msi-updater");
    reveal_strlit("nsis");
    reveal_strlit("nsis-updater");
    reveal_strlit("-updater");
}

/// A path in which no component is a folder of either family keeps its
/// components and gets `.zip` alone as its extension.
pub proof fn lemma_archived_path_without_folder(path: Seq<ComponentView>)
    requires
        forall|i: int| 0 <= i < path.len() ==> component_family(#[trigger] path[i]) is None,
    ensures
        bundle_name_of(path) == Seq::<char>::empty(),
        rewritten_components(path) == path,
        archived_path(path) == path_with_extension(path, ARCHIVE_SUFFIX@),
    decreases path.len(),
{
    if path.len() > 0 {
        lemma_archived_path_without_folder(path.drop_last());
    }
}

/// The plain folder name of the family that `name` is a folder of, and
/// whether `name` is that family's updater folder.
fn family_of(name: &str) -> (r: Option<(&'static str, bool)>)
    ensures
        match r {
            Some((family, updater)) => folder_family(name@) == Some(family@) && updater
                == is_updater_folder(name@),
            None => folder_family(name@) is None && !is_updater_folder(name@),
        },
{
    proof {
        lemma_folder_names();
    }
    if str_eq(name, WIX_UPDATER_OUTPUT_FOLDER_NAME) {
        Some((WIX_OUTPUT_FOLDER_NAME, true))
    } else if str_eq(name, NSIS_UPDATER_OUTPUT_FOLDER_NAME) {
        Some((NSIS_OUTPUT_FOLDER_NAME, true))
    } else if str_eq(name, WIX_OUTPUT_FOLDER_NAME) {
        Some((WIX_OUTPUT_FOLDER_NAME, false))
    } else if str_eq(name, NSIS_OUTPUT_FOLDER_NAME) {
        Some((NSIS_OUTPUT_FOLDER_NAME, false))
    } else {
        None
    }
}

/// The result of rewriting an installer's path.
#[derive(Debug, PartialEq, Eq)]
pub struct ArchivedPath {
    /// Where the archive goes.
    pub path: BundlePath,
    /// The bundle name that was found on the way: the installer family's
    /// plain folder name, or the empty name.
    pub bundle_name: String,
}

/// Where the archive of the installer at `source` goes, and the bundle
/// name found in `source`.
pub fn rewrite(source: &BundlePath) -> (r: ArchivedPath)
    ensures
        r.path@ == archived_path(source@),
        r.bundle_name@ == bundle_name_of(source@),
{
    let mut components: Vec<Component> = Vec::new();
    let mut bundle_name: &str = "";
    proof {
        reveal_strlit("");
    }
    let n = source.components.len();
    let mut i: usize = 0;
    while i < n
        invariant
            i <= n,
            n == source.components.len(),
            components.len() == i,
            forall|k: int| 0 <= k < i ==> components@[k]@ == rewritten_component(source@[k]),
            bundle_name@ == bundle_name_of(source@.take(i as int)),
        decreases n - i,
    {
        let component = &source.components[i];
        assert(source@.take(i + 1).drop_last() =~= source@.take(i as int));
        let rewritten = match component {
            Component::Normal(name) => {
                match family_of(name.as_str()) {
                    Some((family, updater)) => {
                        bundle_name = family;
                        if updater {
                            Component::Normal(String::from_str(family))
                        } else {
                            component.clone()
                        }
                    },
                    None => component.clone(),
                }
            },
            _ => component.clone(),
        };
        components.push(rewritten);
        i += 1;
    }
    assert(source@.take(n as int) =~= source@);
    let rewritten = BundlePath { components };
    let extension = join(bundle_name, ARCHIVE_SUFFIX);
    ArchivedPath {
        path: rewritten.with_extension(extension.as_str()),
        bundle_name: String::from_str(bundle_name),
    }
}

} // verus!
