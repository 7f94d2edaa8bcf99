//! A filesystem path as the sequence of its components.
//!
//! The packaging rules read a path component by component and look at the
//! name and the extension of its last component. `BundlePath` holds exactly
//! that: the components in order, each told apart the way
//! `std::path::Path::components` tells them apart. A caller that works with
//! `std::path::PathBuf` converts at the boundary.

use crate::text::{extension_of, join, name_extension, name_with_extension, with_extension};
use vstd::prelude::*;
use vstd::string::*;

verus! {

/// One component of a path.
#[derive(Debug, PartialEq, Eq)]
pub enum Component {
    /// A Windows drive or share prefix, kept as its text.
    Prefix(String),
    /// The root directory.
    RootDir,
    /// The current directory, `.`.
    CurDir,
    /// The parent directory, `..`.
    ParentDir,
    /// A directory or file name.
    Normal(String),
}

/// The mathematical value of a `Component`.
pub enum ComponentView {
    Prefix(Seq<char>),
    RootDir,
    CurDir,
    ParentDir,
    Normal(Seq<char>),
}

impl View for Component {
    type V = ComponentView;

    open spec fn view(&self) -> ComponentView {
        match self {
            Component::Prefix(text) => ComponentView::Prefix(text@),
            Component::RootDir => ComponentView::RootDir,
            Component::CurDir => ComponentView::CurDir,
            Component::ParentDir => ComponentView::ParentDir,
            Component::Normal(name) => ComponentView::Normal(name@),
        }
    }
}

impl Clone for Component {
    fn clone(&self) -> (r: Self)
        ensures
            r == *self,
    {
        match self {
            Component::Prefix(text) => Component::Prefix(text.clone()),
            Component::RootDir => Component::RootDir,
            Component::CurDir => Component::CurDir,
            Component::ParentDir => Component::ParentDir,
            Component::Normal(name) => Component::Normal(name.clone()),
        }
    }
}

/// The values of a sequence of components, in order.
pub open spec fn components_view(components: Seq<Component>) -> Seq<ComponentView> {
    Seq::new(components.len(), |i: int| components[i]@)
}

/// The name of the last component of `path`, if that component is a name.
pub open spec fn file_name_of(path: Seq<ComponentView>) -> Option<Seq<char>> {
    if path.len() > 0 {
        match path.last() {
            ComponentView::Normal(name) => Some(name),
            _ => None,
        }
    } else {
        None
    }
}

/// The extension of the file name of `path`, if it has both.
pub open spec fn extension_of_path(path: Seq<ComponentView>) -> Option<Seq<char>> {
    match file_name_of(path) {
        Some(name) => name_extension(name),
        None => None,
    }
}

/// `path` without its last component. A path that is empty, or that ends
/// in a root or a prefix, has no parent.
pub open spec fn parent_of(path: Seq<ComponentView>) -> Option<Seq<ComponentView>> {
    if path.len() > 0 {
        match path.last() {
            ComponentView::Prefix(_) => None,
            ComponentView::RootDir => None,
            _ => Some(path.drop_last()),
        }
    } else {
        None
    }
}

/// `path` with `name` in place of its file name. A path without a file
/// name stays as it is.
pub open spec fn with_file_name(path: Seq<ComponentView>, name: Seq<char>) -> Seq<ComponentView> {
    if file_name_of(path) is Some {
        path.drop_last().push(ComponentView::Normal(name))
    } else {
        path
    }
}

/// `path` with the extension of its file name replaced by `extension`.
/// A path without a file name stays as it is.
pub open spec fn path_with_extension(path: Seq<ComponentView>, extension: Seq<char>) -> Seq<
    ComponentView,
> {
    match file_name_of(path) {
        Some(name) => with_file_name(path, name_with_extension(name, extension)),
        None => path,
    }
}

/// `path` with `suffix` appended to its file name. A path without a file
/// name stays as it is.
pub open spec fn path_with_suffix(path: Seq<ComponentView>, suffix: Seq<char>) -> Seq<
    ComponentView,
> {
    match file_name_of(path) {
        Some(name) => with_file_name(path, name + suffix),
        None => path,
    }
}

/// A path: its components, first to last.
#[derive(Debug, PartialEq, Eq)]
pub struct BundlePath {
    pub components: Vec<Component>,
}

impl View for BundlePath {
    type V = Seq<ComponentView>;

    open spec fn view(&self) -> Seq<ComponentView> {
        components_view(self.components@)
    }
}

impl Clone for BundlePath {
    fn clone(&self) -> (r: Self)
        ensures
            r@ == self@,
    {
        BundlePath { components: self.leading(self.components.len()) }
    }
}

impl BundlePath {
    /// The empty path.
    pub fn new() -> (r: BundlePath)
        ensures
            r@ == Seq::<ComponentView>::empty(),
    {
        BundlePath { components: Vec::new() }
    }

    /// Copies of the first `n` components.
    fn leading(&self, n: usize) -> (r: Vec<Component>)
        requires
            n <= self.components.len(),
        ensures
            components_view(r@) == self@.take(n as int),
    {
        let mut r: Vec<Component> = Vec::new();
        let mut i: usize = 0;
        while i < n
            invariant
                i <= n <= self.components.len(),
                r.len() == i,
                forall|k: int| 0 <= k < i ==> r@[k] == self.components@[k],
            decreases n - i,
        {
            r.push(self.components[i].clone());
            i += 1;
        }
        r
    }

    /// Appends `component` to the path.
    pub fn push(&mut self, component: Component)
        ensures
            final(self)@ == old(self)@.push(component@),
    {
        self.components.push(component);
    }

    /// The name of the last component, if that component is a name.
    pub fn file_name(&self) -> (r: Option<&str>)
        ensures
            match r {
                Some(name) => file_name_of(self@) == Some(name@),
                None => file_name_of(self@) is None,
            },
    {
        let n = self.components.len();
        if n == 0 {
            return None;
        }
        match &self.components[n - 1] {
            Component::Normal(name) => Some(name.as_str()),
            _ => None,
        }
    }

    /// The extension of the file name, if the path has both.
    pub fn extension(&self) -> (r: Option<&str>)
        ensures
            match r {
                Some(e) => extension_of_path(self@) == Some(e@),
                None => extension_of_path(self@) is None,
            },
    {
        match self.file_name() {
            Some(name) => extension_of(name),
            None => None,
        }
    }

    /// The path without its last component, if it has a parent.
    pub fn parent(&self) -> (r: Option<BundlePath>)
        ensures
            match r {
                Some(p) => parent_of(self@) == Some(p@),
                None => parent_of(self@) is None,
            },
    {
        let n = self.components.len();
        if n == 0 {
            return None;
        }
        match &self.components[n - 1] {
            Component::Prefix(_) => None,
            Component::RootDir => None,
            _ => Some(BundlePath { components: self.leading(n - 1) }),
        }
    }

    /// The path with `name` in place of its file name.
    fn replace_file_name(&self, name: String) -> (r: BundlePath)
        requires
            file_name_of(self@) is Some,
        ensures
            r@ == with_file_name(self@, name@),
    {
        let n = self.components.len();
        let mut components = self.leading(n - 1);
        components.push(Component::Normal(name));
        BundlePath { components }
    }

    /// The path with the extension of its file name replaced by
    /// `extension`; unchanged where it has no file name.
    pub fn with_extension(&self, extension: &str) -> (r: BundlePath)
        ensures
            r@ == path_with_extension(self@, extension@),
    {
        match self.file_name() {
            Some(name) => self.replace_file_name(with_extension(name, extension)),
            None => self.clone(),
        }
    }

    /// The path with `suffix` appended to its file name; unchanged where it
    /// has no file name.
    pub fn with_suffix(&self, suffix: &str) -> (r: BundlePath)
        ensures
            r@ == path_with_suffix(self@, suffix@),
    {
        match self.file_name() {
            Some(name) => self.replace_file_name(join(name, suffix)),
            None => self.clone(),
        }
    }
}

} // verus!
