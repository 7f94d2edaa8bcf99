//! What the packaging stage is told: the bundles that were produced, the
//! build settings, and the operating system the build targets.

use crate::path::{BundlePath, ComponentView};
use crate::text::{dash_field, field_of, str_eq};
use vstd::prelude::*;

verus! {

/// The kinds of package a build can produce.
#[derive(Clone, Copy, Debug, PartialEq, Eq, Structural)]
pub enum PackageType {
    /// The macOS application bundle (.app).
    MacOsBundle,
    /// The iOS app bundle.
    IosBundle,
    /// The Windows installer built with WiX (.msi).
    WindowsMsi,
    /// The Windows installer built with NSIS (.exe).
    Nsis,
    /// The Linux Debian package (.deb).
    Deb,
    /// The Linux RPM package (.rpm).
    Rpm,
    /// The Linux AppImage (.AppImage).
    AppImage,
    /// The macOS disk image (.dmg).
    Dmg,
    /// The updater archive itself.
    Updater,
}

/// How a Windows installer provides the webview runtime.
#[derive(Clone, Copy, Debug, PartialEq, Eq, Structural)]
pub enum WebviewInstallMode {
    /// The installer does not install the runtime.
    Skip,
    /// The installer downloads the bootstrapper and runs it.
    DownloadBootstrapper,
    /// The installer carries the bootstrapper.
    EmbedBootstrapper,
    /// The installer carries the offline installer.
    OfflineInstaller,
    /// The application ships a fixed version of the runtime.
    FixedRuntime,
}

/// The operating system a build targets, as far as updater packaging
/// tells them apart.
#[derive(Clone, Copy, Debug, PartialEq, Eq, Structural)]
pub enum TargetOs {
    Windows,
    MacOs,
    Linux,
    /// Any other system: it has no updater packaging.
    Unsupported,
}

/// The build settings that updater packaging reads.
#[derive(Debug)]
pub struct Settings {
    /// The target triple of the build, such as `x86_64-pc-windows-msvc`.
    pub target: String,
    /// The name of the operating system that runs the build, such as
    /// `linux`. It stands in where the triple names no system, and decides
    /// which installers can be built here.
    pub host_os: String,
    /// How the Windows installers provide the webview runtime.
    pub webview_install_mode: WebviewInstallMode,
}

/// The packages of one type that a build produced.
#[derive(Debug)]
pub struct Bundle {
    /// The type of the packages.
    pub package_type: PackageType,
    /// Where they were written, in the order they were produced.
    pub bundle_paths: Vec<BundlePath>,
}

/// The mathematical value of a `Bundle`.
pub struct BundleView {
    pub package_type: PackageType,
    pub bundle_paths: Seq<Seq<ComponentView>>,
}

/// The values of a sequence of paths, in order.
pub open spec fn paths_view(paths: Seq<BundlePath>) -> Seq<Seq<ComponentView>> {
    Seq::new(paths.len(), |i: int| paths[i]@)
}

impl View for Bundle {
    type V = BundleView;

    open spec fn view(&self) -> BundleView {
        BundleView {
            package_type: self.package_type,
            bundle_paths: paths_view(self.bundle_paths@),
        }
    }
}

/// The values of a sequence of bundles, in order.
pub open spec fn bundles_view(bundles: Seq<Bundle>) -> Seq<BundleView> {
    Seq::new(bundles.len(), |i: int| bundles[i]@)
}

/// The operating system name that a target triple carries: its third
/// dash-separated field, or the host's name where the triple has fewer
/// than three fields.
pub open spec fn os_name(target: Seq<char>, host_os: Seq<char>) -> Seq<char> {
    match dash_field(target, 2) {
        Some(name) => name,
        None => host_os,
    }
}

/// The operating system that a name stands for. `darwin` is another name
/// for macOS.
pub open spec fn classify_os(name: Seq<char>) -> TargetOs {
    if name == "windows"@ {
        TargetOs::Windows
    } else if name == "darwin"@ || name == "macos"@ {
        TargetOs::MacOs
    } else if name == "linux"@ {
        TargetOs::Linux
    } else {
        TargetOs::Unsupported
    }
}

/// The operating system that a build with this triple, on this host,
/// targets.
pub open spec fn target_os_of(target: Seq<char>, host_os: Seq<char>) -> TargetOs {
    classify_os(os_name(target, host_os))
}

/// Whether installers built with WiX can be built on a host of this name:
/// only on Windows.
pub open spec fn host_builds_msi(host_os: Seq<char>) -> bool {
    host_os == "windows"@
}

/// Whether a package type is one of the two Windows installer families.
pub open spec fn is_installer(package_type: PackageType) -> bool {
    package_type == PackageType::WindowsMsi || package_type == PackageType::Nsis
}

impl PackageType {
    /// Whether this is one of the two Windows installer families.
    pub fn is_installer(&self) -> (r: bool)
        ensures
            r == is_installer(*self),
    {
        match self {
            PackageType::WindowsMsi => true,
            PackageType::Nsis => true,
            _ => false,
        }
    }
}

impl Settings {
    /// The operating system this build targets.
    pub fn target_os(&self) -> (r: TargetOs)
        ensures
            r == target_os_of(self.target@, self.host_os@),
    {
        let name = match field_of(self.target.as_str(), 2) {
            Some(name) => name,
            None => self.host_os.as_str(),
        };
        if str_eq(name, "windows") {
            TargetOs::Windows
        } else if str_eq(name, "darwin") || str_eq(name, "macos") {
            TargetOs::MacOs
        } else if str_eq(name, "linux") {
            TargetOs::Linux
        } else {
            TargetOs::Unsupported
        }
    }

    /// Whether installers built with WiX can be built on this host.
    pub fn host_builds_msi(&self) -> (r: bool)
        ensures
            r == host_builds_msi(self.host_os@),
    {
        str_eq(self.host_os.as_str(), "windows")
    }
}

} // verus!
