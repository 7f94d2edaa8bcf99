//! Deciding what to archive.
//!
//! The target operating system selects the routine. On macOS and Linux the
//! application that was built is found among the bundles and goes into a
//! gzip-compressed tar archive beside it. On Windows each installer goes
//! into a zip archive; where the installers at hand cannot be used, the
//! caller is told which ones to build first.

use crate::error::Error;
use crate::locate::{find_artifact, found_artifact, has_match, lemma_found_artifact};
use crate::model::{
    bundles_view, host_builds_msi, is_installer, paths_view, target_os_of, Bundle, BundleView,
    PackageType, Settings, TargetOs, WebviewInstallMode,
};
use crate::path::{path_with_suffix, BundlePath, ComponentView};
use crate::rewrite::{archived_path, rewrite};
use crate::text::dash_field;
use vstd::prelude::*;
use vstd::string::*;

verus! {

/// The extension of a macOS application bundle.
pub const MACOS_APP_EXTENSION: &'static str = "app";

/// The extension of a Linux AppImage.
pub const APPIMAGE_EXTENSION: &'static str = "AppImage";

/// What is appended to the name of an application to name its archive.
pub const TAR_GZ_SUFFIX: &'static str = ".tar.gz";

/// The container formats of an updater archive.
#[derive(Clone, Copy, Debug, PartialEq, Eq, Structural)]
pub enum ArchiveFormat {
    /// A zip archive that stores one file without compression.
    Zip,
    /// A gzip-compressed tar archive of a directory tree.
    TarGz,
}

/// One archive to produce.
#[derive(Debug, PartialEq, Eq)]
pub struct ArchiveJob {
    /// The artifact that goes into the archive.
    pub source: BundlePath,
    /// Where the archive goes.
    pub destination: BundlePath,
    /// The format of the archive.
    pub format: ArchiveFormat,
}

/// The mathematical value of an `ArchiveJob`.
pub struct ArchiveJobView {
    pub source: Seq<ComponentView>,
    pub destination: Seq<ComponentView>,
    pub format: ArchiveFormat,
}

impl View for ArchiveJob {
    type V = ArchiveJobView;

    open spec fn view(&self) -> ArchiveJobView {
        ArchiveJobView {
            source: self.source@,
            destination: self.destination@,
            format: self.format,
        }
    }
}

/// The values of a sequence of jobs, in order.
pub open spec fn jobs_view(jobs: Seq<ArchiveJob>) -> Seq<ArchiveJobView> {
    Seq::new(jobs.len(), |i: int| jobs[i]@)
}

/// What the caller does next.
#[derive(Debug, PartialEq, Eq)]
pub enum BundleStep {
    /// Nothing: the target has no updater packaging. No archive is
    /// produced, and that is no failure.
    Unsupported,
    /// Produce these archives, in this order.
    Archive(Vec<ArchiveJob>),
    /// Build an installer of each of these types for the updater, in this
    /// order, and hand the paths that were produced, in the order they were
    /// produced, to `archive_installers`.
    Rebuild(Vec<PackageType>),
}

/// The mathematical value of a `BundleStep`.
pub enum BundleStepView {
    Unsupported,
    Archive(Seq<ArchiveJobView>),
    Rebuild(Seq<PackageType>),
}

impl View for BundleStep {
    type V = BundleStepView;

    open spec fn view(&self) -> BundleStepView {
        match self {
            BundleStep::Unsupported => BundleStepView::Unsupported,
            BundleStep::Archive(jobs) => BundleStepView::Archive(jobs_view(jobs@)),
            BundleStep::Rebuild(types) => BundleStepView::Rebuild(types@),
        }
    }
}

/// The job that archives the application at `source`: a tar archive
/// beside it, named after it with `.tar.gz` appended.
pub open spec fn tar_job(source: Seq<ComponentView>) -> ArchiveJobView {
    ArchiveJobView {
        source,
        destination: path_with_suffix(source, TAR_GZ_SUFFIX@),
        format: ArchiveFormat::TarGz,
    }
}

/// The job that archives the installer at `source`: a zip archive at the
/// rewritten path.
pub open spec fn zip_job(source: Seq<ComponentView>) -> ArchiveJobView {
    ArchiveJobView { source, destination: archived_path(source), format: ArchiveFormat::Zip }
}

/// One zip job for each installer, in the installers' order.
pub open spec fn zip_jobs(installers: Seq<Seq<ComponentView>>) -> Seq<ArchiveJobView> {
    Seq::new(installers.len(), |i: int| zip_job(installers[i]))
}

/// Where the archives of `jobs` go, in the jobs' order.
pub open spec fn destinations(jobs: Seq<ArchiveJobView>) -> Seq<Seq<ComponentView>> {
    Seq::new(jobs.len(), |i: int| jobs[i].destination)
}

/// The jobs for the installers that were built: one for each, and none
/// where no installer was built, which is a failure.
pub open spec fn installer_jobs(installers: Seq<Seq<ComponentView>>) -> Option<
    Seq<ArchiveJobView>,
> {
    if installers.len() == 0 {
        None
    } else {
        Some(zip_jobs(installers))
    }
}

/// The jobs of the macOS and Linux routines: one tar job for the artifact
/// that discovery selects, and none where it selects nothing, which is a
/// failure.
pub open spec fn application_jobs(
    bundles: Seq<BundleView>,
    package_type: PackageType,
    extension: Seq<char>,
) -> Option<Seq<ArchiveJobView>> {
    match found_artifact(bundles, package_type, extension) {
        Some(source) => Some(seq![tar_job(source)]),
        None => None,
    }
}

/// The paths of all bundles that are Windows installers, in bundle order,
/// then path order.
pub open spec fn installer_paths(bundles: Seq<BundleView>) -> Seq<Seq<ComponentView>>
    decreases bundles.len(),
{
    if bundles.len() == 0 {
        Seq::empty()
    } else if is_installer(bundles.last().package_type) {
        installer_paths(bundles.drop_last()) + bundles.last().bundle_paths
    } else {
        installer_paths(bundles.drop_last())
    }
}

/// Whether an installer of this type is built again for the updater: an
/// NSIS installer always, a WiX installer where the host can build one.
pub open spec fn is_rebuilt(package_type: PackageType, builds_msi: bool) -> bool {
    package_type == PackageType::Nsis || (package_type == PackageType::WindowsMsi && builds_msi)
}

/// The installer types to build again: the type of each bundle whose
/// installer is built again, in bundle order.
pub open spec fn rebuild_list(bundles: Seq<BundleView>, builds_msi: bool) -> Seq<PackageType>
    decreases bundles.len(),
{
    if bundles.len() == 0 {
        Seq::empty()
    } else if is_rebuilt(bundles.last().package_type, builds_msi) {
        rebuild_list(bundles.drop_last(), builds_msi).push(bundles.last().package_type)
    } else {
        rebuild_list(bundles.drop_last(), builds_msi)
    }
}

/// Whether the installers of the primary build cannot serve the updater:
/// they carry the webview runtime or its bootstrapper.
pub open spec fn forces_rebuild(mode: WebviewInstallMode) -> bool {
    mode == WebviewInstallMode::OfflineInstaller || mode == WebviewInstallMode::EmbedBootstrapper
}

/// The step of the Windows routine: archive the installers at hand, or,
/// where they cannot serve or there is none, build them again.
pub open spec fn windows_step(
    mode: WebviewInstallMode,
    host_os: Seq<char>,
    bundles: Seq<BundleView>,
) -> BundleStepView {
    if forces_rebuild(mode) || installer_paths(bundles).len() == 0 {
        BundleStepView::Rebuild(rebuild_list(bundles, host_builds_msi(host_os)))
    } else {
        BundleStepView::Archive(zip_jobs(installer_paths(bundles)))
    }
}

/// The step that packaging takes for a target operating system; `None`
/// where it fails because the artifact to archive is not among the
/// bundles.
pub open spec fn step_for(
    os: TargetOs,
    mode: WebviewInstallMode,
    host_os: Seq<char>,
    bundles: Seq<BundleView>,
) -> Option<BundleStepView> {
    match os {
        TargetOs::Windows => Some(windows_step(mode, host_os, bundles)),
        TargetOs::MacOs => match application_jobs(
            bundles,
            PackageType::MacOsBundle,
            MACOS_APP_EXTENSION@,
        ) {
            Some(jobs) => Some(BundleStepView::Archive(jobs)),
            None => None,
        },
        TargetOs::Linux => match application_jobs(
            bundles,
            PackageType::AppImage,
            APPIMAGE_EXTENSION@,
        ) {
            Some(jobs) => Some(BundleStepView::Archive(jobs)),
            None => None,
        },
        TargetOs::Unsupported => Some(BundleStepView::Unsupported),
    }
}

/// The step that packaging takes for a build with the target triple
/// `target` on the host `host_os`.
pub open spec fn planned_step(
    target: Seq<char>,
    host_os: Seq<char>,
    mode: WebviewInstallMode,
    bundles: Seq<BundleView>,
) -> Option<BundleStepView> {
    step_for(target_os_of(target, host_os), mode, host_os, bundles)
}

/// The format that a target operating system's archives have.
pub open spec fn format_for(os: TargetOs) -> Option<ArchiveFormat> {
    match os {
        TargetOs::Windows => Some(ArchiveFormat::Zip),
        TargetOs::MacOs => Some(ArchiveFormat::TarGz),
        TargetOs::Linux => Some(ArchiveFormat::TarGz),
        TargetOs::Unsupported => None,
    }
}

/// Every target operating system uses exactly one archive format.
///
/// Each job that is planned for a Windows target is a zip job, also after
/// a rebuild, and each job that is planned for a macOS or Linux target is
/// a tar job. A triple whose third field is `windows` is a Windows target;
/// one whose third field is `darwin`, `macos` or `linux` is a macOS or
/// Linux target.
pub proof fn lemma_format_selection(
    target: Seq<char>,
    host_os: Seq<char>,
    mode: WebviewInstallMode,
    bundles: Seq<BundleView>,
    rebuilt: Seq<Seq<ComponentView>>,
)
    ensures
        planned_step(target, host_os, mode, bundles) matches Some(BundleStepView::Archive(jobs))
            ==> forall|i: int|
            0 <= i < jobs.len() ==> Some((#[trigger] jobs[i]).format) == format_for(
                target_os_of(target, host_os),
            ),
        installer_jobs(rebuilt) matches Some(jobs) ==> forall|i: int|
            0 <= i < jobs.len() ==> (#[trigger] jobs[i]).format == ArchiveFormat::Zip,
        dash_field(target, 2) == Some("windows"@) ==> format_for(target_os_of(target, host_os))
            == Some(ArchiveFormat::Zip),
        dash_field(target, 2) == Some("darwin"@) || dash_field(target, 2) == Some("macos"@)
            || dash_field(target, 2) == Some("linux"@) ==> format_for(
            target_os_of(target, host_os),
        ) == Some(ArchiveFormat::TarGz),
{
    reveal_strlit("windows");
    reveal_strlit("darwin");
    reveal_strlit("macos");
    reveal_strlit("linux");
    assert("darwin"@.len() == 6);
    assert("macos"@.len() == 5);
    assert("linux"@.len() == 5);
}

/// No artifact is skipped: the jobs for a list of installers are as many
/// as the installers, the job at each place archives the installer at that
/// place, and the archives that are reported are as many again, each where
/// the rewriting of its installer's path puts it.
pub proof fn lemma_one_job_per_installer(installers: Seq<Seq<ComponentView>>)
    ensures
        zip_jobs(installers).len() == installers.len(),
        destinations(zip_jobs(installers)).len() == installers.len(),
        forall|i: int|
            0 <= i < installers.len() ==> (#[trigger] zip_jobs(installers)[i]).source
                == installers[i],
        forall|i: int|
            0 <= i < installers.len() ==> #[trigger] destinations(zip_jobs(installers))[i]
                == archived_path(installers[i]),
{
}

/// A missing artifact is a failure, not an empty result.
///
/// For a macOS or Linux target packaging fails exactly where no bundle of
/// the wanted type holds a path with the wanted extension; so it does for
/// an empty bundle list, and for a list without a bundle of the wanted
/// type. For a Windows target without an installer path among the
/// bundles, the step is a rebuild; and where the rebuild produced nothing
/// either, the jobs for it fail.
pub proof fn lemma_missing_artifact(
    target: Seq<char>,
    host_os: Seq<char>,
    mode: WebviewInstallMode,
    bundles: Seq<BundleView>,
)
    ensures
        target_os_of(target, host_os) == TargetOs::MacOs ==> (planned_step(
            target,
            host_os,
            mode,
            bundles,
        ) is None <==> !has_match(bundles, PackageType::MacOsBundle, MACOS_APP_EXTENSION@)),
        target_os_of(target, host_os) == TargetOs::Linux ==> (planned_step(
            target,
            host_os,
            mode,
            bundles,
        ) is None <==> !has_match(bundles, PackageType::AppImage, APPIMAGE_EXTENSION@)),
        bundles.len() == 0 ==> !has_match(bundles, PackageType::MacOsBundle, MACOS_APP_EXTENSION@)
            && !has_match(bundles, PackageType::AppImage, APPIMAGE_EXTENSION@),
        forall|package_type: PackageType, extension: Seq<char>|
            (forall|i: int|
                0 <= i < bundles.len() ==> (#[trigger] bundles[i]).package_type != package_type)
                ==> !(#[trigger] has_match(bundles, package_type, extension)),
        target_os_of(target, host_os) == TargetOs::Windows && installer_paths(bundles).len() == 0
            ==> planned_step(target, host_os, mode, bundles) matches Some(
            BundleStepView::Rebuild(_),
        ),
        installer_jobs(Seq::empty()) is None,
{
    lemma_found_artifact(bundles, PackageType::MacOsBundle, MACOS_APP_EXTENSION@);
    lemma_found_artifact(bundles, PackageType::AppImage, APPIMAGE_EXTENSION@);
}

/// A target that is neither Windows, macOS nor Linux is no failure: the
/// step for it is to do nothing, whatever the bundles.
pub proof fn lemma_unsupported_platform(
    target: Seq<char>,
    host_os: Seq<char>,
    mode: WebviewInstallMode,
    bundles: Seq<BundleView>,
)
    requires
        target_os_of(target, host_os) == TargetOs::Unsupported,
    ensures
        planned_step(target, host_os, mode, bundles) == Some(BundleStepView::Unsupported),
{
}

/// The one tar job of the macOS and Linux routines.
fn bundle_update_application(bundles: &[Bundle], package_type: PackageType, extension: &str) -> (r:
    Result<Vec<ArchiveJob>, Error>)
    ensures
        match application_jobs(bundles_view(bundles@), package_type, extension@) {
            Some(jobs) => r matches Ok(j) && jobs_view(j@) == jobs,
            None => r matches Err(Error::ArtifactNotFound),
        },
{
    match find_artifact(bundles, package_type, extension) {
        Some(source) => {
            let job = ArchiveJob {
                source: source.clone(),
                destination: source.with_suffix(TAR_GZ_SUFFIX),
                format: ArchiveFormat::TarGz,
            };
            let mut jobs: Vec<ArchiveJob> = Vec::new();
            jobs.push(job);
            Ok(jobs)
        },
        None => Err(Error::ArtifactNotFound),
    }
}

/// The macOS routine: the application bundle goes into a tar archive.
pub fn bundle_update_macos(bundles: &[Bundle]) -> (r: Result<Vec<ArchiveJob>, Error>)
    ensures
        match application_jobs(
            bundles_view(bundles@),
            PackageType::MacOsBundle,
            MACOS_APP_EXTENSION@,
        ) {
            Some(jobs) => r matches Ok(j) && jobs_view(j@) == jobs,
            None => r matches Err(Error::ArtifactNotFound),
        },
{
    bundle_update_application(bundles, PackageType::MacOsBundle, MACOS_APP_EXTENSION)
}

/// The Linux routine: the AppImage goes into a tar archive.
pub fn bundle_update_linux(bundles: &[Bundle]) -> (r: Result<Vec<ArchiveJob>, Error>)
    ensures
        match application_jobs(
            bundles_view(bundles@),
            PackageType::AppImage,
            APPIMAGE_EXTENSION@,
        ) {
            Some(jobs) => r matches Ok(j) && jobs_view(j@) == jobs,
            None => r matches Err(Error::ArtifactNotFound),
        },
{
    bundle_update_application(bundles, PackageType::AppImage, APPIMAGE_EXTENSION)
}

/// One zip job for each installer, in the installers' order.
fn zip_jobs_for(installers: &[BundlePath]) -> (r: Vec<ArchiveJob>)
    ensures
        jobs_view(r@) == zip_jobs(paths_view(installers@)),
{
    let mut jobs: Vec<ArchiveJob> = Vec::new();
    let mut i: usize = 0;
    while i < installers.len()
        invariant
            i <= installers.len(),
            jobs.len() == i,
            forall|k: int| 0 <= k < i ==> (#[trigger] jobs@[k])@ == zip_job(installers@[k]@),
        decreases installers.len() - i,
    {
        let source = &installers[i];
        jobs.push(
            ArchiveJob {
                source: source.clone(),
                destination: rewrite(source).path,
                format: ArchiveFormat::Zip,
            },
        );
        i += 1;
    }
    jobs
}

/// The jobs for the installers that a rebuild produced: one zip job for
/// each, in their order. That the rebuild produced none is a failure.
pub fn archive_installers(installers: &[BundlePath]) -> (r: Result<Vec<ArchiveJob>, Error>)
    ensures
        match installer_jobs(paths_view(installers@)) {
            Some(jobs) => r matches Ok(j) && jobs_view(j@) == jobs,
            None => r matches Err(Error::ArtifactNotFound),
        },
{
    if installers.len() == 0 {
        Err(Error::ArtifactNotFound)
    } else {
        Ok(zip_jobs_for(installers))
    }
}

/// Where the archives of `jobs` go, in the jobs' order: what packaging
/// reports once every archive is written.
pub fn archived_paths(jobs: &[ArchiveJob]) -> (r: Vec<BundlePath>)
    ensures
        paths_view(r@) == destinations(jobs_view(jobs@)),
{
    let mut paths: Vec<BundlePath> = Vec::new();
    let mut i: usize = 0;
    while i < jobs.len()
        invariant
            i <= jobs.len(),
            paths.len() == i,
            forall|k: int| 0 <= k < i ==> (#[trigger] paths@[k])@ == jobs@[k]@.destination,
        decreases jobs.len() - i,
    {
        paths.push(jobs[i].destination.clone());
        i += 1;
    }
    paths
}

/// Copies of the paths of all bundles that are Windows installers.
fn collect_installer_paths(bundles: &[Bundle]) -> (r: Vec<BundlePath>)
    ensures
        paths_view(r@) == installer_paths(bundles_view(bundles@)),
{
    let ghost view = bundles_view(bundles@);
    let mut paths: Vec<BundlePath> = Vec::new();
    let mut i: usize = 0;
    while i < bundles.len()
        invariant
            i <= bundles.len(),
            view == bundles_view(bundles@),
            paths_view(paths@) == installer_paths(view.take(i as int)),
        decreases bundles.len() - i,
    {
        let bundle = &bundles[i];
        assert(view.take(i + 1).drop_last() =~= view.take(i as int));
        if bundle.package_type.is_installer() {
            let ghost before = paths_view(paths@);
            let mut j: usize = 0;
            while j < bundle.bundle_paths.len()
                invariant
                    j <= bundle.bundle_paths.len(),
                    paths_view(paths@) == before + bundle@.bundle_paths.take(j as int),
                decreases bundle.bundle_paths.len() - j,
            {
                let ghost collected = paths_view(paths@);
                let path = bundle.bundle_paths[j].clone();
                paths.push(path);
                assert(paths_view(paths@) =~= collected.push(path@));
                assert(bundle@.bundle_paths.take(j + 1) =~= bundle@.bundle_paths.take(
                    j as int,
                ).push(path@));
                j += 1;
            }
        }
        i += 1;
    }
    assert(view.take(i as int) =~= view);
    paths
}

/// The installer types to build again, in bundle order.
fn collect_rebuild_list(bundles: &[Bundle], builds_msi: bool) -> (r: Vec<PackageType>)
    ensures
        r@ == rebuild_list(bundles_view(bundles@), builds_msi),
{
    let ghost view = bundles_view(bundles@);
    let mut types: Vec<PackageType> = Vec::new();
    let mut i: usize = 0;
    while i < bundles.len()
        invariant
            i <= bundles.len(),
            view == bundles_view(bundles@),
            types@ == rebuild_list(view.take(i as int), builds_msi),
        decreases bundles.len() - i,
    {
        let package_type = bundles[i].package_type;
        assert(view.take(i + 1).drop_last() =~= view.take(i as int));
        let rebuilt = match package_type {
            PackageType::Nsis => true,
            PackageType::WindowsMsi => builds_msi,
            _ => false,
        };
        if rebuilt {
            types.push(package_type);
        }
        i += 1;
    }
    assert(view.take(i as int) =~= view);
    types
}

/// The Windows routine: each installer goes into a zip archive. Where the
/// webview install mode makes the installers at hand unfit for the
/// updater, or where there is none at hand, the step is to build them
/// again.
pub fn bundle_update_windows(settings: &Settings, bundles: &[Bundle]) -> (r: BundleStep)
    ensures
        r@ == windows_step(
            settings.webview_install_mode,
            settings.host_os@,
            bundles_view(bundles@),
        ),
{
    let forced = match settings.webview_install_mode {
        WebviewInstallMode::OfflineInstaller => true,
        WebviewInstallMode::EmbedBootstrapper => true,
        _ => false,
    };
    if !forced {
        let installers = collect_installer_paths(bundles);
        if installers.len() > 0 {
            return BundleStep::Archive(zip_jobs_for(installers.as_slice()));
        }
    }
    BundleStep::Rebuild(collect_rebuild_list(bundles, settings.host_builds_msi()))
}

/// The step that updater packaging takes for a build: which archives to
/// produce from which artifacts, or which installers to build first.
///
/// The target operating system is the third field of the target triple,
/// or the host's where the triple has none. It fails exactly where the
/// target is macOS or Linux and the application is not among the bundles.
pub fn bundle_project(settings: &Settings, bundles: &[Bundle]) -> (r: Result<BundleStep, Error>)
    ensures
        match planned_step(
            settings.target@,
            settings.host_os@,
            settings.webview_install_mode,
            bundles_view(bundles@),
        ) {
            Some(step) => r matches Ok(s) && s@ == step,
            None => r matches Err(Error::ArtifactNotFound),
        },
{
    match settings.target_os() {
        TargetOs::Windows => Ok(bundle_update_windows(settings, bundles)),
        TargetOs::MacOs => match bundle_update_macos(bundles) {
            Ok(jobs) => Ok(BundleStep::Archive(jobs)),
            Err(e) => Err(e),
        },
        TargetOs::Linux => match bundle_update_linux(bundles) {
            Ok(jobs) => Ok(BundleStep::Archive(jobs)),
            Err(e) => Err(e),
        },
        TargetOs::Unsupported => Ok(BundleStep::Unsupported),
    }
}

} // verus!
