use std::path::{Path, PathBuf};

use updater_bundle::path::{BundlePath, Component};
use updater_bundle::rewrite::{
    rewrite, NSIS_OUTPUT_FOLDER_NAME, NSIS_UPDATER_OUTPUT_FOLDER_NAME, WIX_OUTPUT_FOLDER_NAME,
    WIX_UPDATER_OUTPUT_FOLDER_NAME,
};
use updater_bundle::text::{extension_of, field_of, join, stem_of, str_eq, with_extension};

/// The library's value for a path written with `/`, as std reads it.
fn path(text: &str) -> BundlePath {
    let mut components = Vec::new();
    for c in Path::new(text).components() {
        components.push(match c {
            std::path::Component::Prefix(p) => {
                Component::Prefix(p.as_os_str().to_str().unwrap().to_string())
            }
            std::path::Component::RootDir => Component::RootDir,
            std::path::Component::CurDir => Component::CurDir,
            std::path::Component::ParentDir => Component::ParentDir,
            std::path::Component::Normal(name) => {
                Component::Normal(name.to_str().unwrap().to_string())
            }
        });
    }
    BundlePath { components }
}

/// The std path that a library path stands for.
fn to_std(path: &BundlePath) -> PathBuf {
    let mut out = PathBuf::new();
    for c in &path.components {
        match c {
            Component::Prefix(text) => out.push(text),
            Component::RootDir => out.push("/"),
            Component::CurDir => out.push("."),
            Component::ParentDir => out.push(".."),
            Component::Normal(name) => out.push(name),
        }
    }
    out
}

#[test]
fn str_eq_compares_characters() {
    assert!(str_eq("nsis", "nsis"));
    assert!(str_eq("", ""));
    assert!(!str_eq("nsis", "nsis-updater"));
    assert!(!str_eq("nsis", "nsiz"));
    assert!(!str_eq("é", "e"));
    assert!(str_eq("日本語", "日本語"));
}

#[test]
fn join_puts_two_strings_together() {
    assert_eq!(join("App.app", ".tar.gz"), "App.app.tar.gz");
    assert_eq!(join("", ".zip"), ".zip");
    assert_eq!(join("nsis", ""), "nsis");
    assert_eq!(join("é", "ü"), "éü");
}

#[test]
fn extension_is_what_follows_the_last_dot() {
    assert_eq!(extension_of("App.exe"), Some("exe"));
    assert_eq!(extension_of("archive.tar.gz"), Some("gz"));
    assert_eq!(extension_of("My App.app"), Some("app"));
    assert_eq!(extension_of("tool.AppImage"), Some("AppImage"));
}

#[test]
fn extension_edge_cases() {
    assert_eq!(extension_of("README"), None);
    assert_eq!(extension_of(".bashrc"), None);
    assert_eq!(extension_of(".."), None);
    assert_eq!(extension_of(""), None);
    assert_eq!(extension_of("name."), Some(""));
    assert_eq!(extension_of(".hidden.txt"), Some("txt"));
    assert_eq!(extension_of("..."), Some(""));
    assert_eq!(extension_of("é.ü"), Some("ü"));
}

#[test]
fn stem_is_what_precedes_the_last_dot() {
    assert_eq!(stem_of("App.exe"), "App");
    assert_eq!(stem_of("archive.tar.gz"), "archive.tar");
    assert_eq!(stem_of("README"), "README");
    assert_eq!(stem_of(".bashrc"), ".bashrc");
    assert_eq!(stem_of(".."), "..");
    assert_eq!(stem_of("name."), "name");
    assert_eq!(stem_of(""), "");
}

#[test]
fn with_extension_replaces_or_adds() {
    assert_eq!(with_extension("App.exe", "zip"), "App.zip");
    assert_eq!(with_extension("App.exe", "nsis.zip"), "App.nsis.zip");
    assert_eq!(with_extension("App", "zip"), "App.zip");
    assert_eq!(with_extension("App.exe", ""), "App");
    assert_eq!(with_extension(".bashrc", "zip"), ".bashrc.zip");
    assert_eq!(with_extension("App.exe", ".zip"), "App..zip");
}

#[test]
fn extension_and_stem_agree_with_std() {
    let names = [
        "App.exe", "a.b.c", "README", ".bashrc", ".hidden.txt", "name.", "...", "x.", "a..b",
        "My App_1.0.0_x64-setup.exe", "é.ü", "App.AppImage",
    ];
    for name in names {
        let std_ext = Path::new(name).extension().map(|e| e.to_str().unwrap());
        assert_eq!(extension_of(name), std_ext, "extension of {name}");
        let std_stem = Path::new(name).file_stem().map(|e| e.to_str().unwrap());
        assert_eq!(Some(stem_of(name)), std_stem, "stem of {name}");
        for ext in ["zip", "nsis.zip", "", ".zip"] {
            let expected = Path::new(name).with_extension(ext);
            assert_eq!(
                with_extension(name, ext),
                expected.to_str().unwrap(),
                "{name} with extension {ext}"
            );
        }
    }
}

#[test]
fn field_of_splits_at_dashes() {
    assert_eq!(field_of("x86_64-pc-windows-msvc", 0), Some("x86_64"));
    assert_eq!(field_of("x86_64-pc-windows-msvc", 1), Some("pc"));
    assert_eq!(field_of("x86_64-pc-windows-msvc", 2), Some("windows"));
    assert_eq!(field_of("x86_64-pc-windows-msvc", 3), Some("msvc"));
    assert_eq!(field_of("x86_64-pc-windows-msvc", 4), None);
    assert_eq!(field_of("aarch64-apple-darwin", 2), Some("darwin"));
}

#[test]
fn field_of_edge_cases() {
    assert_eq!(field_of("", 0), Some(""));
    assert_eq!(field_of("", 1), None);
    assert_eq!(field_of("a-b", 2), None);
    assert_eq!(field_of("a-b-", 2), Some(""));
    assert_eq!(field_of("--", 0), Some(""));
    assert_eq!(field_of("--", 1), Some(""));
    assert_eq!(field_of("--", 2), Some(""));
    assert_eq!(field_of("--", 3), None);
    assert_eq!(field_of("no dashes", 0), Some("no dashes"));
}

#[test]
fn field_of_agrees_with_std_split() {
    let texts = ["", "a", "a-b", "a-b-c", "a--c", "-", "--", "x86_64-unknown-linux-gnu", "é-ü-ö"];
    for text in texts {
        for n in 0..5 {
            assert_eq!(field_of(text, n), text.split('-').nth(n), "field {n} of {text:?}");
        }
    }
}

#[test]
fn file_name_is_the_last_name() {
    assert_eq!(path("/tmp/bundle/App.exe").file_name(), Some("App.exe"));
    assert_eq!(path("App.exe").file_name(), Some("App.exe"));
    assert_eq!(path("/").file_name(), None);
    assert_eq!(path("").file_name(), None);
    assert_eq!(path("a/..").file_name(), None);
    assert_eq!(path(".").file_name(), None);
}

#[test]
fn path_extension_reads_the_file_name() {
    assert_eq!(path("/Applications/My App.app").extension(), Some("app"));
    assert_eq!(path("/out.d/App").extension(), None);
    assert_eq!(path("/").extension(), None);
    assert_eq!(path("dir/..").extension(), None);
}

#[test]
fn parent_drops_the_last_component() {
    assert_eq!(path("/tmp/bundle/App.zip").parent(), Some(path("/tmp/bundle")));
    assert_eq!(path("/App.zip").parent(), Some(path("/")));
    assert_eq!(path("App.zip").parent(), Some(path("")));
    assert_eq!(path("a/..").parent(), Some(path("a")));
    assert_eq!(path("/").parent(), None);
    assert_eq!(path("").parent(), None);
}

#[test]
fn parent_agrees_with_std() {
    for text in ["/tmp/bundle/App.zip", "/App.zip", "App.zip", "a/..", "/", "", "./a", "../x/y"] {
        let expected = Path::new(text).parent().map(|p| p.to_path_buf());
        let got = path(text).parent().map(|p| to_std(&p));
        assert_eq!(got, expected, "parent of {text:?}");
    }
}

#[test]
fn path_with_extension_touches_the_file_name_only() {
    assert_eq!(path("/a.d/App.exe").with_extension("nsis.zip"), path("/a.d/App.nsis.zip"));
    assert_eq!(path("/a.d/App").with_extension("zip"), path("/a.d/App.zip"));
    assert_eq!(path("/").with_extension("zip"), path("/"));
    assert_eq!(path("").with_extension("zip"), path(""));
    assert_eq!(path("a/..").with_extension("zip"), path("a/.."));
}

#[test]
fn with_suffix_appends_to_the_file_name() {
    assert_eq!(path("/out/My App.app").with_suffix(".tar.gz"), path("/out/My App.app.tar.gz"));
    assert_eq!(path("tool.AppImage").with_suffix(".tar.gz"), path("tool.AppImage.tar.gz"));
    assert_eq!(path("/").with_suffix(".tar.gz"), path("/"));
    assert_eq!(path("").with_suffix(".tar.gz"), path(""));
}

#[test]
fn push_appends_a_component() {
    let mut p = BundlePath::new();
    assert_eq!(p, path(""));
    p.push(Component::RootDir);
    p.push(Component::Normal("tmp".to_string()));
    p.push(Component::Normal("App.exe".to_string()));
    assert_eq!(p, path("/tmp/App.exe"));
}

#[test]
fn clone_keeps_every_component() {
    let p = path("/tmp/../x/./App.exe");
    assert_eq!(p.clone(), p);
    assert_eq!(Component::Normal("a".to_string()).clone(), Component::Normal("a".to_string()));
    assert_eq!(Component::ParentDir.clone(), Component::ParentDir);
}

#[test]
fn folder_names_are_the_toolchains_names() {
    assert_eq!(WIX_OUTPUT_FOLDER_NAME, "msi");
    assert_eq!(WIX_UPDATER_OUTPUT_FOLDER_NAME, "msi-updater");
    assert_eq!(NSIS_OUTPUT_FOLDER_NAME, "nsis");
    assert_eq!(NSIS_UPDATER_OUTPUT_FOLDER_NAME, "nsis-updater");
    assert_eq!(WIX_UPDATER_OUTPUT_FOLDER_NAME.strip_suffix("-updater"), Some("msi"));
    assert_eq!(NSIS_UPDATER_OUTPUT_FOLDER_NAME.strip_suffix("-updater"), Some("nsis"));
}

#[test]
fn rewrite_collapses_the_nsis_updater_folder() {
    let r = rewrite(&path("/target/release/bundle/windows/nsis-updater/en-US/App.exe"));
    assert_eq!(r.bundle_name, "nsis");
    assert_eq!(r.path, path("/target/release/bundle/windows/nsis/en-US/App.nsis.zip"));
}

#[test]
fn rewrite_collapses_the_msi_updater_folder() {
    let r = rewrite(&path("/target/release/bundle/msi-updater/App_1.0.0_x64_en-US.msi"));
    assert_eq!(r.bundle_name, "msi");
    assert_eq!(r.path, path("/target/release/bundle/msi/App_1.0.0_x64_en-US.msi.zip"));
}

#[test]
fn rewrite_keeps_a_plain_folder() {
    let r = rewrite(&path("/target/release/bundle/nsis/App_1.0.0_x64-setup.exe"));
    assert_eq!(r.bundle_name, "nsis");
    assert_eq!(r.path, path("/target/release/bundle/nsis/App_1.0.0_x64-setup.nsis.zip"));
    let r = rewrite(&path("bundle/msi/App.msi"));
    assert_eq!(r.bundle_name, "msi");
    assert_eq!(r.path, path("bundle/msi/App.msi.zip"));
}

#[test]
fn rewrite_without_a_folder_has_an_empty_bundle_name() {
    let r = rewrite(&path("/somewhere/else/App.exe"));
    assert_eq!(r.bundle_name, "");
    assert_eq!(r.path, path("/somewhere/else/App..zip"));
}

#[test]
fn rewrite_takes_the_last_folder_for_the_bundle_name() {
    let r = rewrite(&path("/msi/work/nsis-updater/App.exe"));
    assert_eq!(r.bundle_name, "nsis");
    assert_eq!(r.path, path("/msi/work/nsis/App.nsis.zip"));
    let r = rewrite(&path("/nsis-updater/msi/App.msi"));
    assert_eq!(r.bundle_name, "msi");
    assert_eq!(r.path, path("/nsis/msi/App.msi.zip"));
}

#[test]
fn rewrite_matches_whole_names_only() {
    let r = rewrite(&path("/x/nsis-updater-old/NSIS/msi-updaters/App.exe"));
    assert_eq!(r.bundle_name, "");
    assert_eq!(r.path, path("/x/nsis-updater-old/NSIS/msi-updaters/App..zip"));
}

#[test]
fn rewrite_passes_other_components_through() {
    let r = rewrite(&path("../out/./nsis-updater/../App.exe"));
    assert_eq!(r.bundle_name, "nsis");
    assert_eq!(r.path, path("../out/nsis/../App.nsis.zip"));
    let r = rewrite(&path("/nsis-updater"));
    assert_eq!(r.bundle_name, "nsis");
    assert_eq!(r.path, path("/nsis.nsis.zip"));
    let r = rewrite(&path(""));
    assert_eq!(r.bundle_name, "");
    assert_eq!(r.path, path(""));
}

#[test]
fn rewrite_agrees_with_std_path_handling() {
    let sources = [
        "/target/release/bundle/windows/nsis-updater/en-US/App.exe",
        "/target/release/bundle/msi-updater/App_1.0.0_x64_en-US.msi",
        "bundle/nsis/App-setup.exe",
        "/plain/App.exe",
        "/msi/nsis-updater/App",
    ];
    for source in sources {
        let (archived, name) = Path::new(source).components().fold(
            (PathBuf::new(), String::new()),
            |(mut p, mut b), c| {
                if let std::path::Component::Normal(name) = c {
                    if let Some(name) = name.to_str() {
                        if name == "msi-updater" || name == "nsis-updater" {
                            b = name.strip_suffix("-updater").unwrap().to_string();
                            p.push(&b);
                            return (p, b);
                        }
                        if name == "msi" || name == "nsis" {
                            b = name.to_string();
                        }
                    }
                }
                p.push(c);
                (p, b)
            },
        );
        let archived = archived.with_extension(format!("{}.zip", name));
        let r = rewrite(&path(source));
        assert_eq!(r.bundle_name, name, "bundle name of {source}");
        assert_eq!(to_std(&r.path), archived, "archive of {source}");
    }
}
