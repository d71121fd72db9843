use ditto::path::{file_name, join};
use ditto::{
    all_packages, can_link_all, install_config_files, Filesystem, LinkLog, Package, PackageGroup,
    PackageManagers, RecordingFilesystem, SymlinkRequest,
};
use std::path::Path;

struct MockFilesystem {
    calls: Vec<FilesystemCall>,
}

#[derive(Debug)]
struct FilesystemCall {
    original: String,
    link: String,
}

impl MockFilesystem {
    fn new() -> Self {
        MockFilesystem { calls: vec![] }
    }

    fn assert_called_with(&self, original: String, link: String) {
        let calls = &self.calls;

        let mut result = false;

        for call in calls {
            if call.original == original && call.link == link {
                result = true;
                break;
            }
        }

        assert!(result, "could not find call: original={original}, link={link} in calls {calls:?}")
    }
}

impl Filesystem for MockFilesystem {
    fn links(&self) -> LinkLog {
        unreachable!()
    }

    fn symlink(&mut self, original: &str, link: &str) {
        let call = FilesystemCall { original: original.to_string(), link: link.to_string() };

        self.calls.push(call);
    }
}

fn configured(name: &str, config: &str) -> Package {
    Package { name: name.to_string(), config: Some(config.to_string()) }
}

fn bare(name: &str) -> Package {
    Package { name: name.to_string(), config: None }
}

fn setup_packages() -> Vec<Package> {
    vec![
        Package { name: "fish".to_string(), config: Some(".config/fish/config.fish".into()) },
        Package { name: "dunst".to_string(), config: None },
        Package {
            name: "alacritty".to_string(),
            config: Some(".config/alacritty/alacritty.yml".into()),
        },
    ]
}

fn request(source_name: &str, destination_path: &str) -> SymlinkRequest {
    SymlinkRequest {
        source_name: source_name.to_string(),
        destination_path: destination_path.to_string(),
    }
}

fn std_file_name(path: &str) -> Option<String> {
    Path::new(path).file_name().map(|name| name.to_str().unwrap().to_string())
}

fn std_join(base: &str, path: &str) -> String {
    Path::new(base).join(path).to_str().unwrap().to_string()
}

#[test]
fn test_install_config_files() {
    let packages = setup_packages();
    let mut filesystem = MockFilesystem::new();
    install_config_files(&packages, "/home/leandro", &mut filesystem);

    filesystem.assert_called_with(
        "alacritty.yml".to_string(),
        "/home/leandro/.config/alacritty/alacritty.yml".to_string(),
    );
    filesystem.assert_called_with(
        "config.fish".to_string(),
        "/home/leandro/.config/fish/config.fish".to_string(),
    );
}

#[test]
fn links_are_made_in_package_order_and_none_for_a_package_without_config() {
    let mut filesystem = RecordingFilesystem::new();

    install_config_files(&setup_packages(), "/home/leandro", &mut filesystem);

    assert_eq!(
        filesystem.calls,
        vec![
            request("config.fish", "/home/leandro/.config/fish/config.fish"),
            request("alacritty.yml", "/home/leandro/.config/alacritty/alacritty.yml"),
        ]
    );
}

#[test]
fn one_link_for_a_package_with_config() {
    let mut filesystem = RecordingFilesystem::new();

    install_config_files(&[configured("vim", ".vimrc")], "/home/ana", &mut filesystem);

    assert_eq!(filesystem.calls, vec![request(".vimrc", "/home/ana/.vimrc")]);
}

#[test]
fn no_link_for_a_package_without_config() {
    let mut filesystem = RecordingFilesystem::new();

    install_config_files(&[bare("dunst")], "/home/ana", &mut filesystem);

    assert!(filesystem.calls.is_empty());
}

#[test]
fn no_packages_no_links() {
    let mut filesystem = RecordingFilesystem::new();

    install_config_files(&[], "/home/ana", &mut filesystem);

    assert!(filesystem.calls.is_empty());
}

#[test]
fn as_many_links_as_packages_with_config() {
    let packages = vec![
        bare("a"),
        configured("b", ".b"),
        configured("c", "x/.c"),
        bare("d"),
        bare("e"),
        configured("f", "y/z/f.conf"),
    ];
    let with_config = packages.iter().filter(|package| package.config.is_some()).count();
    let mut filesystem = RecordingFilesystem::new();

    install_config_files(&packages, "/home/ana", &mut filesystem);

    assert_eq!(filesystem.calls.len(), with_config);
    assert_eq!(filesystem.calls.len(), 3);
}

#[test]
fn two_packages_with_one_destination_give_two_links() {
    let mut filesystem = RecordingFilesystem::new();

    install_config_files(
        &[configured("vim", ".vimrc"), configured("neovim", ".vimrc")],
        "/home/ana",
        &mut filesystem,
    );

    assert_eq!(
        filesystem.calls,
        vec![request(".vimrc", "/home/ana/.vimrc"), request(".vimrc", "/home/ana/.vimrc")]
    );
}

#[test]
fn later_calls_add_to_earlier_links() {
    let mut filesystem = RecordingFilesystem::new();

    install_config_files(&[configured("vim", ".vimrc")], "/home/ana", &mut filesystem);
    install_config_files(&[configured("git", ".gitconfig")], "/home/ana", &mut filesystem);

    assert_eq!(
        filesystem.calls,
        vec![request(".vimrc", "/home/ana/.vimrc"), request(".gitconfig", "/home/ana/.gitconfig")]
    );
}

#[test]
fn the_link_source_is_the_bare_file_name() {
    let mut filesystem = RecordingFilesystem::new();

    install_config_files(
        &[configured("alacritty", ".config/alacritty/alacritty.yml")],
        "/home/ana",
        &mut filesystem,
    );

    assert_eq!(filesystem.calls[0].source_name, "alacritty.yml");
    assert_ne!(filesystem.calls[0].source_name, ".config/alacritty/alacritty.yml");
    assert_ne!(filesystem.calls[0].source_name, "/home/ana/.config/alacritty/alacritty.yml");
}

#[test]
fn a_config_directory_is_linked_by_its_name() {
    let mut filesystem = RecordingFilesystem::new();

    install_config_files(&[configured("nvim", ".config/nvim/")], "/home/ana", &mut filesystem);

    assert_eq!(filesystem.calls, vec![request("nvim", "/home/ana/.config/nvim/")]);
}

#[test]
fn packages_that_name_a_file_can_be_linked() {
    assert!(can_link_all(&setup_packages()));
    assert!(can_link_all(&[]));
    assert!(can_link_all(&[bare("dunst")]));
}

#[test]
fn a_config_that_names_no_file_cannot_be_linked() {
    assert!(!can_link_all(&[configured("a", "")]));
    assert!(!can_link_all(&[configured("a", "..")]));
    assert!(!can_link_all(&[configured("a", ".config/..")]));
    assert!(!can_link_all(&[configured("a", "/")]));
    assert!(!can_link_all(&[configured("a", ".")]));
    assert!(!can_link_all(&[configured("ok", ".vimrc"), bare("b"), configured("a", "./")]));
}

#[test]
fn groups_are_flattened_group_after_group() {
    let groups = vec![
        PackageGroup {
            manager: PackageManagers::PacMan,
            packages: vec![configured("fish", ".config/fish/config.fish"), bare("dunst")],
        },
        PackageGroup { manager: PackageManagers::Snap, packages: vec![] },
        PackageGroup { manager: PackageManagers::Snap, packages: vec![configured("code", ".code")] },
    ];

    assert_eq!(
        all_packages(&groups),
        vec![configured("fish", ".config/fish/config.fish"), bare("dunst"), configured("code", ".code")]
    );
    assert_eq!(all_packages(&[]), vec![]);
}

#[test]
fn configs_of_all_groups_are_linked() {
    let groups = vec![
        PackageGroup { manager: PackageManagers::PacMan, packages: setup_packages() },
        PackageGroup { manager: PackageManagers::Snap, packages: vec![configured("code", ".code")] },
    ];
    let mut filesystem = RecordingFilesystem::new();

    install_config_files(&all_packages(&groups), "/home/leandro", &mut filesystem);

    assert_eq!(
        filesystem.calls,
        vec![
            request("config.fish", "/home/leandro/.config/fish/config.fish"),
            request("alacritty.yml", "/home/leandro/.config/alacritty/alacritty.yml"),
            request(".code", "/home/leandro/.code"),
        ]
    );
}

#[test]
fn a_package_clone_is_equal() {
    let package = configured("fish", ".config/fish/config.fish");

    assert_eq!(package.clone(), package);
    assert_eq!(bare("dunst").clone(), bare("dunst"));
}

#[test]
fn file_name_is_the_last_segment() {
    assert_eq!(file_name(".config/fish/config.fish"), Some("config.fish".to_string()));
    assert_eq!(file_name("config.fish"), Some("config.fish".to_string()));
    assert_eq!(file_name("/usr/bin/env"), Some("env".to_string()));
    assert_eq!(file_name(".vimrc"), Some(".vimrc".to_string()));
    assert_eq!(file_name("a/..."), Some("...".to_string()));
    assert_eq!(file_name("données/café.toml"), Some("café.toml".to_string()));
}

#[test]
fn file_name_passes_over_empty_and_dot_segments() {
    assert_eq!(file_name("/usr/bin/"), Some("bin".to_string()));
    assert_eq!(file_name("foo.txt/."), Some("foo.txt".to_string()));
    assert_eq!(file_name("foo.txt/.//"), Some("foo.txt".to_string()));
    assert_eq!(file_name("a//b///"), Some("b".to_string()));
    assert_eq!(file_name("./a"), Some("a".to_string()));
}

#[test]
fn file_name_is_none_without_a_name() {
    assert_eq!(file_name(""), None);
    assert_eq!(file_name("/"), None);
    assert_eq!(file_name("//"), None);
    assert_eq!(file_name("."), None);
    assert_eq!(file_name("./"), None);
    assert_eq!(file_name(".."), None);
    assert_eq!(file_name("foo.txt/.."), None);
    assert_eq!(file_name("a/../."), None);
}

#[test]
fn join_puts_one_separator_between() {
    assert_eq!(join("/home/leandro", ".config/fish/config.fish"), "/home/leandro/.config/fish/config.fish");
    assert_eq!(join("/etc", "passwd"), "/etc/passwd");
    assert_eq!(join("home", "a/b"), "home/a/b");
}

#[test]
fn join_adds_no_separator_to_one() {
    assert_eq!(join("/", ".vimrc"), "/.vimrc");
    assert_eq!(join("/home/ana/", ".vimrc"), "/home/ana/.vimrc");
    assert_eq!(join("", ".vimrc"), ".vimrc");
}

#[test]
fn join_lets_an_absolute_path_stand() {
    assert_eq!(join("/home/ana", "/etc/passwd"), "/etc/passwd");
    assert_eq!(join("", "/"), "/");
}

#[test]
fn join_of_an_empty_path_ends_in_a_separator() {
    assert_eq!(join("/home/ana", ""), "/home/ana/");
    assert_eq!(join("/", ""), "/");
    assert_eq!(join("", ""), "");
}

#[test]
fn file_name_agrees_with_std() {
    let paths = [
        "", "/", "//", ".", "..", "./", "../", "/.", "/..", "a", "a/", "a//", "a/.", "a/..",
        "a/./", "a/../", "a/b", "a/b/", "a//b", "/a", "/a/", "/a/b", "./a", "../a", "a/./b",
        "a/../b", ".a", "a.", "..a", "a..", "...", "a/...", ".../", ". ", " .", " ", "a b/c d",
        ".config/fish/config.fish", ".config/alacritty/alacritty.yml", "/usr/bin/", "foo.txt/.",
        "foo.txt/.//", "foo.txt/..", "tmp/foo.txt", "./.", "././", "./..", ".//.", "/./a/./",
        "a\\b", "a/b\\c", "é/ü", "日本語/ファイル.txt", "x/./././", "x/.hidden/.", "///a///",
    ];
    for path in paths {
        assert_eq!(file_name(path), std_file_name(path), "file name of {path:?}");
    }
}

#[test]
fn join_agrees_with_std() {
    let bases = ["", "/", "//", "a", "a/", "/a", "/a/", "/home/leandro", "/home/leandro/", ".", "..", "é"];
    let paths = ["", "/", "a", "a/", "/a", "a/b", ".", "..", "./a", ".config/fish/config.fish", "//x", "ü/ö"];
    for base in bases {
        for path in paths {
            assert_eq!(join(base, path), std_join(base, path), "{base:?} joined with {path:?}");
        }
    }
}
