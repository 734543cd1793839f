use goose_cli::path::shorten_path;

#[test]
fn test_short_paths_unchanged() {
    assert_eq!(shorten_path("/usr/bin", None, false), "/usr/bin");
    assert_eq!(shorten_path("/a/b/c", None, false), "/a/b/c");
    assert_eq!(shorten_path("file.txt", None, false), "file.txt");
}

#[test]
fn test_debug_mode_returns_full_path() {
    assert_eq!(
        shorten_path("/very/long/path/that/would/normally/be/shortened", None, true),
        "/very/long/path/that/would/normally/be/shortened"
    );
}

#[test]
fn test_home_directory_conversion() {
    let home = Some("/Users/testuser");

    assert_eq!(
        shorten_path("/Users/testuser/documents/file.txt", home, false),
        "~/documents/file.txt"
    );

    // A path that starts similarly to home but isn't in home
    assert_eq!(
        shorten_path("/Users/testuser2/documents/file.txt", home, false),
        "/Users/testuser2/documents/file.txt"
    );
}

#[test]
fn test_long_path_shortening() {
    assert_eq!(
        shorten_path(
            "/vvvvvvvvvvvvvvvvvvvvvvvvvvvvvvvvvvvvvvvv/long/path/with/many/components/file.txt",
            None,
            false
        ),
        "/v/l/p/w/m/components/file.txt"
    );
}

#[test]
fn debug_keeps_a_path_in_the_home_directory() {
    assert_eq!(
        shorten_path("/Users/testuser/documents/file.txt", Some("/Users/testuser"), true),
        "/Users/testuser/documents/file.txt"
    );
}

#[test]
fn home_directory_itself_is_the_alias() {
    assert_eq!(shorten_path("/Users/testuser", Some("/Users/testuser"), false), "~/");
    assert_eq!(shorten_path("/Users/testuser/", Some("/Users/testuser"), false), "~/");
}

#[test]
fn home_with_a_trailing_separator_matches() {
    assert_eq!(shorten_path("/home/u/notes.md", Some("/home/u/"), false), "~/notes.md");
}

#[test]
fn rest_behind_home_keeps_its_text() {
    assert_eq!(shorten_path("/home/u//a/./b/", Some("/home/u"), false), "~/a/./b");
}

#[test]
fn relative_home_does_not_match_a_rooted_path() {
    assert_eq!(shorten_path("/home/u/a", Some("home/u"), false), "/home/u/a");
    assert_eq!(shorten_path("home/u/a", Some("home/u"), false), "~/a");
}

#[test]
fn empty_home_holds_every_path() {
    assert_eq!(shorten_path("/usr/bin/", Some(""), false), "~//usr/bin");
    assert_eq!(shorten_path("/", Some(""), false), "~//");
    assert_eq!(shorten_path("docs/a.txt", Some(""), false), "~/docs/a.txt");
    assert_eq!(shorten_path("", Some(""), false), "~/");
}

#[test]
fn forty_characters_are_not_shortened() {
    let path = "/aaaaaaaaa/bbbbbbbbb/ccccccccc/ddddddddd";
    assert_eq!(path.chars().count(), 40);
    assert_eq!(shorten_path(path, None, false), path);
}

#[test]
fn forty_one_characters_are_shortened() {
    let path = "/aaaaaaaaa/bbbbbbbbb/ccccccccc/dddddddddd";
    assert_eq!(path.chars().count(), 41);
    assert_eq!(shorten_path(path, None, false), "/a/b/ccccccccc/dddddddddd");
}

#[test]
fn length_is_counted_in_characters() {
    // 40 characters, more than 40 bytes
    let path = "/\u{e9}\u{e9}\u{e9}\u{e9}\u{e9}\u{e9}\u{e9}\u{e9}\u{e9}/bbbbbbbbb/ccccccccc/ddddddddd";
    assert_eq!(path.chars().count(), 40);
    assert!(path.len() > 40);
    assert_eq!(shorten_path(path, None, false), path);
}

#[test]
fn three_components_are_not_shortened() {
    let path = "/aaaaaaaaaaaaaaaaaaaaaaaaaaaaaa/bbbbbbbbbbbbbbbbbbbbbbbbbbbbbb";
    assert_eq!(shorten_path(path, None, false), path);
    let relative = "aaaaaaaaaaaaaaaaaaaa/bbbbbbbbbbbbbbbbbbbb/cccccccccccccccccccc";
    assert_eq!(shorten_path(relative, None, false), relative);
}

#[test]
fn relative_path_is_shortened_without_a_root() {
    assert_eq!(
        shorten_path("alpha/beta/gamma/delta/epsilon/zeta/eta/theta.txt", None, false),
        "a/b/g/d/e/z/eta/theta.txt"
    );
}

#[test]
fn long_path_in_home_is_shortened_behind_the_alias() {
    assert_eq!(
        shorten_path(
            "/Users/testuser/projects/verification/library/source/module.rs",
            Some("/Users/testuser"),
            false
        ),
        "~/p/v/l/source/module.rs"
    );
}

#[test]
fn empty_pieces_and_dots_are_no_components() {
    assert_eq!(
        shorten_path("/aaaaaaaaaaaa//bbbbbbbbbbbb/./cccccccccccc/dddddddddddd/", None, false),
        "/a/b/cccccccccccc/dddddddddddd"
    );
}

#[test]
fn first_character_of_a_name_may_have_several_bytes() {
    assert_eq!(
        shorten_path("/\u{e9}cole/\u{1fabf}goose/cccccccccccccccccc/dddddddddddddddddd", None, false),
        "/\u{e9}/\u{1fabf}/cccccccccccccccccc/dddddddddddddddddd"
    );
}

fn with_std_paths(path: &str, home: Option<&str>) -> String {
    let display_path = match home {
        Some(home) => match std::path::Path::new(path).strip_prefix(home) {
            Ok(stripped) => format!("~/{}", stripped.display()),
            Err(_) => path.to_string(),
        },
        None => path.to_string(),
    };
    if display_path.chars().count() > 40 {
        let components: Vec<String> = std::path::Path::new(&display_path)
            .components()
            .map(|c| c.as_os_str().to_string_lossy().into_owned())
            .collect();
        if components.len() > 3 {
            let mut shortened = String::new();
            for (i, comp) in components.iter().enumerate() {
                if i == 0 && display_path.starts_with('/') {
                    // the root marker
                } else if i + 2 >= components.len() {
                    shortened.push_str(comp);
                } else if let Some(c) = comp.chars().next() {
                    shortened.push(c);
                }
                if i + 1 < components.len() {
                    shortened.push('/');
                }
            }
            return shortened;
        }
    }
    display_path
}

#[test]
fn components_are_those_of_the_standard_library() {
    let paths = [
        "",
        "/",
        "//",
        "///",
        ".",
        "./",
        "./.",
        "..",
        "./a",
        "a/./b",
        "/./a",
        "/.",
        "a//b",
        "/a/b/",
        "~",
        "~/a",
        "/home/u",
        "/home/u/",
        "/home/u/.",
        "/home/u/x",
        "/home/u//x/./y/",
        "/home/./u/x",
        "//home//u//x",
        "/home/user2/x",
        "/home/u2",
        "/home",
        "home/u/x",
        "./home/u/x",
        "../a",
        "a/..",
        "/aaaaaaaaaaaaaaaaaaaaaaaa/./bbbbbbbbbbbbbbbbbbb//cccccccc/d/",
        "./aaaaaaaaaaaaaaaaaaaaaaaa/bbbbbbbbbbbbbbbbbbb/cccccccc/d/e",
        "aaaaaaaaaaaaaaaaaaaaaaaa/./bbbbbbbbbbbbbbbbbbb/cccccccc/d/.",
        "aaaaaaaaaaaaaaaaaaaaaaaa/../bbbbbbbbbbbbbbbbbbb/cccccccc/../d",
        "/aaaaaaaaaaaaaaaaaaaaaaaaaaaaaaaaaaaaaaaaaaaaaaaaaaaa/b",
        "/aaaaaaaaaaaaaaaaaaaaaaaaaaaaaaaaaaaaaaaaaaaaaaaaaaaa/b/c",
        "aaaaaaaaaaaaaaaaaaaaaaaaaaaaaaaaaaaaaaaaaaaaaaaaaaaa/b/c",
        "aaaaaaaaaaaaaaaaaaaaaaaaaaaaaaaaaaaaaaaaaaaaaaaaaaaa/b/c/d",
        "/home/u/aaaaaaaaaaaaaaaaaaaaaaaaaaaaaaaaaaaaaaaaaaaaaaaaaaaa/b",
        "/home/u/aaaaaaaaaaaaaaaaaaaaaaaaaaaaaaaaaaaaaaaaaaaaaaaaaaaa/b/c",
        "/home/u/aaaaaaaaaaaaaaaaaaaaaaaa//bbbbbbbbbbbbbbbbbbbbbbbbbbb/./c/d//",
        "////////////////////////////////////////////a/b/c/d",
        "/a/b/c/d////////////////////////////////////////////",
        "./././././././././././././././././././././././a/b/c/d",
        "/vvvvvvvvvvvvvvvvvvvvvvvvvvvvvvvvvvvvvvvv/long/path/with/many/components/file.txt",
    ];
    let homes = [
        None,
        Some("/home/u"),
        Some("/home/u/"),
        Some("/home/u/."),
        Some("//home/./u"),
        Some("/home"),
        Some("/"),
        Some(""),
        Some("."),
        Some("./"),
        Some("home/u"),
        Some("./home"),
        Some("a"),
        Some(".."),
        Some("/home/u/x"),
        Some("/home/u/aaaaaaaaaaaaaaaaaaaaaaaaaaaaaaaaaaaaaaaaaaaaaaaaaaaa"),
    ];
    for path in paths {
        for home in homes {
            assert_eq!(
                shorten_path(path, home, false),
                with_std_paths(path, home),
                "path {:?}, home {:?}",
                path,
                home
            );
            assert_eq!(shorten_path(path, home, true), path);
        }
    }
}
