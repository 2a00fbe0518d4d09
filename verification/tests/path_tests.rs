use std::path::Path;
use yeti::path::path_has_extension;

/// What std says of the same path, the extension missing counting as empty.
fn std_has_extension(path: &str, wanted: &str) -> bool {
    match Path::new(path).extension() {
        Some(found) => found.to_str() == Some(wanted),
        None => wanted.is_empty(),
    }
}

#[test]
fn stylesheet_paths_have_the_extension() {
    assert!(path_has_extension("main.scss", "scss"));
    assert!(path_has_extension("/srv/site/scss/main.scss", "scss"));
    assert!(path_has_extension("scss/_partial.scss", "scss"));
    assert!(path_has_extension("a.b.scss", "scss"));
}

#[test]
fn other_paths_do_not_have_the_extension() {
    assert!(!path_has_extension("main.css", "scss"));
    assert!(!path_has_extension("main.scss.bak", "scss"));
    assert!(!path_has_extension("scss", "scss"));
    assert!(!path_has_extension("dir.scss/readme", "scss"));
    assert!(!path_has_extension("main.SCSS", "scss"));
    assert!(!path_has_extension("main.scss ", "scss"));
    assert!(!path_has_extension("", "scss"));
}

#[test]
fn a_leading_dot_opens_no_extension() {
    assert!(!path_has_extension(".scss", "scss"));
    assert!(!path_has_extension("/home/user/.scss", "scss"));
    assert!(path_has_extension("..scss", "scss"));
    assert!(path_has_extension(".hidden.scss", "scss"));
}

#[test]
fn empty_and_dot_components_are_passed_over() {
    assert!(path_has_extension("styles/main.scss/", "scss"));
    assert!(path_has_extension("styles/main.scss/.", "scss"));
    assert!(path_has_extension("styles/main.scss//./", "scss"));
    assert!(path_has_extension("./main.scss", "scss"));
}

#[test]
fn a_path_that_ends_above_has_no_file_name() {
    assert!(!path_has_extension("main.scss/..", "scss"));
    assert!(path_has_extension("..", ""));
    assert!(path_has_extension("a/..", ""));
}

#[test]
fn a_missing_extension_counts_as_empty() {
    assert!(path_has_extension("Makefile", ""));
    assert!(path_has_extension("", ""));
    assert!(path_has_extension("/", ""));
    assert!(path_has_extension(".", ""));
    assert!(path_has_extension("name.", ""));
    assert!(!path_has_extension("main.scss", ""));
}

#[test]
fn extension_agrees_with_std_on_many_paths() {
    let paths = [
        "", "/", "//", ".", "..", "./", "../", "a", "a/", "a/.", "a/..", "a/b", "a.b", "a.b/",
        "a.b/.", "a.b/..", "a.b/c", "a.b/c.d", ".a", ".a.b", "..a", "...", "a.", "a..", "a..b",
        "/a.scss", "/x/y/z.scss", "x/y.scss/z", "x/./y.scss", "x/../y.scss", "y.scss/./.",
        "./.", "./..", ".scss", "/.scss", "main.scss", "main.css", "main.scss.map", "ma in.scss",
        "héllo.scss", "日本.scss", "a.日本", "/a/b.c/d.e.f", "a//b.scss", "a/b.scss//",
        ".//main.scss", "/./main.scss", "/../main.scss", "main.scss/.../", ".../main",
    ];
    let wanted = ["scss", "css", "", "b", "d", "f", "map", "日本", "a", ".", "scss/", "e.f"];
    for path in paths {
        for extension in wanted {
            assert_eq!(
                path_has_extension(path, extension),
                std_has_extension(path, extension),
                "path {:?}, extension {:?}",
                path,
                extension
            );
        }
    }
}

/// Every text over `alphabet` of at most `length` characters.
fn texts(alphabet: &[char], length: usize) -> Vec<String> {
    let mut all = vec![String::new()];
    let mut last = vec![String::new()];
    for _ in 0..length {
        let mut next = Vec::new();
        for text in &last {
            for c in alphabet {
                let mut longer = text.clone();
                longer.push(*c);
                next.push(longer);
            }
        }
        all.extend(next.iter().cloned());
        last = next;
    }
    all
}

#[test]
fn extension_agrees_with_std_on_every_short_path() {
    let paths = texts(&['/', '.', 'a', 'b'], 6);
    assert_eq!(paths.len(), 5461);
    for path in &paths {
        for wanted in ["", "a", "b", "ab", ".", "a/", "/b", ".a", "a."] {
            assert_eq!(
                path_has_extension(path, wanted),
                std_has_extension(path, wanted),
                "path {:?}, extension {:?}",
                path,
                wanted
            );
        }
    }
}
