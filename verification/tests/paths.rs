use webshot::path::with_png_extension;
use webshot::target::{plan, Target};

#[test]
fn destination_extension_replaced() {
    let t = Target::new(
        String::from("https://example.com"),
        Some(String::from("out.txt")),
    );
    assert_eq!(t.output_path(), "out.png");
}

#[test]
fn destination_already_png() {
    let t = Target::new(String::from("https://a"), Some(String::from("shot.png")));
    assert_eq!(t.output_path(), "shot.png");
}

#[test]
fn destination_without_extension_gets_png() {
    let t = Target::new(String::from("https://a"), Some(String::from("shots/page")));
    assert_eq!(t.output_path(), "shots/page.png");
}

#[test]
fn destination_last_extension_replaced() {
    assert_eq!(with_png_extension("archive.tar.gz"), "archive.tar.png");
}

#[test]
fn hidden_file_keeps_its_name() {
    assert_eq!(with_png_extension(".gitignore"), ".gitignore.png");
}

#[test]
fn dot_in_directory_is_no_extension() {
    assert_eq!(with_png_extension("dir.v2/out"), "dir.v2/out.png");
}

#[test]
fn trailing_dot_is_an_empty_extension() {
    assert_eq!(with_png_extension("a."), "a.png");
}

#[test]
fn trailing_slash_gets_png_appended() {
    assert_eq!(with_png_extension("shots/"), "shots/.png");
}

#[test]
fn url_gets_png_appended() {
    let t = Target::new(String::from("https://example.com"), None);
    assert_eq!(t.output_path(), "https://example.com.png");
}

#[test]
fn url_is_never_substituted_into() {
    let t = Target::new(String::from("https://example.org/a.html"), None);
    assert_eq!(t.output_path(), "https://example.org/a.html.png");
}

#[test]
fn plan_pairs_each_url_with_its_path() {
    let targets = vec![
        Target::new(String::from("https://one"), Some(String::from("first.jpg"))),
        Target::new(String::from("https://two"), None),
    ];
    let units = plan(&targets);
    assert_eq!(units.len(), 2);
    assert_eq!(units[0].url, "https://one");
    assert_eq!(units[0].path, "first.png");
    assert_eq!(units[1].url, "https://two");
    assert_eq!(units[1].path, "https://two.png");
}

#[test]
fn plan_of_nothing_is_empty() {
    let targets: Vec<Target> = Vec::new();
    let units = plan(&targets);
    assert_eq!(units.len(), 0);
}
