use myrica::backend::fonts::{is_supported_font, FontEntry, FontWalk, MAX_DEPTH};
use myrica::platform::{parse_arguments, random_progress, Arguments};

fn parse(arguments: &[&str]) -> Arguments {
    parse_arguments(&arguments.iter().map(|text| String::from(*text)).collect())
}

#[test]
fn the_location_is_optional() {
    assert_eq!(parse(&[]), Arguments::Open(String::from("https://example.com/")));
    assert_eq!(parse(&["a.test"]), Arguments::Open(String::from("a.test")));
}

#[test]
fn help_comes_before_everything_else() {
    assert_eq!(parse(&["-h"]), Arguments::Help);
    assert_eq!(parse(&["--help", "x"]), Arguments::Help);
    assert_eq!(
        parse(&["x", "--help"]),
        Arguments::Unexpected(String::from("unexpected argument: --help"))
    );
}

#[test]
fn random_bytes_must_make_progress() {
    assert_eq!(random_progress(0, 10, 4), Some(4));
    assert_eq!(random_progress(4, 10, 6), Some(10));
    assert_eq!(random_progress(4, 10, 7), None);
    assert_eq!(random_progress(4, 10, 0), None);
    assert_eq!(random_progress(0, usize::MAX, usize::MAX), None);
}

#[test]
fn fonts_are_told_by_their_extension() {
    for extension in ["ttf", "OTF", "Ttc", "otc"] {
        assert!(is_supported_font(&Some(String::from(extension))));
    }
    assert!(!is_supported_font(&Some(String::from("woff"))));
    assert!(!is_supported_font(&None));
}

#[test]
fn directories_are_walked_down_to_a_depth() {
    let mut walk = FontWalk::new();
    walk.enter_root(String::from("/share/fonts"));
    let mut depths = Vec::new();
    while let Some((path, depth)) = walk.next_directory() {
        depths.push(depth);
        assert_eq!(walk.visit(path.clone(), ".", true, &None, depth), FontEntry::Skip);
        assert_eq!(walk.visit(path.clone(), "..", true, &None, depth), FontEntry::Skip);
        let entered = walk.visit(format!("{path}/x"), "x", true, &None, depth);
        assert_eq!(entered == FontEntry::Descend, depth < MAX_DEPTH);
        let font = Some(String::from("ttf"));
        assert_eq!(
            walk.visit(path.clone(), "a.ttf", false, &font, depth),
            FontEntry::Load
        );
        walk.loaded(2);
        assert_eq!(walk.visit(path, "readme", false, &None, depth), FontEntry::Skip);
    }
    assert_eq!(depths, (0..=MAX_DEPTH).collect::<Vec<_>>());
    assert_eq!((walk.loaded_files, walk.loaded_faces), (17, 34));
}
