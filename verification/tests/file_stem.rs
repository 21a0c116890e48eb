use std::path::Path;

use r_liv::utils::get_file_stem;
use r_liv::utils::stem_or_empty;
use r_liv::window::window_title;

#[test]
fn test_get_file_stem() {
    assert_eq!(get_file_stem("/home/guest/index.html"), "index");
    assert_eq!(
        get_file_stem(Path::new("/home/guest/index.html").to_str().unwrap()),
        "index"
    );
}

#[test]
fn stem_of_name_without_extension_is_the_name() {
    assert_eq!(get_file_stem("/home/guest/Makefile"), "Makefile");
    assert_eq!(get_file_stem("notes"), "notes");
}

#[test]
fn stem_of_hidden_file_is_the_whole_name() {
    assert_eq!(get_file_stem("/home/guest/.profile"), ".profile");
}

#[test]
fn stem_ends_before_the_last_dot() {
    assert_eq!(get_file_stem("archive.tar.gz"), "archive.tar");
    assert_eq!(get_file_stem("/tmp/.hidden.png"), ".hidden");
    assert_eq!(get_file_stem("trailing."), "trailing");
}

#[test]
fn stem_of_path_without_file_name_is_empty() {
    assert_eq!(get_file_stem(""), "");
    assert_eq!(get_file_stem("/"), "");
    assert_eq!(get_file_stem("/home/guest/.."), "");
}

#[test]
fn stem_of_directory_path_is_the_directory_name() {
    assert_eq!(get_file_stem("/home/guest/pictures/"), "pictures");
}

#[test]
fn stem_is_not_the_path_itself() {
    let path = "/home/guest/photo.jpeg";
    let stem = get_file_stem(path);
    assert_ne!(stem, path);
    assert_eq!(stem, "photo");
}

#[test]
fn stem_or_empty_unwraps_or_gives_nothing() {
    assert_eq!(stem_or_empty(Some(String::from("index"))), "index");
    assert_eq!(stem_or_empty(None), "");
}

#[test]
fn window_title_names_viewer_and_stem() {
    assert_eq!(window_title("/home/guest/index.html"), "R-Liv | index");
    assert_eq!(window_title("/"), "R-Liv | ");
}
