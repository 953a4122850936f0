use imalink_desktop::scan::{
    check_directory, image_files, is_image_path, is_supported_extension, marks_image,
    read_directory_failure, read_entry_failure, visit, Scan, Visit,
};

fn paths(list: &[&str]) -> Vec<String> {
    list.iter().map(|p| p.to_string()).collect()
}

#[test]
fn supported_extensions_are_the_fourteen() {
    let supported = vec![
        "jpg", "jpeg", "heic", "heif", "png", "arw", "cr2", "cr3", "nef", "dng", "orf", "raf",
        "rw2", "raw",
    ];
    for ext in supported {
        assert!(is_supported_extension(ext), "{}", ext);
    }
}

#[test]
fn other_extensions_are_not_supported() {
    for ext in vec!["", "gif", "tiff", "tif", "bmp", "webp", "mp4", "txt", "jp", "jpgg", "cr", "cr4"] {
        assert!(!is_supported_extension(ext), "{}", ext);
    }
}

#[test]
fn supported_extensions_are_given_in_lower_case() {
    assert!(!is_supported_extension("JPG"));
    assert!(!is_supported_extension("Png"));
}

#[test]
fn marks_image_ignores_case() {
    assert!(marks_image(Some("JPG")));
    assert!(marks_image(Some("Jpeg")));
    assert!(marks_image(Some("HEIC")));
    assert!(marks_image(Some("nEf")));
    assert!(marks_image(Some("png")));
    assert!(!marks_image(Some("GIF")));
    assert!(!marks_image(Some("")));
    assert!(!marks_image(None));
}

#[test]
fn image_paths_are_told_by_their_extension() {
    assert!(is_image_path("/photos/IMG_0001.JPG"));
    assert!(is_image_path("/photos/img.jpeg"));
    assert!(is_image_path("relative/dir/raw.CR2"));
    assert!(is_image_path("a.b.c.png"));
    assert!(is_image_path("/photos/.hidden.dng"));
    assert!(!is_image_path("/photos/notes.txt"));
    assert!(!is_image_path("/photos/archive.jpg.zip"));
    assert!(!is_image_path("/photos/jpg"));
    assert!(!is_image_path("/photos/noext"));
    assert!(!is_image_path(""));
}

#[test]
fn a_leading_dot_starts_no_extension() {
    assert!(!is_image_path("/photos/.jpg"));
    assert!(!is_image_path(".png"));
}

#[test]
fn image_files_keeps_images_and_sorts_them() {
    let found = paths(&[
        "/p/b.jpg",
        "/p/notes.txt",
        "/p/a.PNG",
        "/p/sub/c.cr2",
        "/p/readme",
        "/p/a.jpg",
    ]);
    assert_eq!(image_files(&found), paths(&["/p/a.PNG", "/p/a.jpg", "/p/b.jpg", "/p/sub/c.cr2"]));
}

#[test]
fn image_files_orders_by_bytes() {
    // Upper case sorts before lower case, and ASCII before everything else.
    let found = paths(&["/p/b.jpg", "/p/é.jpg", "/p/B.jpg", "/p/a.jpg", "/p/Z.jpg", "/p/10.jpg", "/p/9.jpg"]);
    assert_eq!(
        image_files(&found),
        paths(&["/p/10.jpg", "/p/9.jpg", "/p/B.jpg", "/p/Z.jpg", "/p/a.jpg", "/p/b.jpg", "/p/é.jpg"])
    );
}

#[test]
fn image_files_puts_a_prefix_first() {
    let found = paths(&["/p/ab.jpg", "/p/a.jpg", "/p/a", "/p/a.jpg.png"]);
    assert_eq!(image_files(&found), paths(&["/p/a.jpg", "/p/a.jpg.png", "/p/ab.jpg"]));
}

#[test]
fn image_files_keeps_repeated_paths() {
    let found = paths(&["/p/a.jpg", "/p/b.jpg", "/p/a.jpg"]);
    assert_eq!(image_files(&found), paths(&["/p/a.jpg", "/p/a.jpg", "/p/b.jpg"]));
}

#[test]
fn image_files_of_nothing_is_nothing() {
    assert_eq!(image_files(&Vec::new()), Vec::<String>::new());
    assert_eq!(image_files(&paths(&["/p/a.txt", "/p/b"])), Vec::<String>::new());
}

#[test]
fn image_files_does_not_depend_on_the_order_found() {
    let one = paths(&["/p/c.jpg", "/p/a.jpg", "/p/x.txt", "/p/b.raw"]);
    let other = paths(&["/p/b.raw", "/p/x.txt", "/p/c.jpg", "/p/a.jpg"]);
    assert_eq!(image_files(&one), image_files(&other));
}

#[test]
fn image_files_leaves_the_candidates_alone() {
    let found = paths(&["/p/b.jpg", "/p/a.jpg"]);
    let _ = image_files(&found);
    assert_eq!(found, paths(&["/p/b.jpg", "/p/a.jpg"]));
}

#[test]
fn a_scan_needs_an_existing_directory() {
    assert_eq!(check_directory("/p", true, true), Ok(()));
    assert_eq!(check_directory("/p", false, false), Err("Directory not found: /p".to_string()));
    assert_eq!(check_directory("/p", false, true), Err("Directory not found: /p".to_string()));
    assert_eq!(
        check_directory("/p/a.jpg", true, false),
        Err("Path is not a directory: /p/a.jpg".to_string())
    );
}

#[test]
fn scan_messages() {
    assert_eq!(read_directory_failure("denied"), "Failed to read directory: denied");
    assert_eq!(read_entry_failure("denied"), "Failed to read entry: denied");
}

#[test]
fn directories_are_descended_and_files_considered() {
    assert_eq!(visit(true, false), Visit::Descend);
    assert_eq!(visit(true, true), Visit::Descend);
    assert_eq!(visit(false, true), Visit::Consider);
    assert_eq!(visit(false, false), Visit::Skip);
}

#[test]
fn a_scan_collects_the_files_it_is_shown() {
    let mut scan = Scan::new();
    assert_eq!(scan.entry(true, false, Some("/p/sub")), Visit::Descend);
    assert_eq!(scan.entry(false, true, Some("/p/sub/b.jpg")), Visit::Consider);
    assert_eq!(scan.entry(false, true, Some("/p/sub/notes.txt")), Visit::Consider);
    assert_eq!(scan.entry(false, false, Some("/p/dangling.jpg")), Visit::Skip);
    assert_eq!(scan.entry(false, true, Some("/p/a.NEF")), Visit::Consider);
    assert_eq!(scan.finish(), paths(&["/p/a.NEF", "/p/sub/b.jpg"]));
}

#[test]
fn a_scan_does_not_list_directories() {
    let mut scan = Scan::new();
    assert_eq!(scan.entry(true, false, Some("/p/album.jpg")), Visit::Descend);
    assert_eq!(scan.entry(true, true, Some("/p/both.jpg")), Visit::Descend);
    assert_eq!(scan.finish(), Vec::<String>::new());
}

#[test]
fn a_scan_leaves_out_paths_that_are_no_text() {
    let mut scan = Scan::new();
    assert_eq!(scan.entry(false, true, None), Visit::Consider);
    assert_eq!(scan.entry(false, true, Some("/p/a.jpg")), Visit::Consider);
    assert_eq!(scan.finish(), paths(&["/p/a.jpg"]));
}

#[test]
fn a_scan_of_nothing_lists_nothing() {
    assert_eq!(Scan::new().finish(), Vec::<String>::new());
}
