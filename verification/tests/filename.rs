use waterdrop::filename::{free_name, numbered_name, sanitize_filename, stored_name};

fn names(list: &[&str]) -> Vec<String> {
    list.iter().map(|s| s.to_string()).collect()
}

#[test]
fn plain_names_stay_as_they_are() {
    for name in ["photo.jpg", "my file (draft).txt", ".bashrc", "été.png", "12:30 notes"] {
        assert_eq!(sanitize_filename(name).as_deref(), Some(name));
    }
}

#[test]
fn only_the_last_component_counts() {
    assert_eq!(sanitize_filename("/etc/passwd").as_deref(), Some("passwd"));
    assert_eq!(sanitize_filename("../../x.txt").as_deref(), Some("x.txt"));
    assert_eq!(sanitize_filename("C:\\temp\\y.txt").as_deref(), Some("y.txt"));
}

#[test]
fn names_of_folders_are_refused() {
    for name in ["", ".", "..", "a/", "a/.", "b\\..", "nul\0byte"] {
        assert_eq!(sanitize_filename(name), None);
    }
}

#[test]
fn number_stands_before_the_extension() {
    assert_eq!(numbered_name("photo.jpg", 0), "photo.jpg");
    assert_eq!(numbered_name("photo.jpg", 1), "photo (1).jpg");
    assert_eq!(numbered_name("archive.tar.gz", 12), "archive.tar (12).gz");
    assert_eq!(numbered_name("README", 3), "README (3)");
    assert_eq!(numbered_name(".bashrc", 2), ".bashrc (2)");
    assert_eq!(numbered_name("end.", 1), "end (1).");
}

#[test]
fn first_free_number_is_taken() {
    assert_eq!(free_name("a.txt", &names(&[])), "a.txt");
    assert_eq!(free_name("a.txt", &names(&["a.txt"])), "a (1).txt");
    assert_eq!(free_name("a.txt", &names(&["a.txt", "a (2).txt", "b.txt"])), "a (1).txt");
    assert_eq!(
        free_name("a.txt", &names(&["a (1).txt", "a.txt", "a (2).txt"])),
        "a (3).txt"
    );
}

#[test]
fn stored_name_is_plain_and_free() {
    let taken = names(&["x.txt", "x (1).txt"]);
    assert_eq!(stored_name("../x.txt", &taken).as_deref(), Some("x (2).txt"));
    assert_eq!(stored_name("new.txt", &taken).as_deref(), Some("new.txt"));
    assert_eq!(stored_name("..", &taken), None);
}
