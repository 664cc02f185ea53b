use java_access_bridge::library_path::{
    first_existing, get_search_directory, is_java_install_dir, library_candidates, LibraryCandidate,
    DEFAULT_SEARCH_DIRECTORY,
};

#[test]
fn search_directory_prefers_custom() {
    assert_eq!(get_search_directory(Some("D:\\java\\bin".to_string())), "D:\\java\\bin");
    assert_eq!(get_search_directory(None), "C:\\Program Files\\Java\\jre1.8.0_*\\bin");
    assert_eq!(get_search_directory(None), DEFAULT_SEARCH_DIRECTORY);
}

#[test]
fn install_directory_names() {
    assert!(is_java_install_dir("jre1.8.0_401"));
    assert!(is_java_install_dir("jdk-21"));
    assert!(!is_java_install_dir("openjdk"));
    assert!(!is_java_install_dir("JRE"));
    assert!(!is_java_install_dir(""));
}

#[test]
fn candidates_in_search_order() {
    let entries = vec!["docs".to_string(), "jdk-17".to_string(), "jre8".to_string(), "tools".to_string()];
    assert_eq!(
        library_candidates(true, true, &entries),
        vec![
            LibraryCandidate::CustomDirectory,
            LibraryCandidate::JavaHome,
            LibraryCandidate::InstallDirectory(1),
            LibraryCandidate::InstallDirectory(2),
        ]
    );
    assert_eq!(
        library_candidates(false, false, &entries),
        vec![LibraryCandidate::InstallDirectory(1), LibraryCandidate::InstallDirectory(2)]
    );
    assert_eq!(library_candidates(false, true, &vec![]), vec![LibraryCandidate::JavaHome]);
}

#[test]
fn first_existing_place_wins() {
    assert_eq!(first_existing(&vec![false, true, true]), Some(1));
    assert_eq!(first_existing(&vec![true]), Some(0));
    assert_eq!(first_existing(&vec![false, false]), None);
    assert_eq!(first_existing(&vec![]), None);
}
