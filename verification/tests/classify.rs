use trusted_signing_cli::classify::is_supported;

#[test]
fn supported_extensions_accepted() {
    let supported = [
        "appx",
        "msix",
        "appxbundle",
        "msixbundle",
        "cab",
        "cat",
        "dll",
        "exe",
        "js",
        "vbs",
        "wsf",
        "msi",
        "msp",
        "mst",
        "ocx",
        "ps1",
        "stl",
        "sys",
    ];
    for ext in supported {
        let name = format!("file.{}", ext);
        assert!(is_supported(&name), "{} should be supported", name);
    }
}

#[test]
fn sample_artifacts_accepted() {
    assert!(is_supported("app.exe"));
    assert!(is_supported("pkg.msix"));
    assert!(is_supported("driver.sys"));
}

#[test]
fn unknown_extension_rejected() {
    assert!(!is_supported("notes.txt"));
    assert!(!is_supported("archive.zip"));
}

#[test]
fn missing_extension_rejected() {
    assert!(!is_supported("README"));
    assert!(!is_supported(""));
}

#[test]
fn extension_match_is_case_sensitive() {
    assert!(!is_supported("APP.EXE"));
    assert!(!is_supported("setup.Msi"));
}

#[test]
fn extension_of_file_name_not_of_directory() {
    assert!(is_supported("some/dir.txt/app.exe"));
    assert!(is_supported("c:\\tools\\app.exe"));
    assert!(!is_supported("some/app.exe/README"));
}

#[test]
fn dot_file_has_no_extension() {
    assert!(!is_supported(".exe"));
    assert!(is_supported("a.exe"));
}

#[test]
fn trailing_dot_is_empty_extension() {
    assert!(!is_supported("app."));
}
