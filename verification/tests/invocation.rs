use trusted_signing_cli::invocation::{login_args, sign_args, sign_template};
use trusted_signing_cli::strutil::join_path;
use trusted_signing_cli::workspace::{
    archive_path, config_dir_path, download_url_string, lib_dir_path, marker_path, metadata_path,
};

#[test]
fn login_arguments_in_order() {
    let args = login_args("tenant-1", "client-1", "secret-1");
    assert_eq!(
        args,
        vec!["login", "--service-principal", "-t", "tenant-1", "-u", "client-1", "-p", "secret-1"]
    );
}

#[test]
fn template_without_description_has_no_description_pair() {
    let t = sign_template("SHA256", "http://ts.example", "SHA256", "lib.dll", "meta.json", &None);
    assert_eq!(
        t,
        vec![
            "sign",
            "/v",
            "/fd",
            "SHA256",
            "/tr",
            "http://ts.example",
            "/td",
            "SHA256",
            "/dlib",
            "lib.dll",
            "/dmdf",
            "meta.json"
        ]
    );
    assert!(!t.contains(&"/d".to_string()));
}

#[test]
fn template_with_description_appends_pair_after_fixed_flags() {
    let fixed = sign_template("SHA256", "http://ts.example", "SHA256", "lib.dll", "meta.json", &None);
    let t = sign_template(
        "SHA256",
        "http://ts.example",
        "SHA256",
        "lib.dll",
        "meta.json",
        &Some("My App".to_string()),
    );
    assert_eq!(t.len(), fixed.len() + 2);
    assert_eq!(&t[..fixed.len()], &fixed[..]);
    assert_eq!(t[fixed.len()], "/d");
    assert_eq!(t[fixed.len() + 1], "My App");
}

#[test]
fn invocation_appends_exactly_one_file() {
    let t = sign_template("SHA256", "http://ts.example", "SHA256", "lib.dll", "meta.json", &None);
    let args = sign_args(&t, &"a.exe".to_string());
    assert_eq!(args.len(), t.len() + 1);
    assert_eq!(&args[..t.len()], &t[..]);
    assert_eq!(args[t.len()], "a.exe");
    // The template itself is not mutated between files.
    let again = sign_args(&t, &"b.dll".to_string());
    assert_eq!(again[t.len()], "b.dll");
    assert_eq!(&again[..t.len()], &t[..]);
}

#[test]
fn workspace_layout_paths() {
    assert_eq!(join_path("a", "b"), "a/b");
    let cd = config_dir_path("/home/u");
    assert_eq!(cd, "/home/u/.trusted-signing-cli");
    assert_eq!(lib_dir_path(&cd), "/home/u/.trusted-signing-cli/lib");
    assert_eq!(
        marker_path(&cd),
        "/home/u/.trusted-signing-cli/lib/bin/x64/Azure.CodeSigning.Dlib.dll"
    );
    assert_eq!(archive_path(&cd), "/home/u/.trusted-signing-cli/1.0.95");
    assert_eq!(metadata_path(&cd), "/home/u/.trusted-signing-cli/metadata.json");
    assert_eq!(
        download_url_string(),
        "https://www.nuget.org/api/v2/package/Microsoft.Trusted.Signing.Client/1.0.95"
    );
}
