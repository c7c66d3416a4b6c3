use std::collections::{HashMap, HashSet};

use trusted_signing_cli::orchestrator::{Action, Event, RunConfiguration, RunError, RunState};
use trusted_signing_cli::workspace::{config_dir_path, marker_path, metadata_path};

const CLI: &str = "/tools/az.cmd";
const SIGNTOOL: &str = "/tools/signtool.exe";
const HOME: &str = "/home/u";

/// A mocked outside world: which paths exist, what the files hold, and a
/// record of every download, extraction and process invocation.
struct World {
    existing: HashSet<String>,
    home: Option<String>,
    files: HashMap<String, String>,
    downloads: usize,
    extracts: usize,
    runs: Vec<(String, Vec<String>)>,
    /// Fail the nth invocation of the signing tool (1-based).
    fail_sign_at: Option<usize>,
}

impl World {
    fn ready() -> World {
        let mut existing = HashSet::new();
        existing.insert(CLI.to_string());
        existing.insert(SIGNTOOL.to_string());
        World {
            existing,
            home: Some(HOME.to_string()),
            files: HashMap::new(),
            downloads: 0,
            extracts: 0,
            runs: Vec::new(),
            fail_sign_at: None,
        }
    }

    fn sign_runs(&self) -> Vec<&Vec<String>> {
        self.runs.iter().filter(|(p, _)| p == SIGNTOOL).map(|(_, a)| a).collect()
    }
}

fn drive(cfg: RunConfiguration, world: &mut World) -> Result<(), RunError> {
    let (mut machine, mut action) = RunState::new(cfg);
    loop {
        let ev = match action {
            Action::Probe { path } => Event::Exists(world.existing.contains(&path)),
            Action::GetHome => Event::Home(world.home.clone()),
            Action::CreateDir { path } => {
                world.existing.insert(path);
                Event::Completed(Ok(()))
            }
            Action::Download { url: _, directory: _ } => {
                world.downloads += 1;
                Event::Completed(Ok(()))
            }
            Action::Extract { archive: _, target: _ } => {
                world.extracts += 1;
                let cd = config_dir_path(world.home.as_deref().unwrap());
                world.existing.insert(marker_path(&cd));
                Event::Completed(Ok(()))
            }
            Action::WriteFile { path, contents } => {
                world.files.insert(path, contents);
                Event::Completed(Ok(()))
            }
            Action::Run { program, args } => {
                world.runs.push((program.clone(), args));
                let signs = world.runs.iter().filter(|(p, _)| p == SIGNTOOL).count();
                if program == SIGNTOOL && world.fail_sign_at == Some(signs) {
                    Event::Completed(Err("exit status: 1".to_string()))
                } else {
                    Event::Completed(Ok(()))
                }
            }
            Action::Finish { outcome } => return outcome,
        };
        action = machine.step(&ev);
    }
}

fn cfg(files: Vec<&str>, ignore_unsupported: bool, description: Option<&str>) -> RunConfiguration {
    RunConfiguration {
        azure_cli_path: CLI.to_string(),
        sign_tool_path: SIGNTOOL.to_string(),
        azure_tenant_id: "tenant".to_string(),
        azure_client_id: "client".to_string(),
        azure_client_secret: "secret".to_string(),
        endpoint: "https://wus2.codesigning.azure.net".to_string(),
        account: "mnr".to_string(),
        certificate: "Profile3".to_string(),
        fd: "SHA256".to_string(),
        tr: "http://timestamp.acs.microsoft.com".to_string(),
        td: "SHA256".to_string(),
        description: description.map(|s| s.to_string()),
        files: files.into_iter().map(|s| s.to_string()).collect(),
        ignore_unsupported,
    }
}

#[test]
fn skip_unsupported_signs_only_supported_files() {
    let mut world = World::ready();
    let r = drive(cfg(vec!["a.exe", "b.unknownext"], true, None), &mut world);
    assert!(r.is_ok());
    let signs = world.sign_runs();
    assert_eq!(signs.len(), 1);
    assert_eq!(signs[0].last().unwrap(), "a.exe");
}

#[test]
fn without_skip_all_files_signed_in_order() {
    let mut world = World::ready();
    let r = drive(cfg(vec!["a.exe", "b.unknownext"], false, None), &mut world);
    assert!(r.is_ok());
    let signs = world.sign_runs();
    assert_eq!(signs.len(), 2);
    assert_eq!(signs[0].last().unwrap(), "a.exe");
    assert_eq!(signs[1].last().unwrap(), "b.unknownext");
}

#[test]
fn first_sign_invocation_has_exact_arguments() {
    let mut world = World::ready();
    drive(cfg(vec!["a.exe"], false, None), &mut world).unwrap();
    let signs = world.sign_runs();
    assert_eq!(
        signs[0],
        &vec![
            "sign",
            "/v",
            "/fd",
            "SHA256",
            "/tr",
            "http://timestamp.acs.microsoft.com",
            "/td",
            "SHA256",
            "/dlib",
            "/home/u/.trusted-signing-cli/lib/bin/x64/Azure.CodeSigning.Dlib.dll",
            "/dmdf",
            "/home/u/.trusted-signing-cli/metadata.json",
            "a.exe",
        ]
        .into_iter()
        .map(|s| s.to_string())
        .collect::<Vec<String>>()
    );
}

#[test]
fn description_pair_precedes_each_file() {
    let mut world = World::ready();
    drive(cfg(vec!["a.exe", "b.dll"], false, Some("My App")), &mut world).unwrap();
    for args in world.sign_runs() {
        let n = args.len();
        assert_eq!(args[n - 3], "/d");
        assert_eq!(args[n - 2], "My App");
    }
}

#[test]
fn signing_failure_stops_the_batch_and_names_the_file() {
    let mut world = World::ready();
    world.fail_sign_at = Some(2);
    let r = drive(cfg(vec!["a.exe", "b.exe", "c.exe"], false, None), &mut world);
    match r {
        Err(RunError::SignFailed { file, cause }) => {
            assert_eq!(file, "b.exe");
            assert_eq!(cause, "exit status: 1");
        }
        _ => panic!("expected a signing failure"),
    }
    let signs = world.sign_runs();
    assert_eq!(signs.len(), 2);
    assert!(signs.iter().all(|args| args.last().unwrap() != "c.exe"));
}

#[test]
fn missing_cli_aborts_before_any_side_effect() {
    let mut world = World::ready();
    world.existing.remove(CLI);
    let r = drive(cfg(vec!["a.exe"], false, None), &mut world);
    match r {
        Err(RunError::AzureCliMissing { path }) => assert_eq!(path, CLI),
        _ => panic!("expected the missing-CLI error"),
    }
    assert_eq!(world.downloads, 0);
    assert_eq!(world.extracts, 0);
    assert!(world.files.is_empty());
    assert!(world.runs.is_empty());
}

#[test]
fn missing_signtool_aborts_before_any_side_effect() {
    let mut world = World::ready();
    world.existing.remove(SIGNTOOL);
    let r = drive(cfg(vec!["a.exe"], false, None), &mut world);
    match r {
        Err(RunError::SignToolMissing { path }) => assert_eq!(path, SIGNTOOL),
        _ => panic!("expected the missing-signtool error"),
    }
    assert_eq!(world.downloads, 0);
    assert!(world.files.is_empty());
    assert!(world.runs.is_empty());
}

#[test]
fn missing_home_directory_is_fatal() {
    let mut world = World::ready();
    world.home = None;
    let r = drive(cfg(vec!["a.exe"], false, None), &mut world);
    match r {
        Err(RunError::HomeNotFound) => {}
        _ => panic!("expected the missing-home error"),
    }
    assert_eq!(world.downloads, 0);
    assert!(world.runs.is_empty());
}

#[test]
fn provisioning_downloads_at_most_once() {
    let mut world = World::ready();
    drive(cfg(vec!["a.exe"], false, None), &mut world).unwrap();
    assert_eq!(world.downloads, 1);
    assert_eq!(world.extracts, 1);
    // The marker file now exists: a second run must not download again.
    drive(cfg(vec!["a.exe"], false, None), &mut world).unwrap();
    assert_eq!(world.downloads, 1);
    assert_eq!(world.extracts, 1);
}

#[test]
fn metadata_written_fresh_on_every_run() {
    let mut world = World::ready();
    drive(cfg(vec!["a.exe"], false, None), &mut world).unwrap();
    let mut second = cfg(vec!["a.exe"], false, None);
    second.account = "other".to_string();
    drive(second, &mut world).unwrap();
    let path = metadata_path(&config_dir_path(HOME));
    let contents = &world.files[&path];
    let v: serde_json::Value = serde_json::from_str(contents).unwrap();
    assert_eq!(v["CodeSigningAccountName"], "other");
    assert!(!contents.contains("mnr"));
}

#[test]
fn login_runs_before_any_signing() {
    let mut world = World::ready();
    drive(cfg(vec!["a.exe"], false, None), &mut world).unwrap();
    assert_eq!(world.runs.len(), 2);
    assert_eq!(world.runs[0].0, CLI);
    assert_eq!(
        world.runs[0].1,
        vec!["login", "--service-principal", "-t", "tenant", "-u", "client", "-p", "secret"]
    );
    assert_eq!(world.runs[1].0, SIGNTOOL);
}

#[test]
fn all_files_skipped_still_succeeds() {
    let mut world = World::ready();
    let r = drive(cfg(vec!["a.unknownext", "b.unknownext"], true, None), &mut world);
    assert!(r.is_ok());
    assert_eq!(world.sign_runs().len(), 0);
}

#[test]
fn error_messages_name_the_resource() {
    let e = RunError::AzureCliMissing { path: CLI.to_string() };
    assert_eq!(
        e.message(),
        "azure cli /tools/az.cmd does not exists, please specify PATH with env AZURE_CLI_PATH"
    );
    let e = RunError::SignFailed { file: "b.exe".to_string(), cause: "exit status: 1".to_string() };
    assert_eq!(e.message(), "signtool could not sign the file 'b.exe': exit status: 1");
}
