use yabg3ml::launcher::{autostart, on_spawned, LaunchError, LaunchSession};
use yabg3ml::target::{GameBinary, TargetPathSet};

fn paths() -> TargetPathSet {
    TargetPathSet::new("C:\\bg3\\bin\\bg3.exe".to_string(), "C:\\bg3\\bin\\bg3_dx11.exe".to_string())
        .unwrap()
}

#[test]
fn no_target_is_usage_error() {
    let r = autostart(&vec![], &paths());
    let e = r.unwrap_err();
    assert!(matches!(e, LaunchError::MissingTarget));
    assert!(e.is_usage_error());
}

#[test]
fn unknown_target_is_refused() {
    let r = autostart(&vec!["notepad.exe".to_string()], &paths());
    let e = r.unwrap_err();
    assert!(matches!(e, LaunchError::UnrecognizedTarget));
    assert!(e.is_usage_error());
}

#[test]
fn target_without_file_name_is_refused() {
    let e = autostart(&vec!["C:\\bg3\\bin\\".to_string()], &paths()).unwrap_err();
    assert!(matches!(e, LaunchError::NoFileName));
    assert!(e.is_usage_error());
}

#[test]
fn known_target_resolves_and_forwards_arguments() {
    let args = vec![
        "D:\\Steam\\BG3_DX11.EXE".to_string(),
        "--skip-launcher".to_string(),
        "-continue".to_string(),
    ];
    let plan = autostart(&args, &paths()).unwrap();
    assert_eq!(plan.binary, GameBinary::Dx11);
    assert_eq!(plan.program, "C:\\bg3\\bin\\bg3_dx11.exe");
    assert_eq!(plan.args, vec!["--skip-launcher".to_string(), "-continue".to_string()]);
}

#[test]
fn spawn_and_detach() {
    let s = on_spawned(Ok(4242)).unwrap();
    assert_eq!(s, LaunchSession { pid: 4242, debugger_attached: true });
    let d = s.detached(Ok(())).unwrap();
    assert_eq!(d, LaunchSession { pid: 4242, debugger_attached: false });
    match s.detached(Err("access denied".to_string())) {
        Err(LaunchError::DetachFailure { message }) => assert_eq!(message, "access denied"),
        other => panic!("unexpected {other:?}"),
    }
    let e = on_spawned(Err("not found".to_string())).unwrap_err();
    assert!(matches!(e, LaunchError::SpawnFailure { ref message } if message == "not found"));
    assert!(!e.is_usage_error());
}
