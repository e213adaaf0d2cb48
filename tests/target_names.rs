use yabg3ml::target::{file_name_of, to_ascii_lower, GameBinary, TargetPathSet};

fn paths() -> TargetPathSet {
    TargetPathSet::new(
        "C:\\Games\\Baldurs Gate 3\\bin\\bg3.exe".to_string(),
        "C:\\Games\\Baldurs Gate 3\\bin\\bg3_dx11.exe".to_string(),
    )
    .unwrap()
}

#[test]
fn resolve_ignores_case() {
    let p = paths();
    let exact = p.resolve("bg3.exe").unwrap();
    assert_eq!(exact, "C:\\Games\\Baldurs Gate 3\\bin\\bg3.exe");
    assert_eq!(p.resolve("BG3.EXE").unwrap(), exact);
    assert_eq!(p.resolve("Bg3.Exe").unwrap(), exact);
    let dx = p.resolve("bg3_dx11.exe").unwrap();
    assert_eq!(dx, "C:\\Games\\Baldurs Gate 3\\bin\\bg3_dx11.exe");
    assert_eq!(p.resolve("BG3_DX11.exe").unwrap(), dx);
}

#[test]
fn resolve_takes_file_name_of_path() {
    let p = paths();
    assert_eq!(
        p.resolve("D:/other/place/BG3.exe").unwrap(),
        "C:\\Games\\Baldurs Gate 3\\bin\\bg3.exe"
    );
    assert_eq!(
        p.resolve("x\\y\\bg3_dx11.EXE").unwrap(),
        "C:\\Games\\Baldurs Gate 3\\bin\\bg3_dx11.exe"
    );
}

#[test]
fn resolve_refuses_other_names() {
    let p = paths();
    assert!(p.resolve("notepad.exe").is_none());
    assert!(p.resolve("bg3.exe.bak").is_none());
    assert!(p.resolve("bg3").is_none());
    assert!(p.resolve("").is_none());
    assert!(p.resolve("bin\\").is_none());
}

#[test]
fn path_set_checks_file_names() {
    assert!(TargetPathSet::new("a/bg3_dx11.exe".to_string(), "a/bg3.exe".to_string()).is_none());
    assert!(TargetPathSet::new("a/BG3.exe".to_string(), "a/Bg3_DX11.exe".to_string()).is_some());
    let p = paths();
    assert_eq!(p.path(GameBinary::Dx11), "C:\\Games\\Baldurs Gate 3\\bin\\bg3_dx11.exe");
}

#[test]
fn is_target_matches_whole_path_ignoring_case() {
    let p = paths();
    assert!(p.is_target("c:\\games\\baldurs gate 3\\bin\\BG3.exe"));
    assert!(p.is_target("C:\\Games\\Baldurs Gate 3\\bin\\bg3_dx11.exe"));
    assert!(!p.is_target("D:\\elsewhere\\bg3.exe"));
}

#[test]
fn lower_and_file_name() {
    assert_eq!(to_ascii_lower(b"AbC-Z\xc3\x89"), b"abc-z\xc3\x89".to_vec());
    assert_eq!(file_name_of(b"a/b\\c.exe"), Some(b"c.exe".to_vec()));
    assert_eq!(file_name_of(b"plain"), Some(b"plain".to_vec()));
    assert_eq!(file_name_of(b"a/.."), None);
    assert_eq!(file_name_of(b"."), None);
    assert_eq!(file_name_of(b"a/"), None);
}
