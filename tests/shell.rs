use ptymux::shell::{
    detect_default_shell, detect_gitbash, get_default_shell, get_shell_by_type, get_shell_login_args,
    login_args_for_lowered, probe_paths, HostOs, ShellHost,
};

fn unix_host() -> ShellHost {
    ShellHost {
        os: HostOs::Unix,
        shell_var: None,
        comspec_var: None,
        userprofile_var: None,
        powershell_on_path: None,
        pwsh_on_path: None,
        bash_on_path: None,
        existing: vec!["/bin/bash".to_string(), "/bin/sh".to_string()],
    }
}

fn windows_host() -> ShellHost {
    ShellHost {
        os: HostOs::Windows,
        shell_var: None,
        comspec_var: Some("C:\\Windows\\system32\\cmd.exe".to_string()),
        userprofile_var: Some("C:\\Users\\me".to_string()),
        powershell_on_path: Some("C:\\Windows\\PowerShell\\powershell.exe".to_string()),
        pwsh_on_path: None,
        bash_on_path: None,
        existing: vec![],
    }
}

#[test]
fn test_get_default_shell() {
    let shell = get_default_shell(&unix_host());
    assert_eq!(shell.program, "/bin/bash");
    assert!(shell.args.is_empty());
}

#[test]
fn test_detect_default_shell() {
    let shell = detect_default_shell(&unix_host());
    assert!(!shell.is_empty());
}

#[test]
fn test_get_shell_login_args() {
    let bash_args = get_shell_login_args("/bin/bash");
    assert_eq!(bash_args, vec!["-l".to_string()]);

    let pwsh_args = get_shell_login_args("pwsh.exe");
    assert_eq!(pwsh_args, vec!["-NoLogo".to_string()]);

    let cmd_args = get_shell_login_args("cmd.exe");
    assert!(cmd_args.is_empty());
}

#[test]
fn test_get_shell_by_type_cmd() {
    let cmd = get_shell_by_type(Some("cmd"), &unix_host());
    assert_eq!(cmd.program, "cmd.exe");
}

#[test]
fn test_get_shell_by_type_powershell() {
    let cmd = get_shell_by_type(Some("powershell"), &unix_host());
    assert_eq!(cmd.program, "/bin/bash");
    let cmd = get_shell_by_type(Some("powershell"), &windows_host());
    assert_eq!(cmd.program, "C:\\Windows\\PowerShell\\powershell.exe");
}

#[test]
fn test_get_shell_by_type_bash() {
    let cmd = get_shell_by_type(Some("bash"), &unix_host());
    assert_eq!(cmd.program, "bash");
    assert!(cmd.args.is_empty());
}

#[test]
fn test_get_shell_by_type_zsh() {
    let cmd = get_shell_by_type(Some("zsh"), &unix_host());
    assert_eq!(cmd.program, "zsh");
}

#[test]
fn test_get_shell_by_type_custom() {
    let cmd = get_shell_by_type(Some("custom:/bin/sh"), &unix_host());
    assert_eq!(cmd.program, "/bin/sh");
}

#[test]
fn test_get_shell_by_type_none() {
    let cmd = get_shell_by_type(None, &unix_host());
    assert_eq!(cmd.program, "/bin/bash");
}

#[test]
fn test_get_shell_by_type_unknown() {
    let cmd = get_shell_by_type(Some("unknown_shell"), &unix_host());
    assert_eq!(cmd.program, "/bin/bash");
}

#[test]
fn shell_variable_wins_on_unix() {
    let mut host = unix_host();
    host.shell_var = Some("/usr/bin/fish".to_string());
    assert_eq!(detect_default_shell(&host), "/usr/bin/fish");
}

#[test]
fn unix_falls_back_to_bin_sh() {
    let mut host = unix_host();
    host.existing = vec![];
    assert_eq!(detect_default_shell(&host), "/bin/sh");
}

#[test]
fn windows_default_order() {
    let mut host = windows_host();
    assert_eq!(detect_default_shell(&host), "C:\\Windows\\PowerShell\\powershell.exe");
    host.powershell_on_path = None;
    host.pwsh_on_path = Some("C:\\pwsh\\pwsh.exe".to_string());
    assert_eq!(detect_default_shell(&host), "C:\\pwsh\\pwsh.exe");
    host.pwsh_on_path = None;
    assert_eq!(detect_default_shell(&host), "C:\\Windows\\system32\\cmd.exe");
    host.comspec_var = None;
    assert_eq!(detect_default_shell(&host), "cmd.exe");
}

#[test]
fn pwsh_on_each_host() {
    assert_eq!(get_shell_by_type(Some("pwsh"), &unix_host()).program, "pwsh");
    assert_eq!(
        get_shell_by_type(Some("pwsh"), &windows_host()).program,
        "C:\\Windows\\PowerShell\\powershell.exe"
    );
    let mut host = windows_host();
    host.powershell_on_path = None;
    assert_eq!(get_shell_by_type(Some("pwsh"), &host).program, "powershell.exe");
}

#[test]
fn wsl_is_fixed() {
    assert_eq!(get_shell_by_type(Some("wsl"), &windows_host()).program, "wsl.exe");
}

#[test]
fn gitbash_prefers_install_then_path() {
    let mut host = windows_host();
    host.existing = vec!["C:\\Users\\me\\AppData\\Local\\Programs\\Git\\bin\\bash.exe".to_string()];
    let cmd = get_shell_by_type(Some("gitbash"), &host);
    assert_eq!(cmd.program, "C:\\Users\\me\\AppData\\Local\\Programs\\Git\\bin\\bash.exe");
    assert_eq!(cmd.args, vec!["--login".to_string()]);

    host.existing = vec![];
    host.bash_on_path = Some("C:\\Users\\me\\AppData\\Local\\Microsoft\\WindowsApps\\bash.exe".to_string());
    assert_eq!(detect_gitbash(&host), None);
    let cmd = get_shell_by_type(Some("gitbash"), &host);
    assert_eq!(cmd.program, "C:\\Windows\\PowerShell\\powershell.exe");
    assert!(cmd.args.is_empty());

    host.bash_on_path = Some("D:\\tools\\git\\bin\\bash.exe".to_string());
    assert_eq!(detect_gitbash(&host), Some("D:\\tools\\git\\bin\\bash.exe".to_string()));

    assert_eq!(get_shell_by_type(Some("gitbash"), &unix_host()).program, "bash");
}

#[test]
fn probe_paths_cover_all_candidates() {
    let paths = probe_paths("C:\\Users\\me");
    assert_eq!(paths.len(), 7);
    assert_eq!(paths[0], "/bin/zsh");
    assert_eq!(paths[6], "C:\\Users\\me\\AppData\\Local\\Programs\\Git\\bin\\bash.exe");
}

#[test]
fn login_args_ignore_case_and_directories() {
    assert_eq!(get_shell_login_args("/USR/BIN/ZSH"), vec!["-l".to_string()]);
    assert_eq!(get_shell_login_args("C:\\Program Files\\PowerShell\\PowerShell.exe"), vec!["-NoLogo".to_string()]);
    assert_eq!(get_shell_login_args("/bin/fish/"), vec!["-l".to_string()]);
    assert!(get_shell_login_args("/usr/bin/nu").is_empty());
    assert!(login_args_for_lowered("/BIN/BASH").is_empty());
    assert_eq!(login_args_for_lowered("/bin/sh"), vec!["-l".to_string()]);
}

#[test]
fn login_args_skip_trailing_dot_components() {
    assert_eq!(get_shell_login_args("/bin/bash/."), vec!["-l".to_string()]);
    assert_eq!(get_shell_login_args("/bin/zsh/./"), vec!["-l".to_string()]);
    assert!(get_shell_login_args("/bin/bash/..").is_empty());
    assert!(get_shell_login_args("/").is_empty());
    assert!(get_shell_login_args(".").is_empty());
    assert_eq!(get_shell_login_args("sh"), vec!["-l".to_string()]);
    assert!(get_shell_login_args("/bin/bash.").is_empty());
}

#[test]
fn custom_prefix_only_at_start() {
    assert_eq!(get_shell_by_type(Some("custom:"), &unix_host()).program, "");
    assert_eq!(get_shell_by_type(Some("xcustom:/bin/sh"), &unix_host()).program, "/bin/bash");
    assert_eq!(get_shell_by_type(Some("custom:/opt/é/sh"), &unix_host()).program, "/opt/é/sh");
}
