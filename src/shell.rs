//! Shell resolution: from a shell-kind token and what the host offers, the program to run
//! and its arguments; and the arguments that start a shell as a login shell.
use vstd::prelude::*;
use crate::text::{chars_of, contains, contains_text, text_eq};
use vstd::string::StrSliceExecFns;

verus! {

/// The host's operating system family.
#[derive(PartialEq, Eq, Structural, Clone, Copy, Debug)]
pub enum HostOs {
    Windows,
    Unix,
}

/// What the host offers to shell resolution, gathered by the caller beforehand.
pub struct ShellHost {
    pub os: HostOs,
    /// The value of `SHELL`, when set.
    pub shell_var: Option<String>,
    /// The value of `COMSPEC`, when set.
    pub comspec_var: Option<String>,
    /// The value of `USERPROFILE`, when set.
    pub userprofile_var: Option<String>,
    /// Where `powershell` is found on the search path.
    pub powershell_on_path: Option<String>,
    /// Where `pwsh` is found on the search path.
    pub pwsh_on_path: Option<String>,
    /// Where `bash.exe`, or else `bash`, is found on the search path.
    pub bash_on_path: Option<String>,
    /// The candidate paths (see `probe_paths`) that exist.
    pub existing: Vec<String>,
}

/// A program to spawn and its arguments.
pub struct ShellCommand {
    pub program: String,
    pub args: Vec<String>,
}

/// The texts of a sequence of strings.
pub open spec fn texts(v: Seq<String>) -> Seq<Seq<char>> {
    v.map_values(|s: String| s@)
}

pub open spec fn opt_text(o: Option<String>) -> Option<Seq<char>> {
    match o {
        Some(s) => Some(s@),
        None => None,
    }
}

/// Whether `p` is among the existing paths.
pub open spec fn listed(existing: Seq<String>, p: Seq<char>) -> bool {
    exists|i: int| 0 <= i < existing.len() && #[trigger] existing[i]@ == p
}

/// The first of `cands` that exists.
pub open spec fn first_listed(cands: Seq<Seq<char>>, existing: Seq<String>) -> Option<Seq<char>>
    decreases cands.len(),
{
    if cands.len() == 0 {
        None
    } else if listed(existing, cands[0]) {
        Some(cands[0])
    } else {
        first_listed(cands.drop_first(), existing)
    }
}

/// The usual places of a Unix shell, most preferred first.
pub open spec fn unix_candidates() -> Seq<Seq<char>> {
    seq!["/bin/zsh"@, "/bin/bash"@, "/bin/fish"@, "/bin/sh"@]
}

/// The usual places of Git Bash on Windows, for the given user profile directory.
pub open spec fn gitbash_candidates_spec(userprofile: Seq<char>) -> Seq<Seq<char>> {
    seq![
        "C:\\Program Files\\Git\\bin\\bash.exe"@,
        "C:\\Program Files (x86)\\Git\\bin\\bash.exe"@,
        userprofile + "\\AppData\\Local\\Programs\\Git\\bin\\bash.exe"@,
    ]
}

pub open spec fn userprofile_of(h: ShellHost) -> Seq<char> {
    match h.userprofile_var {
        Some(u) => u@,
        None => Seq::empty(),
    }
}

/// The default shell on a Unix host.
pub open spec fn unix_shell_spec(h: ShellHost) -> Seq<char> {
    match h.shell_var {
        Some(s) => s@,
        None => match first_listed(unix_candidates(), h.existing@) {
            Some(p) => p,
            None => "/bin/sh"@,
        },
    }
}

/// The default shell on a Windows host.
pub open spec fn windows_shell_spec(h: ShellHost) -> Seq<char> {
    match (h.shell_var, h.powershell_on_path, h.pwsh_on_path, h.comspec_var) {
        (Some(s), _, _, _) => s@,
        (None, Some(p), _, _) => p@,
        (None, None, Some(p), _) => p@,
        (None, None, None, Some(c)) => c@,
        (None, None, None, None) => "cmd.exe"@,
    }
}

/// The default shell of the host.
pub open spec fn default_shell_spec(h: ShellHost) -> Seq<char> {
    match h.os {
        HostOs::Windows => windows_shell_spec(h),
        HostOs::Unix => unix_shell_spec(h),
    }
}

/// Git Bash: an installation in one of its usual places, else a `bash` on the search path
/// that is not the Linux-subsystem one under `WindowsApps`.
pub open spec fn gitbash_spec(h: ShellHost) -> Option<Seq<char>> {
    match first_listed(gitbash_candidates_spec(userprofile_of(h)), h.existing@) {
        Some(p) => Some(p),
        None => match h.bash_on_path {
            Some(b) => if contains_text(b@, "WindowsApps"@) {
                None
            } else {
                Some(b@)
            },
            None => None,
        },
    }
}

/// The program and arguments for a shell-kind token on a host.
pub open spec fn shell_spec(kind: Option<Seq<char>>, h: ShellHost) -> (Seq<char>, Seq<Seq<char>>) {
    let default = (default_shell_spec(h), Seq::<Seq<char>>::empty());
    let windows = h.os == HostOs::Windows;
    match kind {
        None => default,
        Some(t) => if t == "cmd"@ {
            ("cmd.exe"@, Seq::empty())
        } else if t == "powershell"@ {
            if windows {
                match h.powershell_on_path {
                    Some(p) => (p@, Seq::empty()),
                    None => ("powershell.exe"@, Seq::empty()),
                }
            } else {
                default
            }
        } else if t == "pwsh"@ {
            if windows {
                match (h.pwsh_on_path, h.powershell_on_path) {
                    (Some(p), _) => (p@, Seq::empty()),
                    (None, Some(p)) => (p@, Seq::empty()),
                    (None, None) => ("powershell.exe"@, Seq::empty()),
                }
            } else {
                ("pwsh"@, Seq::empty())
            }
        } else if t == "wsl"@ {
            ("wsl.exe"@, Seq::empty())
        } else if t == "gitbash"@ {
            if windows {
                match gitbash_spec(h) {
                    Some(p) => (p, seq!["--login"@]),
                    None => default,
                }
            } else {
                ("bash"@, Seq::empty())
            }
        } else if t == "bash"@ {
            ("bash"@, Seq::empty())
        } else if t == "zsh"@ {
            ("zsh"@, Seq::empty())
        } else if "custom:"@.is_prefix_of(t) {
            (t.subrange(7, t.len() as int), Seq::empty())
        } else {
            default
        },
    }
}

pub open spec fn command_view(c: ShellCommand) -> (Seq<char>, Seq<Seq<char>>) {
    (c.program@, texts(c.args@))
}

fn is_listed(existing: &Vec<String>, p: &str) -> (r: bool)
    ensures
        r == listed(existing@, p@),
{
    let key = p.to_owned();
    let mut i: usize = 0;
    while i < existing.len()
        invariant
            key@ == p@,
            i <= existing@.len(),
            forall|j: int| 0 <= j < i ==> #[trigger] existing@[j]@ != p@,
        decreases existing@.len() - i,
    {
        if existing[i] == key {
            assert(existing@[i as int]@ == p@);
            return true;
        }
        i = i + 1;
    }
    false
}

fn first_existing(cands: &Vec<String>, existing: &Vec<String>) -> (r: Option<String>)
    ensures
        opt_text(r) == first_listed(texts(cands@), existing@),
{
    let mut i: usize = 0;
    assert(texts(cands@).subrange(0, cands@.len() as int) =~= texts(cands@));
    while i < cands.len()
        invariant
            i <= cands@.len(),
            first_listed(texts(cands@), existing@) == first_listed(texts(cands@).subrange(i as int, cands@.len() as int), existing@),
        decreases cands@.len() - i,
    {
        let ghost rest = texts(cands@).subrange(i as int, cands@.len() as int);
        assert(rest[0] == cands@[i as int]@);
        if is_listed(existing, cands[i].as_str()) {
            return Some(cands[i].clone());
        }
        assert(rest.drop_first() =~= texts(cands@).subrange(i + 1, cands@.len() as int));
        i = i + 1;
    }
    assert(texts(cands@).subrange(i as int, cands@.len() as int).len() == 0);
    None
}

fn owned(s: &str) -> (r: String)
    ensures
        r@ == s@,
{
    s.to_owned()
}

/// The candidate paths of the Unix default shell, most preferred first.
pub fn unix_shell_candidates() -> (r: Vec<String>)
    ensures
        texts(r@) == unix_candidates(),
{
    let r = vec![owned("/bin/zsh"), owned("/bin/bash"), owned("/bin/fish"), owned("/bin/sh")];
    assert(texts(r@) =~= unix_candidates());
    r
}

/// The usual places of Git Bash for the user profile directory `userprofile`.
pub fn gitbash_candidates(userprofile: &str) -> (r: Vec<String>)
    ensures
        texts(r@) == gitbash_candidates_spec(userprofile@),
{
    let mut user = owned(userprofile);
    user.append("\\AppData\\Local\\Programs\\Git\\bin\\bash.exe");
    let r = vec![
        owned("C:\\Program Files\\Git\\bin\\bash.exe"),
        owned("C:\\Program Files (x86)\\Git\\bin\\bash.exe"),
        user,
    ];
    assert(texts(r@) =~= gitbash_candidates_spec(userprofile@));
    r
}

/// Every path whose existence shell resolution may ask about on a host whose user profile
/// directory is `userprofile`.
pub fn probe_paths(userprofile: &str) -> (r: Vec<String>)
    ensures
        texts(r@) == unix_candidates() + gitbash_candidates_spec(userprofile@),
{
    let mut r = unix_shell_candidates();
    let mut g = gitbash_candidates(userprofile);
    r.append(&mut g);
    assert(texts(r@) =~= unix_candidates() + gitbash_candidates_spec(userprofile@));
    r
}

/// The Unix default shell: `SHELL`, else the first of the usual places that exists, else
/// `/bin/sh`.
pub fn detect_unix_shell(host: &ShellHost) -> (r: String)
    ensures
        r@ == unix_shell_spec(*host),
{
    match &host.shell_var {
        Some(s) => s.clone(),
        None => match first_existing(&unix_shell_candidates(), &host.existing) {
            Some(p) => p,
            None => owned("/bin/sh"),
        },
    }
}

/// The Windows default shell: `SHELL`, else `powershell` on the search path, else `pwsh`
/// there, else `COMSPEC`, else `cmd.exe`.
pub fn detect_windows_shell(host: &ShellHost) -> (r: String)
    ensures
        r@ == windows_shell_spec(*host),
{
    if let Some(s) = &host.shell_var {
        s.clone()
    } else if let Some(p) = &host.powershell_on_path {
        p.clone()
    } else if let Some(p) = &host.pwsh_on_path {
        p.clone()
    } else if let Some(c) = &host.comspec_var {
        c.clone()
    } else {
        owned("cmd.exe")
    }
}

/// The host's default shell.
pub fn detect_default_shell(host: &ShellHost) -> (r: String)
    ensures
        r@ == default_shell_spec(*host),
{
    match host.os {
        HostOs::Windows => detect_windows_shell(host),
        HostOs::Unix => detect_unix_shell(host),
    }
}

/// Where Git Bash is, if anywhere.
pub fn detect_gitbash(host: &ShellHost) -> (r: Option<String>)
    ensures
        opt_text(r) == gitbash_spec(*host),
{
    let userprofile = match &host.userprofile_var {
        Some(u) => u.clone(),
        None => String::new(),
    };
    let cands = gitbash_candidates(userprofile.as_str());
    match first_existing(&cands, &host.existing) {
        Some(p) => Some(p),
        None => match &host.bash_on_path {
            Some(b) => {
                if contains(b.as_str(), "WindowsApps") {
                    None
                } else {
                    Some(b.clone())
                }
            },
            None => None,
        },
    }
}

/// The host's default shell, with no arguments.
pub fn get_default_shell(host: &ShellHost) -> (r: ShellCommand)
    ensures
        command_view(r) == (default_shell_spec(*host), Seq::<Seq<char>>::empty()),
{
    let r = ShellCommand { program: detect_default_shell(host), args: Vec::new() };
    assert(texts(r.args@) =~= Seq::<Seq<char>>::empty());
    r
}

fn plain(program: &str) -> (r: ShellCommand)
    ensures
        command_view(r) == (program@, Seq::<Seq<char>>::empty()),
{
    let r = ShellCommand { program: owned(program), args: Vec::new() };
    assert(texts(r.args@) =~= Seq::<Seq<char>>::empty());
    r
}

fn plain_string(program: String) -> (r: ShellCommand)
    ensures
        command_view(r) == (program@, Seq::<Seq<char>>::empty()),
{
    let r = ShellCommand { program, args: Vec::new() };
    assert(texts(r.args@) =~= Seq::<Seq<char>>::empty());
    r
}

/// The shell to spawn for `shell_type` (`cmd`, `powershell`, `pwsh`, `wsl`, `gitbash`,
/// `bash`, `zsh` or `custom:<path>`); the host's default shell for none or any other token.
pub fn get_shell_by_type(shell_type: Option<&str>, host: &ShellHost) -> (r: ShellCommand)
    ensures
        command_view(r) == shell_spec(
            match shell_type {
                Some(t) => Some(t@),
                None => None,
            },
            *host,
        ),
{
    let windows = host.os == HostOs::Windows;
    match shell_type {
        None => get_default_shell(host),
        Some(t) => {
            if text_eq(t, "cmd") {
                plain("cmd.exe")
            } else if text_eq(t, "powershell") {
                if windows {
                    match &host.powershell_on_path {
                        Some(p) => plain_string(p.clone()),
                        None => plain("powershell.exe"),
                    }
                } else {
                    get_default_shell(host)
                }
            } else if text_eq(t, "pwsh") {
                if windows {
                    if let Some(p) = &host.pwsh_on_path {
                        plain_string(p.clone())
                    } else if let Some(p) = &host.powershell_on_path {
                        plain_string(p.clone())
                    } else {
                        plain("powershell.exe")
                    }
                } else {
                    plain("pwsh")
                }
            } else if text_eq(t, "wsl") {
                plain("wsl.exe")
            } else if text_eq(t, "gitbash") {
                if windows {
                    match detect_gitbash(host) {
                        Some(p) => {
                            let r = ShellCommand { program: p, args: vec![owned("--login")] };
                            assert(texts(r.args@) =~= seq!["--login"@]);
                            r
                        },
                        None => get_default_shell(host),
                    }
                } else {
                    plain("bash")
                }
            } else if text_eq(t, "bash") {
                plain("bash")
            } else if text_eq(t, "zsh") {
                plain("zsh")
            } else {
                let tc = chars_of(t);
                proof {
                    reveal_strlit("custom:");
                }
                if tc.len() >= 7 && range_eq(&tc, 0, 7, "custom:") {
                    assert("custom:"@.is_prefix_of(t@)) by {
                        assert forall|i: int| 0 <= i < 7 implies #[trigger] "custom:"@[i] == t@[i] by {
                            assert(tc@.subrange(0, 7)[i] == t@[i]);
                        }
                    }
                    plain(t.substring_char(7, tc.len()))
                } else {
                    assert(!"custom:"@.is_prefix_of(t@)) by {
                        if "custom:"@.is_prefix_of(t@) {
                            assert(tc@.subrange(0, 7) =~= "custom:"@);
                        }
                    }
                    get_default_shell(host)
                }
            }
        },
    }
}

/// What `str::to_lowercase` makes of a text.
pub uninterp spec fn lower_of(s: Seq<char>) -> Seq<char>;

/// Relies on str::to_lowercase: the lowercase form, a function of the characters alone.
#[verifier::external_body]
fn lowercase(s: &str) -> (r: String)
    ensures
        r@ == lower_of(s@),
{
    s.to_lowercase()
}

/// A path separator. Both `/` and `\` count on every host, so that a Windows shell path
/// handed to a Unix host still yields its executable name.
pub open spec fn is_separator(c: char) -> bool {
    c == '/' || c == '\\'
}

/// `s` without what ends it and names no file: separators and `.` components.
pub open spec fn trim_end(s: Seq<char>) -> Seq<char>
    decreases s.len(),
{
    if s.len() > 0 && is_separator(s.last()) {
        trim_end(s.drop_last())
    } else if s.len() >= 2 && s.last() == '.' && is_separator(s[s.len() - 2]) {
        trim_end(s.drop_last())
    } else {
        s
    }
}

/// The characters after the last path separator of `s`.
pub open spec fn tail_component(s: Seq<char>) -> Seq<char>
    decreases s.len(),
{
    if s.len() == 0 || is_separator(s.last()) {
        Seq::empty()
    } else {
        tail_component(s.drop_last()).push(s.last())
    }
}

/// The file name of a path: its last component once trailing separators and `.` components
/// are dropped; none when that component is empty, `.` or `..`.
pub open spec fn file_name(s: Seq<char>) -> Option<Seq<char>> {
    let c = tail_component(trim_end(s));
    if c.len() == 0 || c == "."@ || c == ".."@ {
        None
    } else {
        Some(c)
    }
}

/// The name that decides the login arguments: the file name, or the whole path when it has
/// none.
pub open spec fn login_name(s: Seq<char>) -> Seq<char> {
    match file_name(s) {
        Some(n) => n,
        None => s,
    }
}

/// The login arguments of a shell, by its lowercase executable name.
pub open spec fn login_args_spec(name: Seq<char>) -> Seq<Seq<char>> {
    if name == "bash"@ || name == "zsh"@ || name == "fish"@ || name == "sh"@ {
        seq!["-l"@]
    } else if name == "pwsh"@ || name == "pwsh.exe"@ || name == "powershell"@ || name == "powershell.exe"@ {
        seq!["-NoLogo"@]
    } else {
        Seq::empty()
    }
}

fn range_eq(v: &Vec<char>, start: usize, end: usize, lit: &str) -> (r: bool)
    requires
        start <= end <= v@.len(),
    ensures
        r == (v@.subrange(start as int, end as int) == lit@),
{
    let l = chars_of(lit);
    if end - start != l.len() {
        return false;
    }
    let mut k: usize = 0;
    while k < l.len()
        invariant
            l@ == lit@,
            start <= end <= v@.len(),
            end - start == l@.len(),
            k <= l@.len(),
            forall|m: int| 0 <= m < k ==> v@[start + m] == l@[m],
        decreases l@.len() - k,
    {
        if v[start + k] != l[k] {
            assert(v@.subrange(start as int, end as int)[k as int] != lit@[k as int]);
            return false;
        }
        k = k + 1;
    }
    assert(v@.subrange(start as int, end as int) =~= lit@);
    true
}

fn is_sep(c: char) -> (r: bool)
    ensures
        r == is_separator(c),
{
    c == '/' || c == '\\'
}

/// The login arguments for a shell path that is already in lowercase.
pub fn login_args_for_lowered(lowered: &str) -> (r: Vec<String>)
    ensures
        texts(r@) == login_args_spec(login_name(lowered@)),
{
    let v = chars_of(lowered);
    let mut end: usize = v.len();
    assert(v@.subrange(0, end as int) =~= v@);
    while end > 0 && (is_sep(v[end - 1]) || (end >= 2 && v[end - 1] == '.' && is_sep(v[end - 2])))
        invariant
            end <= v@.len(),
            trim_end(v@.subrange(0, end as int)) == trim_end(v@),
        decreases end,
    {
        assert(v@.subrange(0, end as int).drop_last() =~= v@.subrange(0, end - 1));
        end = end - 1;
    }
    assert(trim_end(v@.subrange(0, end as int)) == v@.subrange(0, end as int));
    let mut start: usize = end;
    assert(v@.subrange(start as int, end as int) =~= Seq::<char>::empty());
    assert(tail_component(v@.subrange(0, end as int)) =~= tail_component(v@.subrange(0, start as int)) + v@.subrange(start as int, end as int));
    while start > 0 && !is_sep(v[start - 1])
        invariant
            start <= end <= v@.len(),
            tail_component(v@.subrange(0, end as int)) == tail_component(v@.subrange(0, start as int)) + v@.subrange(start as int, end as int),
        decreases start,
    {
        let ghost pre = v@.subrange(0, start as int);
        assert(pre.drop_last() =~= v@.subrange(0, start - 1));
        assert(tail_component(pre) == tail_component(v@.subrange(0, start - 1)).push(v@[start - 1]));
        assert(tail_component(v@.subrange(0, start - 1)).push(v@[start - 1]) + v@.subrange(start as int, end as int)
            =~= tail_component(v@.subrange(0, start - 1)) + v@.subrange(start - 1, end as int));
        start = start - 1;
    }
    assert(tail_component(v@.subrange(0, start as int)) =~= Seq::<char>::empty());
    assert(tail_component(trim_end(lowered@)) =~= v@.subrange(start as int, end as int));
    let no_name = start == end || range_eq(&v, start, end, ".") || range_eq(&v, start, end, "..");
    let (from, to) = if no_name { (0, v.len()) } else { (start, end) };
    assert(v@.subrange(0, v@.len() as int) =~= v@);
    assert(login_name(lowered@) == v@.subrange(from as int, to as int));
    if range_eq(&v, from, to, "bash") || range_eq(&v, from, to, "zsh") || range_eq(&v, from, to, "fish")
        || range_eq(&v, from, to, "sh") {
        let r = vec![owned("-l")];
        assert(texts(r@) =~= seq!["-l"@]);
        r
    } else if range_eq(&v, from, to, "pwsh") || range_eq(&v, from, to, "pwsh.exe") || range_eq(&v, from, to, "powershell")
        || range_eq(&v, from, to, "powershell.exe") {
        let r = vec![owned("-NoLogo")];
        assert(texts(r@) =~= seq!["-NoLogo"@]);
        r
    } else {
        let r: Vec<String> = Vec::new();
        assert(texts(r@) =~= Seq::<Seq<char>>::empty());
        r
    }
}

/// The arguments that start the shell at `shell_path` as a login shell, by its file name
/// compared without regard to case: `-l` for bash, zsh, fish and sh, `-NoLogo` for
/// PowerShell, none otherwise.
pub fn get_shell_login_args(shell_path: &str) -> (r: Vec<String>)
    ensures
        texts(r@) == login_args_spec(login_name(lower_of(shell_path@))),
{
    let lowered = lowercase(shell_path);
    login_args_for_lowered(lowered.as_str())
}

} // verus!
