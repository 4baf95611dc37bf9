//! The decisions of the project's command-line tools: the deployment menu,
//! the test modes, the SSH key location, and how the test runner prepares
//! each command it runs.

use vstd::prelude::*;
use crate::text::{append_str, has_substring, contains_str, is_white_space, is_whitespace_char, str_equal, trim_spec, trim_string, views};

verus! {

/// What an entry of the deployment tool's main menu asks for.
#[derive(Debug, PartialEq, Eq, Structural)]
pub enum MainMenuChoice {
    Check,
    Test,
    Build,
    Clean,
    Dev,
    Deploy,
    Remote,
    Exit,
    Invalid,
}

/// The main menu's reading of a typed line: the option number, white space
/// around it ignored.
pub open spec fn main_menu_spec(line: Seq<char>) -> MainMenuChoice {
    let c = trim_spec(line);
    if c == "1"@ {
        MainMenuChoice::Check
    } else if c == "2"@ {
        MainMenuChoice::Test
    } else if c == "3"@ {
        MainMenuChoice::Build
    } else if c == "4"@ {
        MainMenuChoice::Clean
    } else if c == "5"@ {
        MainMenuChoice::Dev
    } else if c == "6"@ {
        MainMenuChoice::Deploy
    } else if c == "7"@ {
        MainMenuChoice::Remote
    } else if c == "0"@ {
        MainMenuChoice::Exit
    } else {
        MainMenuChoice::Invalid
    }
}

/// Reads a line typed at the main menu.
pub fn main_menu_choice(line: &str) -> (r: MainMenuChoice)
    ensures
        r == main_menu_spec(line@),
{
    let c = trim_string(line);
    let c = c.as_str();
    if str_equal(c, "1") {
        MainMenuChoice::Check
    } else if str_equal(c, "2") {
        MainMenuChoice::Test
    } else if str_equal(c, "3") {
        MainMenuChoice::Build
    } else if str_equal(c, "4") {
        MainMenuChoice::Clean
    } else if str_equal(c, "5") {
        MainMenuChoice::Dev
    } else if str_equal(c, "6") {
        MainMenuChoice::Deploy
    } else if str_equal(c, "7") {
        MainMenuChoice::Remote
    } else if str_equal(c, "0") {
        MainMenuChoice::Exit
    } else {
        MainMenuChoice::Invalid
    }
}

/// The test suites the tools can run.
#[derive(Debug, Clone, Copy, PartialEq, Eq, Structural)]
pub enum TestMode {
    Full,
    Quick,
    Internal,
}

/// What an entry of the test menu asks for.
#[derive(Debug, PartialEq, Eq, Structural)]
pub enum TestMenuChoice {
    Run(TestMode),
    Back,
    Invalid,
}

/// The test menu's reading of a typed line.
pub open spec fn test_menu_spec(line: Seq<char>) -> TestMenuChoice {
    let c = trim_spec(line);
    if c == "1"@ {
        TestMenuChoice::Run(TestMode::Full)
    } else if c == "2"@ {
        TestMenuChoice::Run(TestMode::Quick)
    } else if c == "3"@ {
        TestMenuChoice::Run(TestMode::Internal)
    } else if c == "0"@ {
        TestMenuChoice::Back
    } else {
        TestMenuChoice::Invalid
    }
}

/// Reads a line typed at the test menu.
pub fn test_menu_choice(line: &str) -> (r: TestMenuChoice)
    ensures
        r == test_menu_spec(line@),
{
    let c = trim_string(line);
    let c = c.as_str();
    if str_equal(c, "1") {
        TestMenuChoice::Run(TestMode::Full)
    } else if str_equal(c, "2") {
        TestMenuChoice::Run(TestMode::Quick)
    } else if str_equal(c, "3") {
        TestMenuChoice::Run(TestMode::Internal)
    } else if str_equal(c, "0") {
        TestMenuChoice::Back
    } else {
        TestMenuChoice::Invalid
    }
}

/// The test runner's name for a test mode.
pub open spec fn test_mode_command(mode: TestMode) -> Seq<char> {
    match mode {
        TestMode::Full => "full"@,
        TestMode::Quick => "quick"@,
        TestMode::Internal => "internal"@,
    }
}

/// The `cargo` arguments that run the test runner in `mode` (the full suite
/// when no mode is given), always with the release profile.
pub fn test_runner_args(mode: Option<TestMode>) -> (r: Vec<&'static str>)
    ensures
        r@.len() == 5,
        r@[0]@ == "run"@,
        r@[1]@ == "--release"@,
        r@[2]@ == "--bin"@,
        r@[3]@ == "test-runner"@,
        r@[4]@ == test_mode_command(
            match mode {
                Some(m) => m,
                None => TestMode::Full,
            },
        ),
{
    let m = match mode {
        Some(m) => m,
        None => TestMode::Full,
    };
    let command = match m {
        TestMode::Full => "full",
        TestMode::Quick => "quick",
        TestMode::Internal => "internal",
    };
    vec!["run", "--release", "--bin", "test-runner", command]
}

/// The SSH key the deployment uses: the key file setting when it holds more
/// than white space, else the key directory (default `/root/.ssh`) joined
/// with the key name (default `id_rsa`).
pub open spec fn ssh_key_file_spec(
    key_file: Option<Seq<char>>,
    key_path: Option<Seq<char>>,
    key_name: Option<Seq<char>>,
) -> Seq<char> {
    match key_file {
        Some(f) if trim_spec(f).len() > 0 => f,
        _ => (match key_path {
            Some(p) => p,
            None => "/root/.ssh"@,
        }) + "/"@ + (match key_name {
            Some(n) => n,
            None => "id_rsa"@,
        }),
    }
}

/// The views of an optional string slice.
pub open spec fn opt_view(o: Option<&str>) -> Option<Seq<char>> {
    match o {
        Some(s) => Some(s@),
        None => None,
    }
}

/// The SSH key file, from the values of the three settings where they are set.
pub fn ssh_key_file(key_file: Option<&str>, key_path: Option<&str>, key_name: Option<&str>) -> (r:
    String)
    ensures
        r@ == ssh_key_file_spec(opt_view(key_file), opt_view(key_path), opt_view(key_name)),
{
    if let Some(f) = key_file {
        if !crate::text::is_blank(f) {
            return f.to_string();
        }
    }
    let mut out = match key_path {
        Some(p) => p.to_string(),
        None => "/root/.ssh".to_string(),
    };
    append_str(&mut out, "/");
    match key_name {
        Some(n) => append_str(&mut out, n),
        None => append_str(&mut out, "id_rsa"),
    }
    out
}

} // verus!

verus! {

/// Where `p` first occurs in `s`, or -1.
pub open spec fn first_occurrence(s: Seq<char>, p: Seq<char>) -> int
    decreases s.len(),
{
    if s.len() < p.len() {
        -1
    } else if s.subrange(0, p.len() as int) == p {
        0
    } else if s.len() == 0 {
        -1
    } else {
        let r = first_occurrence(s.drop_first(), p);
        if r < 0 {
            -1
        } else {
            r + 1
        }
    }
}

/// `s` with its first occurrence of `p` replaced by `r`, as
/// `str::replacen(p, r, 1)` gives it.
pub open spec fn replace_first(s: Seq<char>, p: Seq<char>, r: Seq<char>) -> Seq<char> {
    let i = first_occurrence(s, p);
    if i < 0 {
        s
    } else {
        s.subrange(0, i) + r + s.subrange(i + p.len(), s.len() as int)
    }
}

/// `s` with `r` before each character and at the end, which is what
/// `str::replace` gives for an empty pattern (it matches at every character
/// boundary).
pub open spec fn replace_empty(s: Seq<char>, r: Seq<char>) -> Seq<char>
    decreases s.len(),
{
    if s.len() == 0 {
        r
    } else {
        r + seq![s[0]] + replace_empty(s.drop_first(), r)
    }
}

/// `s` with every occurrence of `p` replaced by `r`, scanning left to right,
/// as `str::replace` gives it; an empty `p` matches at every character
/// boundary.
pub open spec fn replace_all(s: Seq<char>, p: Seq<char>, r: Seq<char>) -> Seq<char>
    decreases s.len(),
{
    if p.len() == 0 {
        replace_empty(s, r)
    } else {
        let i = first_occurrence(s, p);
        if i < 0 {
            s
        } else {
            proof {
                lemma_first_occurrence(s, p);
            }
            s.subrange(0, i) + r + replace_all(s.subrange(i + p.len(), s.len() as int), p, r)
        }
    }
}

/// `first_occurrence` finds a true occurrence, and the first one.
pub proof fn lemma_first_occurrence(s: Seq<char>, p: Seq<char>)
    ensures
        first_occurrence(s, p) >= 0 ==> first_occurrence(s, p) + p.len() <= s.len() && s.subrange(
            first_occurrence(s, p),
            first_occurrence(s, p) + p.len(),
        ) == p,
        forall|j: int|
            0 <= j < (if first_occurrence(s, p) >= 0 {
                first_occurrence(s, p)
            } else {
                s.len() + 1int
            }) && j + p.len() <= s.len() ==> #[trigger] s.subrange(j, j + p.len()) != p,
    decreases s.len(),
{
    if s.len() >= p.len() && s.subrange(0, p.len() as int) != p && s.len() > 0 {
        let t = s.drop_first();
        lemma_first_occurrence(t, p);
        if first_occurrence(s, p) >= 0 {
            let i = first_occurrence(t, p);
            assert(s.subrange(i + 1, i + 1 + p.len()) =~= t.subrange(i, i + p.len()));
        }
        assert forall|j: int|
            0 <= j < (if first_occurrence(s, p) >= 0 {
                first_occurrence(s, p)
            } else {
                s.len() + 1int
            }) && j + p.len() <= s.len() implies #[trigger] s.subrange(j, j + p.len()) != p by {
            if j > 0 {
                assert(s.subrange(j, j + p.len()) =~= t.subrange(j - 1, j - 1 + p.len()));
            }
        }
    }
}

/// Where `p` first occurs in `s` from position `from` on, or -1; the search
/// compares runs of characters.
fn find_from(s: &str, p: &str, from: usize) -> (r: Option<usize>)
    requires
        from <= s@.len(),
    ensures
        match r {
            None => first_occurrence(s@.subrange(from as int, s@.len() as int), p@) < 0,
            Some(k) => first_occurrence(s@.subrange(from as int, s@.len() as int), p@) >= 0 && k
                == first_occurrence(s@.subrange(from as int, s@.len() as int), p@) + from,
        },
{
    let n = s.unicode_len();
    let m = p.unicode_len();
    let ghost t0 = s@.subrange(from as int, n as int);
    let mut i: usize = from;
    while i < n && !(m <= n - i && str_equal(s.substring_char(i, i + m), p))
        invariant
            n == s@.len(),
            m == p@.len(),
            from <= i <= n,
            t0 == s@.subrange(from as int, n as int),
            first_occurrence(t0, p@) == (if first_occurrence(s@.subrange(i as int, n as int), p@) < 0 {
                -1
            } else {
                first_occurrence(s@.subrange(i as int, n as int), p@) + (i - from)
            }),
        decreases n - i,
    {
        let ghost t = s@.subrange(i as int, n as int);
        assert(t.drop_first() =~= s@.subrange(i + 1, n as int));
        if m <= n - i {
            assert(t.subrange(0, m as int) =~= s@.subrange(i as int, i + m));
        }
        i = i + 1;
    }
    let ghost t = s@.subrange(i as int, n as int);
    if i < n {
        assert(t.subrange(0, m as int) =~= s@.subrange(i as int, i + m));
        Some(i)
    } else {
        if m == 0 {
            assert(t.subrange(0, 0) =~= p@);
            Some(i)
        } else {
            None
        }
    }
}

/// `s` with its first occurrence of `p` replaced by `r`.
pub fn replace_first_str(s: &str, p: &str, r: &str) -> (out: String)
    ensures
        out@ == replace_first(s@, p@, r@),
{
    assert(s@.subrange(0, s@.len() as int) =~= s@);
    let i = match find_from(s, p, 0) {
        Some(i) => i,
        None => return s.to_string(),
    };
    proof {
        lemma_first_occurrence(s@, p@);
    }
    let n = s.unicode_len();
    let m = p.unicode_len();
    let mut out = s.substring_char(0, i).to_string();
    append_str(&mut out, r);
    append_str(&mut out, s.substring_char(i + m, n));
    out
}

/// `s` with `r` before each of its characters and at its end.
fn replace_empty_str(s: &str, r: &str) -> (out: String)
    ensures
        out@ == replace_empty(s@, r@),
{
    let n = s.unicode_len();
    let mut out = String::new();
    let mut i: usize = 0;
    assert(s@.subrange(0, n as int) =~= s@);
    while i < n
        invariant
            n == s@.len(),
            i <= n,
            out@ + replace_empty(s@.subrange(i as int, n as int), r@) == replace_empty(s@, r@),
        decreases n - i,
    {
        let ghost t = s@.subrange(i as int, n as int);
        assert(t.drop_first() =~= s@.subrange(i + 1, n as int));
        let c = s.substring_char(i, i + 1);
        assert(c@ =~= seq![t[0]]);
        let ghost before = out@;
        append_str(&mut out, r);
        append_str(&mut out, c);
        assert(before + replace_empty(t, r@) =~= out@ + replace_empty(
            s@.subrange(i + 1, n as int),
            r@,
        ));
        i = i + 1;
    }
    assert(s@.subrange(n as int, n as int) =~= Seq::<char>::empty());
    append_str(&mut out, r);
    out
}

/// `s` with every occurrence of `p` replaced by `r`.
pub fn replace_all_str(s: &str, p: &str, r: &str) -> (out: String)
    ensures
        out@ == replace_all(s@, p@, r@),
{
    let n = s.unicode_len();
    let m = p.unicode_len();
    if m == 0 {
        return replace_empty_str(s, r);
    }
    let mut out = String::new();
    let mut pos: usize = 0;
    assert(s@.subrange(0, n as int) =~= s@);
    loop
        invariant
            n == s@.len(),
            m == p@.len(),
            m > 0,
            pos <= n,
            out@ + replace_all(s@.subrange(pos as int, n as int), p@, r@) == replace_all(s@, p@, r@),
        decreases n - pos,
    {
        let ghost t = s@.subrange(pos as int, n as int);
        let k = match find_from(s, p, pos) {
            Some(k) => k,
            None => {
                append_str(&mut out, s.substring_char(pos, n));
                assert(out@ == replace_all(s@, p@, r@));
                return out;
            },
        };
        proof {
            lemma_first_occurrence(t, p@);
        }
        let ghost j = k - pos;
        assert(s@.subrange(pos as int, k as int) =~= t.subrange(0, j));
        assert(s@.subrange(k + m, n as int) =~= t.subrange(j + m, t.len() as int));
        let ghost before = out@;
        append_str(&mut out, s.substring_char(pos, k));
        append_str(&mut out, r);
        assert(out@ == before + t.subrange(0, j) + r@);
        assert(before + replace_all(t, p@, r@) == before + (t.subrange(0, j) + r@ + replace_all(
            t.subrange(j + m, t.len() as int),
            p@,
            r@,
        )));
        assert(before + (t.subrange(0, j) + r@ + replace_all(t.subrange(j + m, t.len() as int), p@, r@))
            =~= out@ + replace_all(t.subrange(j + m, t.len() as int), p@, r@));
        pos = k + m;
    }
}

} // verus!

verus! {

/// The pieces of `s` between white-space characters (empty pieces included),
/// in order.
pub open spec fn ws_pieces(s: Seq<char>) -> Seq<Seq<char>>
    decreases s.len(),
{
    if s.len() == 0 {
        seq![Seq::<char>::empty()]
    } else if is_white_space(s.last()) {
        ws_pieces(s.drop_last()).push(Seq::<char>::empty())
    } else {
        let r = ws_pieces(s.drop_last());
        r.update(r.len() - 1, r.last().push(s.last()))
    }
}

/// `ws_pieces` always has a last piece.
proof fn lemma_ws_pieces_nonempty(s: Seq<char>)
    ensures
        ws_pieces(s).len() >= 1,
    decreases s.len(),
{
    if s.len() > 0 {
        lemma_ws_pieces_nonempty(s.drop_last());
    }
}

/// The non-empty pieces of a list, in order.
pub open spec fn non_empty(ps: Seq<Seq<char>>) -> Seq<Seq<char>>
    decreases ps.len(),
{
    if ps.len() == 0 {
        ps
    } else if ps.last().len() == 0 {
        non_empty(ps.drop_last())
    } else {
        non_empty(ps.drop_last()).push(ps.last())
    }
}

/// The words of `s`, as `str::split_whitespace` yields them: the runs of
/// characters between white space, without empty ones.
pub open spec fn words(s: Seq<char>) -> Seq<Seq<char>> {
    non_empty(ws_pieces(s))
}

/// The words of `s`.
pub fn split_whitespace(s: &str) -> (r: Vec<String>)
    ensures
        views(r@) == words(s@),
{
    let n = s.unicode_len();
    let mut pieces: Vec<String> = Vec::new();
    let mut start: usize = 0;
    let mut i: usize = 0;
    assert(s@.subrange(0, 0) =~= Seq::<char>::empty());
    assert(views(pieces@).push(s@.subrange(0, 0)) =~= ws_pieces(s@.subrange(0, 0)));
    while i < n
        invariant
            n == s@.len(),
            0 <= start <= i <= n,
            views(pieces@).push(s@.subrange(start as int, i as int)) == ws_pieces(s@.subrange(0, i as int)),
        decreases n - i,
    {
        let c = s.get_char(i);
        let ghost old_pieces = views(pieces@);
        assert(s@.subrange(0, i + 1).drop_last() =~= s@.subrange(0, i as int));
        assert(s@.subrange(0, i + 1).last() == c);
        if is_whitespace_char(c) {
            let piece = s.substring_char(start, i).to_string();
            pieces.push(piece);
            assert(views(pieces@) =~= old_pieces.push(s@.subrange(start as int, i as int)));
            start = i + 1;
            assert(s@.subrange(start as int, i + 1) =~= Seq::<char>::empty());
        } else {
            assert(s@.subrange(start as int, i + 1) =~= s@.subrange(start as int, i as int).push(c));
            assert(old_pieces.push(s@.subrange(start as int, i as int)).update(
                old_pieces.len() as int,
                s@.subrange(start as int, i + 1),
            ) =~= old_pieces.push(s@.subrange(start as int, i + 1)));
        }
        i = i + 1;
    }
    let last = s.substring_char(start, n).to_string();
    let ghost before = views(pieces@);
    pieces.push(last);
    assert(views(pieces@) =~= before.push(s@.subrange(start as int, n as int)));
    assert(s@.subrange(0, n as int) =~= s@);
    let ghost all = views(pieces@);
    let mut out: Vec<String> = Vec::new();
    let mut k: usize = 0;
    while k < pieces.len()
        invariant
            all == views(pieces@),
            all == ws_pieces(s@),
            k <= pieces@.len(),
            views(out@) == non_empty(all.subrange(0, k as int)),
        decreases pieces@.len() - k,
    {
        assert(all.subrange(0, k + 1).drop_last() =~= all.subrange(0, k as int));
        assert(all.subrange(0, k + 1).last() == pieces@[k as int]@);
        if pieces[k].unicode_len() > 0 {
            let w = pieces[k].clone();
            let ghost ob = out@;
            out.push(w);
            assert(views(out@) =~= views(ob).push(w@));
        }
        k = k + 1;
    }
    assert(all.subrange(0, pieces@.len() as int) =~= all);
    out
}

/// A command as the test runner runs it: the program, and its arguments.
pub open spec fn command_parts(ws: Seq<Seq<char>>) -> (Seq<char>, Seq<Seq<char>>) {
    if ws.len() == 0 {
        ("echo"@, seq!["No command"@])
    } else {
        (ws[0], ws.subrange(1, ws.len() as int))
    }
}

/// Splits a command line into its program and arguments; an empty line runs
/// `echo No command`.
fn split_command(command: &str) -> (r: (String, Vec<String>))
    ensures
        (r.0@, views(r.1@)) == command_parts(words(command@)),
{
    let parts = split_whitespace(command);
    if parts.len() == 0 {
        let args = vec!["No command".to_string()];
        assert(views(args@) =~= seq!["No command"@]);
        return ("echo".to_string(), args);
    }
    let program = parts[0].clone();
    assert(views(parts@)[0] == parts@[0]@);
    let mut args: Vec<String> = Vec::new();
    let mut i: usize = 1;
    while i < parts.len()
        invariant
            1 <= i <= parts@.len(),
            views(args@) == views(parts@).subrange(1, i as int),
        decreases parts@.len() - i,
    {
        let a = parts[i].clone();
        let ghost ob = args@;
        args.push(a);
        assert(args@ == ob.push(a));
        assert(views(parts@)[i as int] == a@);
        assert(views(args@) =~= views(ob).push(a@));
        assert(views(args@) =~= views(parts@).subrange(1, i + 1));
        i = i + 1;
    }
    (program, args)
}

/// The program and arguments of a command run from outside the container.
pub fn parse_external_command(command: &str) -> (r: (String, Vec<String>))
    ensures
        (r.0@, views(r.1@)) == command_parts(words(command@)),
{
    split_command(command)
}

/// The program and arguments of a command run inside the container: the
/// `docker compose exec app ` prefix is dropped first, wherever it occurs.
pub fn parse_internal_command(command: &str) -> (r: (String, Vec<String>))
    ensures
        (r.0@, views(r.1@)) == command_parts(
            words(replace_all(command@, "docker compose exec app "@, Seq::empty())),
        ),
{
    proof {
        reveal_strlit("docker compose exec app ");
        reveal_strlit("");
        assert(""@ =~= Seq::<char>::empty());
    }
    let clean = replace_all_str(command, "docker compose exec app ", "");
    split_command(clean.as_str())
}

/// The command as the test runner runs it: `cargo check` and `cargo test`
/// get the release profile when they do not ask for it already.
pub open spec fn release_command_spec(cmd: Seq<char>) -> Seq<char> {
    if has_substring(cmd, "cargo check"@) && !has_substring(cmd, "--release"@) {
        replace_first(cmd, "cargo check"@, "cargo check --release"@)
    } else if has_substring(cmd, "cargo test"@) && !has_substring(cmd, "--release"@) {
        replace_first(cmd, "cargo test"@, "cargo test --release"@)
    } else {
        cmd
    }
}

/// The command as the test runner runs it.
pub fn release_command(cmd: &str) -> (r: String)
    ensures
        r@ == release_command_spec(cmd@),
{
    if contains_str(cmd, "cargo check") && !contains_str(cmd, "--release") {
        replace_first_str(cmd, "cargo check", "cargo check --release")
    } else if contains_str(cmd, "cargo test") && !contains_str(cmd, "--release") {
        replace_first_str(cmd, "cargo test", "cargo test --release")
    } else {
        cmd.to_string()
    }
}

/// Commands that test or check skip the style sheet build.
pub fn should_skip_tailwind(cmd: &str) -> (b: bool)
    ensures
        b == (has_substring(cmd@, "test"@) || has_substring(cmd@, "check"@)),
{
    contains_str(cmd, "test") || contains_str(cmd, "check")
}

/// The arguments with `-e SKIP_TAILWIND=1` put before every `app`, so that
/// `docker compose exec` passes the setting into the container.
pub open spec fn with_skip_tailwind_spec(args: Seq<Seq<char>>) -> Seq<Seq<char>>
    decreases args.len(),
{
    if args.len() == 0 {
        args
    } else {
        let rest = with_skip_tailwind_spec(args.drop_last());
        if args.last() == "app"@ {
            rest + seq!["-e"@, "SKIP_TAILWIND=1"@, args.last()]
        } else {
            rest.push(args.last())
        }
    }
}

/// Puts `-e SKIP_TAILWIND=1` before every `app` argument.
pub fn with_skip_tailwind(args: &Vec<String>) -> (r: Vec<String>)
    ensures
        views(r@) == with_skip_tailwind_spec(views(args@)),
{
    let ghost av = views(args@);
    let mut out: Vec<String> = Vec::new();
    let mut i: usize = 0;
    while i < args.len()
        invariant
            av == views(args@),
            i <= args@.len(),
            views(out@) == with_skip_tailwind_spec(av.subrange(0, i as int)),
        decreases args@.len() - i,
    {
        assert(av.subrange(0, i + 1).drop_last() =~= av.subrange(0, i as int));
        assert(av.subrange(0, i + 1).last() == args@[i as int]@);
        let ghost ob = views(out@);
        if str_equal(args[i].as_str(), "app") {
            let e = "-e".to_string();
            let v = "SKIP_TAILWIND=1".to_string();
            out.push(e);
            out.push(v);
        }
        let a = args[i].clone();
        out.push(a);
        assert(views(out@) =~= with_skip_tailwind_spec(av.subrange(0, i + 1)));
        i = i + 1;
    }
    assert(av.subrange(0, args@.len() as int) =~= av);
    out
}

} // verus!

verus! {

/// One test of a suite: its name, and the command that runs it.
pub struct TestStep {
    pub name: String,
    pub command: String,
}

/// The prefix that runs a command in the application container from outside.
pub open spec fn container_prefix() -> Seq<char> {
    "docker compose exec app "@
}

/// A command as the runner issues it: as it is inside the container, and
/// behind `docker compose exec app` from outside.
pub open spec fn in_container(is_internal: bool, cmd: Seq<char>) -> Seq<char> {
    if is_internal {
        cmd
    } else {
        container_prefix() + cmd
    }
}

/// The `(name, command)` pairs of a list of steps.
pub open spec fn step_views(steps: Seq<TestStep>) -> Seq<(Seq<char>, Seq<char>)> {
    steps.map_values(|s: TestStep| (s.name@, s.command@))
}

/// The steps that a table of `(name, base command)` pairs describes.
pub open spec fn steps_of(is_internal: bool, table: Seq<(Seq<char>, Seq<char>)>) -> Seq<(Seq<char>, Seq<char>)> {
    table.map_values(|p: (Seq<char>, Seq<char>)| (p.0, in_container(is_internal, p.1)))
}

/// The `(name, command)` pairs of a table of string slices.
pub open spec fn pair_views(table: Seq<(&str, &str)>) -> Seq<(Seq<char>, Seq<char>)> {
    table.map_values(|p: (&str, &str)| (p.0@, p.1@))
}

/// The steps for a table of `(name, base command)` pairs.
fn build_steps(table: &Vec<(&'static str, &'static str)>, is_internal: bool) -> (r: Vec<TestStep>)
    ensures
        step_views(r@) == steps_of(is_internal, pair_views(table@)),
{
    let ghost tv = pair_views(table@);
    let mut out: Vec<TestStep> = Vec::new();
    let mut i: usize = 0;
    proof {
        reveal_strlit("");
        reveal_strlit("docker compose exec app ");
    }
    while i < table.len()
        invariant
            tv == pair_views(table@),
            i <= table@.len(),
            step_views(out@) == steps_of(is_internal, tv.subrange(0, i as int)),
            ""@ == Seq::<char>::empty(),
        decreases table@.len() - i,
    {
        let (name, base) = table[i];
        let mut command = if is_internal {
            "".to_string()
        } else {
            "docker compose exec app ".to_string()
        };
        append_str(&mut command, base);
        assert(command@ == in_container(is_internal, base@));
        let s = TestStep { name: name.to_string(), command };
        let ghost ob = out@;
        out.push(s);
        assert(step_views(out@) =~= step_views(ob).push((name@, command@)));
        assert(steps_of(is_internal, tv.subrange(0, i + 1)) =~= steps_of(is_internal, tv.subrange(0, i as int)).push((name@, in_container(is_internal, base@))));
        i = i + 1;
    }
    assert(tv.subrange(0, table@.len() as int) =~= tv);
    out
}

/// The complete suite: compile check, the unit, story, integration, example,
/// flow and dashboard tests, and the browser tests.
pub open spec fn full_suite_table() -> Seq<(Seq<char>, Seq<char>)> {
    seq![
        ("Compile Check"@, "cargo check"@),
        ("Unit Tests (All Modules)"@, "cargo test --lib"@),
        ("Story Module Tests"@, "cargo test story_tests"@),
        ("Core Integration Tests"@, "cargo test --test integration_tests"@),
        ("Code Usage Examples"@, "cargo test --test main_code_usage_example"@),
        ("Story Flow Tests"@, "cargo test --test story_flow_tests"@),
        ("Dashboard Core Tests"@, "cargo test --test dashboard_tests"@),
        ("Dashboard Interaction Tests"@, "cargo test --test dashboard_interaction_tests"@),
        ("Dashboard Benchmark Tests"@, "cargo test --test dashboard_benchmark_tests"@),
        ("WASM Bindgen Tests (Chrome Headless)"@, "wasm-pack test --headless --chrome --release"@),
    ]
}

/// The steps of the complete suite.
pub fn full_suite(is_internal: bool) -> (r: Vec<TestStep>)
    ensures
        step_views(r@) == steps_of(is_internal, full_suite_table()),
{
    let table = vec![
        ("Compile Check", "cargo check"),
        ("Unit Tests (All Modules)", "cargo test --lib"),
        ("Story Module Tests", "cargo test story_tests"),
        ("Core Integration Tests", "cargo test --test integration_tests"),
        ("Code Usage Examples", "cargo test --test main_code_usage_example"),
        ("Story Flow Tests", "cargo test --test story_flow_tests"),
        ("Dashboard Core Tests", "cargo test --test dashboard_tests"),
        ("Dashboard Interaction Tests", "cargo test --test dashboard_interaction_tests"),
        ("Dashboard Benchmark Tests", "cargo test --test dashboard_benchmark_tests"),
        ("WASM Bindgen Tests (Chrome Headless)", "wasm-pack test --headless --chrome --release"),
    ];
    assert(pair_views(table@) =~= full_suite_table());
    build_steps(&table, is_internal)
}

/// The quick suite: compile check, unit, story, integration and dashboard
/// core tests.
pub open spec fn quick_suite_table() -> Seq<(Seq<char>, Seq<char>)> {
    seq![
        ("Compile check"@, "cargo check"@),
        ("Unit tests"@, "cargo test --lib"@),
        ("Story tests"@, "cargo test story_tests"@),
        ("Integration tests"@, "cargo test --test integration_tests"@),
        ("Dashboard core tests"@, "cargo test --test dashboard_tests"@),
    ]
}

/// The steps of the quick suite.
pub fn quick_suite(is_internal: bool) -> (r: Vec<TestStep>)
    ensures
        step_views(r@) == steps_of(is_internal, quick_suite_table()),
{
    let table = vec![
        ("Compile check", "cargo check"),
        ("Unit tests", "cargo test --lib"),
        ("Story tests", "cargo test story_tests"),
        ("Integration tests", "cargo test --test integration_tests"),
        ("Dashboard core tests", "cargo test --test dashboard_tests"),
    ];
    assert(pair_views(table@) =~= quick_suite_table());
    build_steps(&table, is_internal)
}

/// The benchmark suite: the performance tests and `cargo bench`.
pub open spec fn benchmark_table() -> Seq<(Seq<char>, Seq<char>)> {
    seq![
        ("Performance tests"@, "cargo test --release performance_tests"@),
        ("Benchmark tests"@, "cargo bench"@),
    ]
}

/// The steps of the benchmark suite.
pub fn benchmark_suite(is_internal: bool) -> (r: Vec<TestStep>)
    ensures
        step_views(r@) == steps_of(is_internal, benchmark_table()),
{
    let table = vec![
        ("Performance tests", "cargo test --release performance_tests"),
        ("Benchmark tests", "cargo bench"),
    ];
    assert(pair_views(table@) =~= benchmark_table());
    build_steps(&table, is_internal)
}

/// The suite run inside the container: each command is its own name.
pub open spec fn internal_suite_table() -> Seq<(Seq<char>, Seq<char>)> {
    seq![
        ("cargo check --release"@, "cargo check --release"@),
        ("cargo test --lib"@, "cargo test --lib"@),
        ("cargo test story_tests"@, "cargo test story_tests"@),
        ("cargo test --test integration_tests"@, "cargo test --test integration_tests"@),
        ("cargo test --test main_code_usage_example"@, "cargo test --test main_code_usage_example"@),
        ("cargo test --test story_flow_tests"@, "cargo test --test story_flow_tests"@),
        ("cargo test --test dashboard_tests"@, "cargo test --test dashboard_tests"@),
        ("cargo test --test dashboard_interaction_tests"@, "cargo test --test dashboard_interaction_tests"@),
        ("cargo test --test dashboard_benchmark_tests"@, "cargo test --test dashboard_benchmark_tests"@),
    ]
}

/// The steps of the in-container suite.
pub fn internal_suite() -> (r: Vec<TestStep>)
    ensures
        step_views(r@) == steps_of(true, internal_suite_table()),
{
    let table = vec![
        ("cargo check --release", "cargo check --release"),
        ("cargo test --lib", "cargo test --lib"),
        ("cargo test story_tests", "cargo test story_tests"),
        ("cargo test --test integration_tests", "cargo test --test integration_tests"),
        ("cargo test --test main_code_usage_example", "cargo test --test main_code_usage_example"),
        ("cargo test --test story_flow_tests", "cargo test --test story_flow_tests"),
        ("cargo test --test dashboard_tests", "cargo test --test dashboard_tests"),
        ("cargo test --test dashboard_interaction_tests", "cargo test --test dashboard_interaction_tests"),
        ("cargo test --test dashboard_benchmark_tests", "cargo test --test dashboard_benchmark_tests"),
    ];
    assert(pair_views(table@) =~= internal_suite_table());
    build_steps(&table, true)
}

/// The categories of tests that can be run alone.
#[derive(Debug, Clone, Copy, PartialEq, Eq, Structural)]
pub enum TestCategory {
    Compile,
    UI,
    Advanced,
    MockApi,
    Integration,
    Unit,
    External,
    Story,
    Dashboard,
}

/// The name and base command of each category.
pub open spec fn category_pair(c: TestCategory) -> (Seq<char>, Seq<char>) {
    match c {
        TestCategory::Compile => ("Compile check"@, "cargo check"@),
        TestCategory::UI => ("UI component tests"@, "cargo test --lib components::story_content_tests"@),
        TestCategory::Advanced => (
            "Advanced feature tests"@,
            "cargo test --lib components::story_content_advanced_tests"@,
        ),
        TestCategory::MockApi => ("API Mock tests"@, "cargo test --lib services::api_tests"@),
        TestCategory::Integration => ("Integration tests"@, "cargo test --test integration_tests"@),
        TestCategory::Unit => ("Unit tests"@, "cargo test --lib"@),
        TestCategory::External => (
            "External integration tests"@,
            "cargo test --test integration_tests --test main_code_usage_example --test story_flow_tests"@,
        ),
        TestCategory::Story => ("Story module tests"@, "cargo test story_tests"@),
        TestCategory::Dashboard => (
            "Dashboard tests"@,
            "cargo test --test dashboard_tests --test dashboard_interaction_tests --test dashboard_benchmark_tests"@,
        ),
    }
}

/// The step that runs one category.
pub fn category_suite(category: TestCategory, is_internal: bool) -> (r: Vec<TestStep>)
    ensures
        step_views(r@) == steps_of(is_internal, seq![category_pair(category)]),
{
    let pair = match category {
        TestCategory::Compile => ("Compile check", "cargo check"),
        TestCategory::UI => ("UI component tests", "cargo test --lib components::story_content_tests"),
        TestCategory::Advanced => (
            "Advanced feature tests",
            "cargo test --lib components::story_content_advanced_tests",
        ),
        TestCategory::MockApi => ("API Mock tests", "cargo test --lib services::api_tests"),
        TestCategory::Integration => ("Integration tests", "cargo test --test integration_tests"),
        TestCategory::Unit => ("Unit tests", "cargo test --lib"),
        TestCategory::External => (
            "External integration tests",
            "cargo test --test integration_tests --test main_code_usage_example --test story_flow_tests",
        ),
        TestCategory::Story => ("Story module tests", "cargo test story_tests"),
        TestCategory::Dashboard => (
            "Dashboard tests",
            "cargo test --test dashboard_tests --test dashboard_interaction_tests --test dashboard_benchmark_tests",
        ),
    };
    let table = vec![pair];
    assert(pair_views(table@) =~= seq![category_pair(category)]);
    build_steps(&table, is_internal)
}

/// The counts of a test run.
pub struct TestTally {
    pub total: usize,
    pub passed: usize,
    pub failed: usize,
}

impl TestTally {
    /// Nothing run yet.
    pub fn new() -> (r: Self)
        ensures
            r.total == 0 && r.passed == 0 && r.failed == 0,
    {
        TestTally { total: 0, passed: 0, failed: 0 }
    }

    /// Counts one finished test; the counters wrap around as the atomic
    /// counters they stand for do.
    pub fn record(&mut self, passed: bool)
        ensures
            final(self).total == vstd::wrapping::usize_specs::wrapping_add(old(self).total, 1),
            final(self).passed == (if passed {
                vstd::wrapping::usize_specs::wrapping_add(old(self).passed, 1)
            } else {
                old(self).passed
            }),
            final(self).failed == (if passed {
                old(self).failed
            } else {
                vstd::wrapping::usize_specs::wrapping_add(old(self).failed, 1)
            }),
    {
        if passed {
            self.passed = self.passed.wrapping_add(1);
        } else {
            self.failed = self.failed.wrapping_add(1);
        }
        self.total = self.total.wrapping_add(1);
    }

    /// The run succeeds when no test failed; the runner's exit status.
    pub fn exit_code(&self) -> (r: i32)
        ensures
            r == (if self.failed > 0 {
                1i32
            } else {
                0i32
            }),
    {
        if self.failed > 0 {
            1
        } else {
            0
        }
    }
}

/// Every test counted is counted once, as passed or as failed.
pub open spec fn tally_consistent(t: TestTally) -> bool {
    t.total == t.passed + t.failed
}

/// Counting a finished test keeps every test counted once, as passed or as
/// failed, and raises the total by one and the matching count by one (short
/// of the counters wrapping around at `usize::MAX`).
pub proof fn law_tally_counts_each_test_once(before: TestTally, after: TestTally, passed: bool)
    requires
        tally_consistent(before),
        before.total < usize::MAX,
        after.total == vstd::wrapping::usize_specs::wrapping_add(before.total, 1),
        after.passed == (if passed {
            vstd::wrapping::usize_specs::wrapping_add(before.passed, 1)
        } else {
            before.passed
        }),
        after.failed == (if passed {
            before.failed
        } else {
            vstd::wrapping::usize_specs::wrapping_add(before.failed, 1)
        }),
    ensures
        tally_consistent(after),
        after.total == before.total + 1,
        after.passed == before.passed + (if passed { 1int } else { 0int }),
        after.failed == before.failed + (if passed { 0int } else { 1int }),
{
}

/// A new tally counts every test once: it has counted none.
pub proof fn law_new_tally_consistent(t: TestTally)
    requires
        t.total == 0 && t.passed == 0 && t.failed == 0,
    ensures
        tally_consistent(t),
{
}

} // verus!

verus! {

/// The remote shell command that unpacks an uploaded package under `path`:
/// into a fresh directory, keeping the previous release as `frontend_old`.
pub fn remote_extract_command(path: &str) -> (r: String)
    ensures
        r@ == "cd "@ + path@
            + " && mkdir -p frontend_new && cd frontend_new && tar -xzf ../public.tar.gz --strip-components=1 && cd .. && rm -rf frontend_old && mv frontend frontend_old 2>/dev/null || true && mv frontend_new frontend"@,
{
    let mut r = "cd ".to_string();
    append_str(&mut r, path);
    append_str(
        &mut r,
        " && mkdir -p frontend_new && cd frontend_new && tar -xzf ../public.tar.gz --strip-components=1 && cd .. && rm -rf frontend_old && mv frontend frontend_old 2>/dev/null || true && mv frontend_new frontend",
    );
    r
}

/// The remote shell command that restarts the services under `path`.
pub fn remote_restart_command(path: &str) -> (r: String)
    ensures
        r@ == "cd "@ + path@ + " && docker compose restart"@,
{
    let mut r = "cd ".to_string();
    append_str(&mut r, path);
    append_str(&mut r, " && docker compose restart");
    r
}

/// The `user@host` that SSH connects to.
pub fn ssh_destination(user: &str, host: &str) -> (r: String)
    ensures
        r@ == user@ + "@"@ + host@,
{
    let mut r = user.to_string();
    append_str(&mut r, "@");
    append_str(&mut r, host);
    r
}

/// The `user@host:path/` that the package is copied to.
pub fn upload_destination(user: &str, host: &str, path: &str) -> (r: String)
    ensures
        r@ == user@ + "@"@ + host@ + ":"@ + path@ + "/"@,
{
    let mut r = ssh_destination(user, host);
    append_str(&mut r, ":");
    append_str(&mut r, path);
    append_str(&mut r, "/");
    r
}

/// The SSH options every remote call uses: the key, and strict checking of
/// known hosts.
pub fn ssh_options(key_file: &str) -> (r: Vec<String>)
    ensures
        views(r@) == seq![
            "-i"@,
            key_file@,
            "-o"@,
            "UserKnownHostsFile=/root/.ssh/known_hosts"@,
            "-o"@,
            "StrictHostKeyChecking=yes"@,
        ],
{
    let r = vec![
        "-i".to_string(),
        key_file.to_string(),
        "-o".to_string(),
        "UserKnownHostsFile=/root/.ssh/known_hosts".to_string(),
        "-o".to_string(),
        "StrictHostKeyChecking=yes".to_string(),
    ];
    assert(views(r@) =~= seq![
        "-i"@,
        key_file@,
        "-o"@,
        "UserKnownHostsFile=/root/.ssh/known_hosts"@,
        "-o"@,
        "StrictHostKeyChecking=yes"@,
    ]);
    r
}

} // verus!
