use vstd::prelude::*;

use crate::function::string_views;
use crate::text::{decimal_string, decimal_text};

verus! {

/// The text whose presence marks a probe as having an executable entry point.
pub const ENTRY_MARKER: &'static str = "pub(crate) fn main(";

/// Value of the `RUSTFLAGS` override that unlocks gated diagnostics.
pub const UNSTABLE_FLAGS: &'static str = "-Z force-unstable-if-unmarked";

/// Number of diagnostic flags in the lint battery.
pub const LINT_FLAG_COUNT: usize = 29;

/// `needle` occurs in `hay` as a contiguous run.
pub open spec fn contains(hay: Seq<char>, needle: Seq<char>) -> bool {
    exists|i: int| 0 <= i && i + needle.len() <= hay.len() && #[trigger] hay.subrange(i, i + needle.len()) == needle
}

/// `s` with every double-quote character removed.
pub open spec fn strip_quotes(s: Seq<char>) -> Seq<char> {
    s.filter(|c: char| c != '"')
}

/// How `format!("{:?}", s)` spells the string `s`.
pub uninterp spec fn debug_of(s: Seq<char>) -> Seq<char>;

/// Relies on `str::contains` with a `&str` pattern: true exactly when the
/// pattern occurs as a substring.
#[verifier::external_body]
fn str_contains(hay: &str, needle: &str) -> (r: bool)
    ensures
        r == contains(hay@, needle@),
{
    hay.contains(needle)
}

/// Relies on `str::replace`: every `"` replaced by nothing.
#[verifier::external_body]
fn remove_quotes(s: &str) -> (r: String)
    ensures
        r@ == strip_quotes(s@),
{
    s.replace('"', "")
}

/// Relies on the `Debug` formatting of `str`, which depends on the text alone.
#[verifier::external_body]
fn debug_string(s: &str) -> (r: String)
    ensures
        r@ == debug_of(s@),
{
    format!("{:?}", s)
}

/// A command to run: executable, arguments in order, environment overrides
/// for this run only, and, when present, bytes to feed on standard input in
/// place of a file argument.
pub struct ToolInvocation {
    pub program: String,
    pub args: Vec<String>,
    pub envs: Vec<(String, String)>,
    pub stdin: Option<Vec<u8>>,
}

/// The environment overrides as pairs of texts.
pub open spec fn pair_views(e: Seq<(String, String)>) -> Seq<(Seq<char>, Seq<char>)> {
    e.map_values(|p: (String, String)| (p.0@, p.1@))
}

/// The stdin payload as bytes, if any.
pub open spec fn payload_view(p: Option<Vec<u8>>) -> Option<Seq<u8>> {
    match p {
        Some(v) => Some(v@),
        None => None,
    }
}

impl ToolInvocation {
    pub open spec fn arg_views(&self) -> Seq<Seq<char>> {
        string_views(self.args@)
    }

    pub open spec fn env_views(&self) -> Seq<(Seq<char>, Seq<char>)> {
        pair_views(self.envs@)
    }

    /// A command running `program` with nothing else set.
    pub fn new(program: &str) -> (r: Self)
        ensures
            r.program@ == program@,
            r.arg_views() == Seq::<Seq<char>>::empty(),
            r.env_views() == Seq::<(Seq<char>, Seq<char>)>::empty(),
            r.stdin is None,
    {
        let r = ToolInvocation {
            program: program.to_string(),
            args: Vec::new(),
            envs: Vec::new(),
            stdin: None,
        };
        assert(r.arg_views() =~= Seq::<Seq<char>>::empty());
        assert(r.env_views() =~= Seq::<(Seq<char>, Seq<char>)>::empty());
        r
    }

    /// Appends one argument.
    pub fn arg(&mut self, a: &str)
        ensures
            final(self).program@ == old(self).program@,
            final(self).arg_views() == old(self).arg_views().push(a@),
            final(self).env_views() == old(self).env_views(),
            payload_view(final(self).stdin) == payload_view(old(self).stdin),
    {
        self.args.push(a.to_string());
        assert(self.arg_views() =~= old(self).arg_views().push(a@));
    }

    /// Adds one environment override.
    pub fn env(&mut self, key: &str, value: &str)
        ensures
            final(self).program@ == old(self).program@,
            final(self).arg_views() == old(self).arg_views(),
            final(self).env_views() == old(self).env_views().push((key@, value@)),
            payload_view(final(self).stdin) == payload_view(old(self).stdin),
    {
        self.envs.push((key.to_string(), value.to_string()));
        assert(self.env_views() =~= old(self).env_views().push((key@, value@)));
    }
}

/// Tells whether a probe's text has an executable entry point: a plain
/// textual search for the marker, wherever it stands (comments and string
/// literals included).
pub fn has_entry_point(text: &str) -> (r: bool)
    ensures
        r == contains(text@, ENTRY_MARKER@),
{
    str_contains(text, ENTRY_MARKER)
}

/// The arguments that make a probe without an entry point compile as a
/// library.
pub open spec fn library_override(text: Seq<char>) -> Seq<Seq<char>> {
    if contains(text, ENTRY_MARKER@) {
        Seq::empty()
    } else {
        seq!["--crate-type"@, "lib"@]
    }
}

/// The marker counts wherever it stands in the probe, comments and string
/// literals included: such a probe gets no library override, and a probe
/// without it gets `--crate-type lib`.
pub proof fn lemma_entry_marker_anywhere(before: Seq<char>, after: Seq<char>, other: Seq<char>)
    requires
        !contains(other, ENTRY_MARKER@),
    ensures
        library_override(before + ENTRY_MARKER@ + after) == Seq::<Seq<char>>::empty(),
        library_override(other) == seq!["--crate-type"@, "lib"@],
{
    let t = before + ENTRY_MARKER@ + after;
    let i = before.len() as int;
    assert(t.subrange(i, i + ENTRY_MARKER@.len()) =~= ENTRY_MARKER@);
}

fn add_library_override(inv: &mut ToolInvocation, text: &str)
    ensures
        final(inv).program@ == old(inv).program@,
        final(inv).arg_views() == old(inv).arg_views() + library_override(text@),
        final(inv).env_views() == old(inv).env_views(),
        payload_view(final(inv).stdin) == payload_view(old(inv).stdin),
{
    if !has_entry_point(text) {
        inv.arg("--crate-type");
        inv.arg("lib");
    }
    assert(final(inv).arg_views() =~= old(inv).arg_views() + library_override(text@));
}

/// Arguments of a single-pass compile.
pub open spec fn compile_args(file: Seq<char>, extra: Seq<Seq<char>>, text: Seq<char>) -> Seq<
    Seq<char>,
> {
    seq![file] + extra + seq!["-o/dev/null"@, "-Zdump-mir-dir=/dev/null"@] + library_override(
        text,
    )
}

/// A single-pass compile of the probe at `file`, whose contents are `text`,
/// with the caller's `extra` flags; output and MIR dumps are discarded.
pub fn compile(executable: &str, file: &str, text: &str, extra: &Vec<String>) -> (r:
    ToolInvocation)
    ensures
        r.program@ == executable@,
        r.arg_views() == compile_args(file@, string_views(extra@), text@),
        r.env_views().len() == 0,
        r.stdin is None,
{
    let mut inv = ToolInvocation::new(executable);
    inv.arg(file);
    let mut i: usize = 0;
    while i < extra.len()
        invariant
            i <= extra@.len(),
            inv.program@ == executable@,
            inv.arg_views() == seq![file@] + string_views(extra@).subrange(0, i as int),
            inv.env_views().len() == 0,
            inv.stdin is None,
        decreases extra@.len() - i,
    {
        inv.arg(extra[i].as_str());
        i = i + 1;
        assert(inv.arg_views() =~= seq![file@] + string_views(extra@).subrange(0, i as int));
    }
    assert(string_views(extra@).subrange(0, i as int) =~= string_views(extra@));
    inv.arg("-o/dev/null");
    inv.arg("-Zdump-mir-dir=/dev/null");
    add_library_override(&mut inv, text);
    assert(inv.arg_views() =~= compile_args(file@, string_views(extra@), text@));
    inv
}

/// Arguments of pass `pass` of an incremental compile in `dir`.
pub open spec fn incremental_args(file: Seq<char>, text: Seq<char>, dir: Seq<char>, pass: nat) -> Seq<
    Seq<char>,
> {
    library_override(text) + seq![
        file,
        "-o"@ + dir + "/"@ + decimal_text(pass),
        "-Cincremental="@ + dir,
        "-Zincremental-verify-ich=yes"@,
    ]
}

/// One pass of an incremental compile whose cache lives in `dir`; the pass
/// number only selects the output path.
pub fn incremental_pass(executable: &str, file: &str, text: &str, dir: &str, pass: usize) -> (r:
    ToolInvocation)
    ensures
        r.program@ == executable@,
        r.arg_views() == incremental_args(file@, text@, dir@, pass as nat),
        r.env_views().len() == 0,
        r.stdin is None,
{
    let mut inv = ToolInvocation::new(executable);
    add_library_override(&mut inv, text);
    inv.arg(file);
    let mut out = "-o".to_string();
    out.append(dir);
    out.append("/");
    let n = decimal_string(pass);
    out.append(n.as_str());
    inv.arg(out.as_str());
    let mut cache = "-Cincremental=".to_string();
    cache.append(dir);
    inv.arg(cache.as_str());
    inv.arg("-Zincremental-verify-ich=yes");
    assert(inv.arg_views() =~= incremental_args(file@, text@, dir@, pass as nat));
    inv
}

/// The two passes of an incremental compile: the same probe and cache
/// directory, told apart only by the output path suffix `0` and `1`.
pub fn compile_incremental(executable: &str, file: &str, text: &str, dir: &str) -> (r: (
    ToolInvocation,
    ToolInvocation,
))
    ensures
        r.0.program@ == executable@,
        r.1.program@ == executable@,
        r.0.arg_views() == incremental_args(file@, text@, dir@, 0),
        r.1.arg_views() == incremental_args(file@, text@, dir@, 1),
        r.0.env_views().len() == 0,
        r.1.env_views().len() == 0,
        r.0.stdin is None,
        r.1.stdin is None,
{
    (
        incremental_pass(executable, file, text, dir, 0),
        incremental_pass(executable, file, text, dir, 1),
    )
}

/// The lint battery, in order.
pub open spec fn lint_flags() -> Seq<Seq<char>> {
    seq![
        "-Aclippy::cargo"@,
        "-Wclippy::pedantic"@,
        "-Wclippy::nursery"@,
        "-Wmissing-doc-code-examples"@,
        "-Wabsolute-paths-not-starting-with-crate"@,
        "-Wbare-trait-objects"@,
        "-Wbox-pointers"@,
        "-Welided-lifetimes-in-paths"@,
        "-Wellipsis-inclusive-range-patterns"@,
        "-Wkeyword-idents"@,
        "-Wmacro-use-extern-crate"@,
        "-Wmissing-copy-implementations"@,
        "-Wmissing-debug-implementations"@,
        "-Wmissing-docs"@,
        "-Wsingle-use-lifetimes"@,
        "-Wtrivial-casts"@,
        "-Wtrivial-numeric-casts"@,
        "-Wunreachable-pub"@,
        "-Wunsafe-code"@,
        "-Wunstable-features"@,
        "-Wunused-extern-crates"@,
        "-Wunused-import-braces"@,
        "-Wunused-labels"@,
        "-Wunused-lifetimes"@,
        "-Wunused-qualifications"@,
        "-Wunused-results"@,
        "-Wvariant-size-differences"@,
        "--cap-lints"@,
        "warn"@,
    ]
}

fn lint_flag(i: usize) -> (r: &'static str)
    requires
        i < LINT_FLAG_COUNT,
    ensures
        r@ == lint_flags()[i as int],
{
    match i {
        0 => "-Aclippy::cargo",
        1 => "-Wclippy::pedantic",
        2 => "-Wclippy::nursery",
        3 => "-Wmissing-doc-code-examples",
        4 => "-Wabsolute-paths-not-starting-with-crate",
        5 => "-Wbare-trait-objects",
        6 => "-Wbox-pointers",
        7 => "-Welided-lifetimes-in-paths",
        8 => "-Wellipsis-inclusive-range-patterns",
        9 => "-Wkeyword-idents",
        10 => "-Wmacro-use-extern-crate",
        11 => "-Wmissing-copy-implementations",
        12 => "-Wmissing-debug-implementations",
        13 => "-Wmissing-docs",
        14 => "-Wsingle-use-lifetimes",
        15 => "-Wtrivial-casts",
        16 => "-Wtrivial-numeric-casts",
        17 => "-Wunreachable-pub",
        18 => "-Wunsafe-code",
        19 => "-Wunstable-features",
        20 => "-Wunused-extern-crates",
        21 => "-Wunused-import-braces",
        22 => "-Wunused-labels",
        23 => "-Wunused-lifetimes",
        24 => "-Wunused-qualifications",
        25 => "-Wunused-results",
        26 => "-Wvariant-size-differences",
        27 => "--cap-lints",
        _ => "warn",
    }
}

/// The overrides shared by the lint and documentation runs.
pub open spec fn unstable_envs(sysroot: Seq<char>) -> Seq<(Seq<char>, Seq<char>)> {
    seq![("RUSTFLAGS"@, UNSTABLE_FLAGS@), ("SYSROOT"@, sysroot)]
}

/// Arguments of a lint run.
pub open spec fn lint_args(file: Seq<char>, text: Seq<char>) -> Seq<Seq<char>> {
    library_override(text) + seq![file] + lint_flags() + seq!["-o"@, "/dev/null"@]
}

/// A lint run with the full diagnostic battery, lint severity capped at
/// warnings, and gated diagnostics unlocked for this run.
pub fn lint(executable: &str, file: &str, text: &str, sysroot: &str) -> (r: ToolInvocation)
    ensures
        r.program@ == executable@,
        r.arg_views() == lint_args(file@, text@),
        r.env_views() == unstable_envs(sysroot@),
        r.stdin is None,
{
    let mut inv = ToolInvocation::new(executable);
    add_library_override(&mut inv, text);
    inv.env("RUSTFLAGS", UNSTABLE_FLAGS);
    inv.env("SYSROOT", sysroot);
    inv.arg(file);
    let ghost head = inv.arg_views();
    let mut i: usize = 0;
    while i < LINT_FLAG_COUNT
        invariant
            i <= LINT_FLAG_COUNT,
            inv.program@ == executable@,
            inv.arg_views() == head + lint_flags().subrange(0, i as int),
            inv.env_views() == unstable_envs(sysroot@),
            inv.stdin is None,
        decreases LINT_FLAG_COUNT - i,
    {
        inv.arg(lint_flag(i));
        i = i + 1;
        assert(inv.arg_views() =~= head + lint_flags().subrange(0, i as int));
    }
    assert(lint_flags().subrange(0, i as int) =~= lint_flags());
    inv.arg("-o");
    inv.arg("/dev/null");
    assert(inv.arg_views() =~= lint_args(file@, text@));
    inv
}

/// Arguments of a documentation run.
pub open spec fn document_args(file: Seq<char>) -> Seq<Seq<char>> {
    seq![
        file,
        "-Zunstable-options"@,
        "--document-private-items"@,
        "--document-hidden-items"@,
        "--cap-lints"@,
        "warn"@,
        "-o"@,
        "/dev/null"@,
    ]
}

/// A documentation run that includes private and hidden items.
pub fn document(executable: &str, file: &str, sysroot: &str) -> (r: ToolInvocation)
    ensures
        r.program@ == executable@,
        r.arg_views() == document_args(file@),
        r.env_views() == unstable_envs(sysroot@),
        r.stdin is None,
{
    let mut inv = ToolInvocation::new(executable);
    inv.env("RUSTFLAGS", UNSTABLE_FLAGS);
    inv.env("SYSROOT", sysroot);
    inv.arg(file);
    inv.arg("-Zunstable-options");
    inv.arg("--document-private-items");
    inv.arg("--document-hidden-items");
    inv.arg("--cap-lints");
    inv.arg("warn");
    inv.arg("-o");
    inv.arg("/dev/null");
    assert(inv.arg_views() =~= document_args(file@));
    assert(inv.env_views() =~= unstable_envs(sysroot@));
    inv
}

/// A check-only formatter run pinned to the 2018 edition.
pub fn format_check(executable: &str, file: &str, sysroot: &str) -> (r: ToolInvocation)
    ensures
        r.program@ == executable@,
        r.arg_views() == seq![file@, "--check"@, "--edition"@, "2018"@],
        r.env_views() == seq![("SYSROOT"@, sysroot@)],
        r.stdin is None,
{
    let mut inv = ToolInvocation::new(executable);
    inv.env("SYSROOT", sysroot);
    inv.arg(file);
    inv.arg("--check");
    inv.arg("--edition");
    inv.arg("2018");
    assert(inv.arg_views() =~= seq![file@, "--check"@, "--edition"@, "2018"@]);
    assert(inv.env_views() =~= seq![("SYSROOT"@, sysroot@)]);
    inv
}

/// A symbol-index run: the probe is not named on the command line; its
/// whole content is the payload for standard input.
pub fn symbol_index(executable: &str, content: &Vec<u8>) -> (r: ToolInvocation)
    ensures
        r.program@ == executable@,
        r.arg_views() == seq!["symbols"@],
        r.env_views().len() == 0,
        payload_view(r.stdin) == Some(content@),
{
    let mut inv = ToolInvocation::new(executable);
    inv.arg("symbols");
    assert(inv.arg_views() =~= seq!["symbols"@]);
    inv.stdin = Some(content.clone());
    inv
}

/// One override as `KEY=VALUE`.
pub open spec fn env_text(p: (Seq<char>, Seq<char>)) -> Seq<char> {
    p.0 + "="@ + p.1
}

/// The overrides as `KEY=VALUE` pairs joined by single spaces.
pub open spec fn envs_text(e: Seq<(Seq<char>, Seq<char>)>) -> Seq<char>
    decreases e.len(),
{
    if e.len() == 0 {
        Seq::empty()
    } else if e.len() == 1 {
        env_text(e[0])
    } else {
        envs_text(e.drop_last()) + " "@ + env_text(e.last())
    }
}

/// Each argument in its debug spelling, each preceded by a space.
pub open spec fn args_debug_text(a: Seq<Seq<char>>) -> Seq<char>
    decreases a.len(),
{
    if a.len() == 0 {
        Seq::empty()
    } else {
        args_debug_text(a.drop_last()) + " "@ + debug_of(a.last())
    }
}

/// The human-readable line of a command: its overrides, a space, then the
/// debug spelling of the executable and its arguments, with every quote
/// character removed. Not meant to be executed again.
pub open spec fn command_line_text(inv: ToolInvocation) -> Seq<char> {
    strip_quotes(
        envs_text(inv.env_views()) + " "@ + debug_of(inv.program@) + args_debug_text(
            inv.arg_views(),
        ),
    )
}

impl ToolInvocation {
    /// Renders the command with its overrides for triage logs.
    pub fn command_line(&self) -> (r: String)
        ensures
            r@ == command_line_text(*self),
    {
        let mut s = String::new();
        let mut i: usize = 0;
        while i < self.envs.len()
            invariant
                i <= self.envs@.len(),
                s@ == envs_text(self.env_views().subrange(0, i as int)),
            decreases self.envs@.len() - i,
        {
            let ghost prev = self.env_views().subrange(0, i as int);
            if i > 0 {
                s.append(" ");
            }
            let (k, v) = &self.envs[i];
            s.append(k.as_str());
            s.append("=");
            s.append(v.as_str());
            proof {
                let next = self.env_views().subrange(0, i + 1);
                assert(next.drop_last() =~= prev);
                assert(s@ =~= envs_text(next));
            }
            i = i + 1;
        }
        assert(self.env_views().subrange(0, i as int) =~= self.env_views());
        s.append(" ");
        let prog = debug_string(self.program.as_str());
        s.append(prog.as_str());
        let ghost head = s@;
        let mut j: usize = 0;
        while j < self.args.len()
            invariant
                j <= self.args@.len(),
                s@ == head + args_debug_text(self.arg_views().subrange(0, j as int)),
            decreases self.args@.len() - j,
        {
            let ghost prev = self.arg_views().subrange(0, j as int);
            s.append(" ");
            let d = debug_string(self.args[j].as_str());
            s.append(d.as_str());
            proof {
                let next = self.arg_views().subrange(0, j + 1);
                assert(next.drop_last() =~= prev);
                assert(s@ =~= head + args_debug_text(next));
            }
            j = j + 1;
        }
        assert(self.arg_views().subrange(0, j as int) =~= self.arg_views());
        remove_quotes(s.as_str())
    }
}

} // verus!
