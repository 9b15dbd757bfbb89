use fuzzharness::function::Function;
use fuzzharness::generator::{pick_ty, sample_lifetimes, FunctionGenerator, LONG_LABEL};
use fuzzharness::incremental::{start, step, Action, Phase, Verdict};
use fuzzharness::invocation::{
    compile, compile_incremental, document, format_check, has_entry_point, lint, symbol_index,
    ToolInvocation,
};
use fuzzharness::text::{decimal_string, hex_string};
use fuzzharness::ty::Ty;

const POOL: [&str; 8] = ["a", "b", "c", "d", "_", "&", LONG_LABEL, "12a"];

fn strings(v: &[&str]) -> Vec<String> {
    v.iter().map(|s| s.to_string()).collect()
}

#[test]
fn three_functions_are_named_in_order() {
    let mut g = FunctionGenerator::new();
    let names: Vec<String> = (0..3).map(|_| g.gen_fn().name).collect();
    assert_eq!(names, vec!["0", "1", "2"]);
    assert_eq!(g.generated(), 3);
}

#[test]
fn generated_function_shape() {
    let mut g = FunctionGenerator::new();
    for _ in 0..200 {
        let f = g.gen_fn();
        assert!(f.keyword.is_empty());
        assert!(f.args.is_empty());
        assert_eq!(f.body, "todo!()");
        assert!(f.lifetimes.len() <= 8);
        for (i, l) in f.lifetimes.iter().enumerate() {
            assert!(POOL.contains(&l.as_str()));
            assert!(!f.lifetimes[i + 1..].contains(l));
        }
    }
}

#[test]
fn names_past_nine_are_upper_case_hex() {
    let mut g = FunctionGenerator::new();
    let names: Vec<String> = (0..27).map(|_| g.gen_fn().name).collect();
    assert_eq!(names[10], "A");
    assert_eq!(names[15], "F");
    assert_eq!(names[16], "10");
    assert_eq!(names[26], "1A");
}

#[test]
fn lifetime_sample_sizes() {
    for k in 0..10usize {
        let s = sample_lifetimes(k);
        assert_eq!(s.len(), k.min(8));
        for (i, l) in s.iter().enumerate() {
            assert!(POOL.contains(&l.as_str()));
            assert!(!s[i + 1..].contains(l));
        }
    }
}

#[test]
fn lifetime_sample_of_ten_is_whole_pool() {
    let mut s = sample_lifetimes(10);
    assert_eq!(s.len(), 8);
    s.sort();
    let mut p = strings(&POOL);
    p.sort();
    assert_eq!(s, p);
}

#[test]
fn long_label_length() {
    assert_eq!(LONG_LABEL.len(), 168);
    assert!(LONG_LABEL.chars().all(|c| c == 'a'));
}

#[test]
fn render_zero_argument_function() {
    let f = Function {
        keyword: Vec::new(),
        lifetimes: Vec::new(),
        name: "0".to_string(),
        return_ty: Ty::U8,
        args: Vec::new(),
        body: "todo!()".to_string(),
    };
    assert_eq!(f.render(), "fn fn_0() -> u8 { todo!() }");
}

#[test]
fn render_with_arguments() {
    let f = Function {
        keyword: vec!["const".to_string()],
        lifetimes: vec!["a".to_string()],
        name: "1A".to_string(),
        return_ty: Ty::Usize,
        args: vec![Ty::I8, Ty::String, Ty::U64, Ty::I16, Ty::Isize, Ty::U16, Ty::I32, Ty::U32, Ty::I64, Ty::U8, Ty::Usize],
        body: "x".to_string(),
    };
    assert_eq!(
        f.render(),
        "fn fn_1A(arg_0: i8, arg_1: String, arg_2: u64, arg_3: i16, arg_4: isize, arg_5: u16, \
         arg_6: i32, arg_7: u32, arg_8: i64, arg_9: u8, arg_10: usize, ) -> usize { x }"
    );
}

#[test]
fn duplicate_keeps_fields() {
    let f = Function {
        keyword: vec!["async".to_string()],
        lifetimes: vec!["b".to_string(), "12a".to_string()],
        name: "7".to_string(),
        return_ty: Ty::I64,
        args: vec![Ty::U8],
        body: "todo!()".to_string(),
    };
    let d = f.duplicate();
    assert_eq!(d.keyword, f.keyword);
    assert_eq!(d.lifetimes, f.lifetimes);
    assert_eq!(d.name, f.name);
    assert_eq!(d.return_ty, f.return_ty);
    assert_eq!(d.args, f.args);
    assert_eq!(d.body, f.body);
}

#[test]
fn type_spellings() {
    let all = [
        (Ty::U8, "u8"),
        (Ty::U16, "u16"),
        (Ty::U32, "u32"),
        (Ty::U64, "u64"),
        (Ty::I8, "i8"),
        (Ty::I16, "i16"),
        (Ty::I32, "i32"),
        (Ty::I64, "i64"),
        (Ty::Usize, "usize"),
        (Ty::Isize, "isize"),
        (Ty::String, "String"),
    ];
    for (i, (t, s)) in all.iter().enumerate() {
        assert_eq!(t.as_str(), *s);
        assert_eq!(t.to_text(), *s);
        assert_eq!(Ty::from_index(i), *t);
    }
}

#[test]
fn picked_type_is_in_catalog() {
    for _ in 0..100 {
        let t = pick_ty();
        assert!((0..11).any(|i| Ty::from_index(i) == t));
    }
}

#[test]
fn number_spellings() {
    assert_eq!(hex_string(0), "0");
    assert_eq!(hex_string(255), "FF");
    assert_eq!(hex_string(4096), "1000");
    assert_eq!(decimal_string(0), "0");
    assert_eq!(decimal_string(1234), "1234");
    assert_eq!(hex_string(usize::MAX), format!("{:X}", usize::MAX));
}

#[test]
fn entry_marker_anywhere_counts() {
    assert!(has_entry_point("pub(crate) fn main() {}"));
    assert!(has_entry_point("// pub(crate) fn main(\nfn f() {}"));
    assert!(has_entry_point("const S: &str = \"pub(crate) fn main(\";"));
    assert!(!has_entry_point("fn main() {}"));
    assert!(!has_entry_point("pub(crate) fn main"));
    assert!(!has_entry_point(""));
}

#[test]
fn compile_without_entry_point_is_library() {
    let inv = compile("rustc", "/tmp/p.rs", "fn f() {}", &strings(&["-Zmir-opt-level=3"]));
    assert_eq!(inv.program, "rustc");
    assert_eq!(
        inv.args,
        strings(&["/tmp/p.rs", "-Zmir-opt-level=3", "-o/dev/null", "-Zdump-mir-dir=/dev/null", "--crate-type", "lib"])
    );
    assert!(inv.envs.is_empty());
    assert!(inv.stdin.is_none());
}

#[test]
fn compile_with_entry_point_in_comment() {
    let inv = compile("rustc", "/tmp/p.rs", "/* pub(crate) fn main( */", &Vec::new());
    assert_eq!(inv.args, strings(&["/tmp/p.rs", "-o/dev/null", "-Zdump-mir-dir=/dev/null"]));
}

#[test]
fn incremental_passes_differ_only_in_output() {
    let (a, b) = compile_incremental("rustc", "/tmp/p.rs", "fn f() {}", "/tmp/d");
    assert_eq!(
        a.args,
        strings(&["--crate-type", "lib", "/tmp/p.rs", "-o/tmp/d/0", "-Cincremental=/tmp/d", "-Zincremental-verify-ich=yes"])
    );
    assert_eq!(
        b.args,
        strings(&["--crate-type", "lib", "/tmp/p.rs", "-o/tmp/d/1", "-Cincremental=/tmp/d", "-Zincremental-verify-ich=yes"])
    );
    let (c, _) = compile_incremental("rustc", "/tmp/p.rs", "pub(crate) fn main() {}", "/tmp/d");
    assert_eq!(c.args[0], "/tmp/p.rs");
    assert_eq!(c.args.len(), 4);
}

#[test]
fn incremental_protocol_when_all_succeeds() {
    let (p, a) = start();
    assert_eq!(a, Action::RunPass { pass: 0 });
    let (p, a) = step(p, true);
    assert_eq!(a, Action::RunPass { pass: 1 });
    let (p, a) = step(p, true);
    assert_eq!(a, Action::RemoveDir);
    let (p, a) = step(p, true);
    assert_eq!(a, Action::Report { verdict: Verdict::Completed });
    assert_eq!(p, Phase::Finished { verdict: Verdict::Completed });
}

#[test]
fn incremental_protocol_cleans_up_after_launch_failures() {
    let (p, a) = start();
    assert_eq!(a, Action::RunPass { pass: 0 });
    let (p, a) = step(p, false);
    assert_eq!(a, Action::RunPass { pass: 1 });
    let (p, a) = step(p, false);
    assert_eq!(a, Action::RemoveDir);
    let (p, a) = step(p, true);
    assert_eq!(a, Action::Report { verdict: Verdict::LaunchFailed });
    let (_, a) = step(p, true);
    assert_eq!(a, Action::Report { verdict: Verdict::LaunchFailed });
}

#[test]
fn incremental_protocol_reports_cleanup_failure() {
    let (p, _) = start();
    let (p, _) = step(p, true);
    let (p, _) = step(p, true);
    let (_, a) = step(p, false);
    assert_eq!(a, Action::Report { verdict: Verdict::CleanupFailed });
    let (p, _) = start();
    let (p, _) = step(p, true);
    let (p, _) = step(p, false);
    let (_, a) = step(p, false);
    assert_eq!(a, Action::Report { verdict: Verdict::LaunchAndCleanupFailed });
}

#[test]
fn lint_battery_and_overrides() {
    let inv = lint("clippy-driver", "/tmp/p.rs", "fn f() {}", "/opt/tc");
    assert_eq!(inv.args.len(), 2 + 1 + 29 + 2);
    assert_eq!(&inv.args[..4], &strings(&["--crate-type", "lib", "/tmp/p.rs", "-Aclippy::cargo"])[..]);
    assert_eq!(inv.args[29], "-Wvariant-size-differences");
    assert_eq!(&inv.args[30..], &strings(&["--cap-lints", "warn", "-o", "/dev/null"])[..]);
    assert_eq!(
        inv.envs,
        vec![
            ("RUSTFLAGS".to_string(), "-Z force-unstable-if-unmarked".to_string()),
            ("SYSROOT".to_string(), "/opt/tc".to_string())
        ]
    );
    let with_main = lint("clippy-driver", "/tmp/p.rs", "pub(crate) fn main() {}", "/opt/tc");
    assert_eq!(with_main.args[0], "/tmp/p.rs");
}

#[test]
fn document_flags() {
    let inv = document("rustdoc", "/tmp/p.rs", "/opt/tc");
    assert_eq!(
        inv.args,
        strings(&[
            "/tmp/p.rs",
            "-Zunstable-options",
            "--document-private-items",
            "--document-hidden-items",
            "--cap-lints",
            "warn",
            "-o",
            "/dev/null"
        ])
    );
    assert_eq!(inv.envs.len(), 2);
}

#[test]
fn format_flags() {
    let inv = format_check("rustfmt", "/tmp/p.rs", "/opt/tc");
    assert_eq!(inv.args, strings(&["/tmp/p.rs", "--check", "--edition", "2018"]));
    assert_eq!(inv.envs, vec![("SYSROOT".to_string(), "/opt/tc".to_string())]);
}

#[test]
fn symbol_index_carries_whole_probe() {
    let src = "fn fn_0() -> u8 { todo!() }\n// \u{e9}\n".repeat(5000);
    let inv = symbol_index("rust-analyzer", &src.as_bytes().to_vec());
    assert_eq!(inv.args, strings(&["symbols"]));
    assert!(inv.envs.is_empty());
    assert_eq!(inv.stdin.as_deref(), Some(src.as_bytes()));
}

#[test]
fn command_line_without_overrides() {
    let inv = format_check("rustfmt", "/tmp/p.rs", "/opt/tc");
    assert_eq!(inv.command_line(), "SYSROOT=/opt/tc rustfmt /tmp/p.rs --check --edition 2018");
    let inv = compile("rustc", "/tmp/p.rs", "pub(crate) fn main(", &Vec::new());
    assert_eq!(inv.command_line(), " rustc /tmp/p.rs -o/dev/null -Zdump-mir-dir=/dev/null");
}

#[test]
fn command_line_strips_quotes() {
    let mut inv = ToolInvocation::new("tool");
    inv.env("K", "v\"w");
    inv.env("L", "x");
    inv.arg("a\"b");
    inv.arg("c d");
    assert_eq!(inv.command_line(), "K=vw L=x tool a\\b c d");
}
