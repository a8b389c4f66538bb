use noj_sandbox::context::Context;
use noj_sandbox::Lang;

#[test]
fn lang_ids() {
    assert_eq!(Lang::try_from(0u64), Ok(Lang::C));
    assert_eq!(Lang::try_from(1u64), Ok(Lang::CPP));
    assert_eq!(Lang::try_from(2u64), Ok(Lang::PYTHON));
    assert_eq!(Lang::try_from(3u64), Err("Language id not found"));
    assert_eq!(Lang::try_from(u64::MAX), Err("Language id not found"));
}

#[test]
fn compile_argv_of_each_language() {
    assert_eq!(
        Lang::C.get_compile_argv(),
        vec!["gcc", "-DONLINE_JUDGE", "-O2", "-w", "-fmax-errors=3", "-std=c11", "main.c", "-lm", "-o", "main"]
    );
    assert_eq!(
        Lang::CPP.get_compile_argv(),
        vec!["g++", "-DONLINE_JUDGE", "-O2", "-w", "-fmax-errors=3", "-std=c++17", "main.cpp", "-lm", "-o", "main"]
    );
    assert!(Lang::PYTHON.get_compile_argv().is_empty());
}

#[test]
fn execute_argv_of_each_language() {
    assert_eq!(Lang::C.get_execute_argv(), vec!["./main"]);
    assert_eq!(Lang::CPP.get_execute_argv(), vec!["./main"]);
    assert_eq!(Lang::PYTHON.get_execute_argv(), vec!["/usr/bin/python3", "main.py"]);
}

#[test]
fn compiled_binary_is_the_one_executed() {
    for lang in [Lang::C, Lang::CPP] {
        let c = lang.get_compile_argv();
        let n = c.len();
        assert_eq!(c[n - 2], "-o");
        assert_eq!(lang.get_execute_argv(), vec![format!("./{}", c[n - 1])]);
    }
}

#[test]
fn context_starts_empty() {
    let c = Context::new();
    assert_eq!(
        format!("{:?}", c),
        "Context { prev_line: \"\", next_line: \"\", line_num: 0 }"
    );
}

#[test]
fn execute_argv_follows_the_language_id() {
    let text = "cwd = 'd'\nlarge-stack = true\nmax-process = 1\nmemory-limit = 1\noutput = 'o'\noutput-size-limit = 1\nruntime-limit = 1\nstderr = 'e'\nstdin = 'i'\nstdout = 'o'\n";
    let mut env = noj_sandbox::Env::new(text).unwrap();
    assert_eq!(env.execute_argv(), Ok(vec!["./main".to_string()]));
    env.lang = 2;
    assert_eq!(env.execute_argv(), Ok(vec!["/usr/bin/python3".to_string(), "main.py".to_string()]));
    env.lang = 9;
    assert_eq!(env.execute_argv(), Err("Language id not found"));
}
