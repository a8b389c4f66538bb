use noj_sandbox::env::{Env, EnvError};
use noj_sandbox::limits::cgroup_limits;

#[test]
fn test_correct() {
    let config_str = "
        cwd = 'path' # The working directory of spawned process
        large-stack = true # Enable large stack
        max-process = 11 # Process limit
        memory-limit = 1 # Memory usage limit in bytes
        output = 'path/to/output' # The path to output sandbox result
        output-size-limit = 1 # Output size limit in bytes
        runtime-limit = 1 # Runtime limit in millisecond
        stderr = 'path/to/stderr' # The stderr path of the spawned process
        stdin = 'path/to/stdin' # The stdin path of the spawned process
        stdout = 'path/to/stdout' # The stdout path of the spawned process";

    let config = Env::new(&config_str).unwrap();
    assert_eq!(config.cwd, "path");
    assert_eq!(config.large_stack, true);
    assert_eq!(config.max_process, 11);
    assert_eq!(config.output_file, "path/to/output");
    assert_eq!(config.output_size_limit, 1);
    assert_eq!(config.runtime_limit, 1);
    assert_eq!(config.stderr, "path/to/stderr");
    assert_eq!(config.stdin, "path/to/stdin");
    assert_eq!(config.stdout, "path/to/stdout");
}

const ALL_KEYS: &str = "
    cwd = 'dir'
    large-stack = false
    max-process = 4
    memory-limit = 2048
    output = 'out.txt'
    output-size-limit = 77
    runtime-limit = 1500
    stderr = 'err'
    stdin = 'in'
    stdout = 'outp'
";

#[test]
fn env_reads_every_setting() {
    let env = Env::new(ALL_KEYS).unwrap();
    assert_eq!(env.cwd, "dir");
    assert_eq!(env.large_stack, false);
    assert_eq!(env.max_process, 4);
    assert_eq!(env.memory_limit, 2048);
    assert_eq!(env.output_file, "out.txt");
    assert_eq!(env.output_size_limit, 77);
    assert_eq!(env.runtime_limit, 1500);
    assert_eq!(env.stderr, "err");
    assert_eq!(env.stdin, "in");
    assert_eq!(env.stdout, "outp");
    assert_eq!(env.lang, 0);
}

#[test]
fn env_reads_language_id() {
    let text = format!("{}\nlang = 1\n", ALL_KEYS);
    let env = Env::new(&text).unwrap();
    assert_eq!(env.lang, 1);
}

#[test]
fn env_defaults_for_values_of_another_type() {
    let text = "
        cwd = 5
        large-stack = 'yes'
        max-process = 'many'
        memory-limit = true
        output = 1.5
        output-size-limit = 'big'
        runtime-limit = [1, 2]
        stderr = false
        stdin = 3
        stdout = { a = 1 }
        lang = 'c'
    ";
    let env = Env::new(text).unwrap();
    assert_eq!(env.cwd, "./");
    assert_eq!(env.large_stack, false);
    assert_eq!(env.max_process, 1);
    assert_eq!(env.memory_limit, 1000000);
    assert_eq!(env.output_file, "./out");
    assert_eq!(env.output_size_limit, 100000);
    assert_eq!(env.runtime_limit, 1000000);
    assert_eq!(env.stderr, "/dev/stderr");
    assert_eq!(env.stdin, "/dev/stdin");
    assert_eq!(env.stdout, "/dev/stdout");
    assert_eq!(env.lang, 0);
}

#[test]
fn env_converts_integers_as_casts_do() {
    let text = "
        cwd = 'd'
        large-stack = true
        max-process = 4294967297
        memory-limit = -1
        output = 'o'
        output-size-limit = -2
        runtime-limit = 10
        stderr = 'e'
        stdin = 'i'
        stdout = 'o'
    ";
    let env = Env::new(text).unwrap();
    assert_eq!(env.max_process, 1);
    assert_eq!(env.memory_limit, u64::MAX);
    assert_eq!(env.output_size_limit, u64::MAX - 1);
}

#[test]
fn env_rejects_text_that_is_not_toml() {
    let r = Env::new("cwd = = 'x'");
    assert!(matches!(r, Err(EnvError::Parse(_))));
    let r = Env::try_new("[[[");
    assert!(matches!(r, Some(Err(EnvError::Parse(_)))));
}

#[test]
fn env_try_new_refuses_a_missing_setting() {
    assert!(Env::try_new("").is_none());
    assert!(Env::try_new("cwd = 'x'").is_none());
    let text = ALL_KEYS.replace("stdout = 'outp'", "");
    assert!(Env::try_new(&text).is_none());
}

#[test]
fn env_try_new_agrees_with_new() {
    let env = Env::try_new(ALL_KEYS).unwrap().unwrap();
    assert_eq!(env.cwd, "dir");
    assert_eq!(env.runtime_limit, 1500);
}

#[test]
fn cgroup_limits_follow_the_settings() {
    let env = Env::new(ALL_KEYS).unwrap();
    let l = cgroup_limits(&env);
    assert_eq!(l.kernel_memory_limit, 2048);
    assert_eq!(l.memory_hard_limit, 2048);
    assert_eq!(l.max_processes, 4);
}

#[test]
fn cgroup_limits_wrap_a_huge_memory_limit() {
    let text = ALL_KEYS.replace("memory-limit = 2048", "memory-limit = -1");
    let env = Env::new(&text).unwrap();
    let l = cgroup_limits(&env);
    assert_eq!(l.kernel_memory_limit, -1);
    assert_eq!(l.memory_hard_limit, -1);
}
