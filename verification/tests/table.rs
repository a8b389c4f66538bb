use noj_sandbox::env::Env;
use noj_sandbox::toml_table::{TomlTable, TomlValue};

fn table() -> TomlTable {
    TomlTable {
        entries: vec![
            ("a".to_string(), TomlValue::String("first".to_string())),
            ("b".to_string(), TomlValue::Integer(-3)),
            ("c".to_string(), TomlValue::Boolean(true)),
            ("d".to_string(), TomlValue::Other),
            ("a".to_string(), TomlValue::String("second".to_string())),
        ],
    }
}

#[test]
fn table_get_finds_the_first_entry() {
    let t = table();
    assert!(matches!(t.get("a"), Some(TomlValue::String(s)) if s == "first"));
    assert!(matches!(t.get("b"), Some(TomlValue::Integer(-3))));
    assert!(t.get("zz").is_none());
    assert!(t.contains_key("d"));
    assert!(!t.contains_key("e"));
}

#[test]
fn table_typed_reads_fall_back_to_defaults() {
    let t = table();
    assert_eq!(t.str_or("a", "x"), "first");
    assert_eq!(t.str_or("b", "x"), "x");
    assert_eq!(t.int_or("b", 9), -3);
    assert_eq!(t.int_or("c", 9), 9);
    assert_eq!(t.bool_or("c", false), true);
    assert_eq!(t.bool_or("d", false), false);
}

#[test]
fn env_from_table_reads_the_entries() {
    let s = |k: &str, v: &str| (k.to_string(), TomlValue::String(v.to_string()));
    let t = TomlTable {
        entries: vec![
            s("cwd", "w"),
            ("large-stack".to_string(), TomlValue::Boolean(true)),
            ("max-process".to_string(), TomlValue::Integer(2)),
            ("memory-limit".to_string(), TomlValue::Integer(5)),
            s("output", "o"),
            ("output-size-limit".to_string(), TomlValue::Integer(6)),
            ("runtime-limit".to_string(), TomlValue::Other),
            s("stderr", "e"),
            s("stdin", "i"),
            s("stdout", "so"),
            ("lang".to_string(), TomlValue::Integer(2)),
        ],
    };
    assert!(Env::has_required_keys(&t));
    let env = Env::from_table(&t);
    assert_eq!(env.cwd, "w");
    assert!(env.large_stack);
    assert_eq!(env.max_process, 2);
    assert_eq!(env.memory_limit, 5);
    assert_eq!(env.output_file, "o");
    assert_eq!(env.output_size_limit, 6);
    assert_eq!(env.runtime_limit, 1000000);
    assert_eq!(env.stdout, "so");
    assert_eq!(env.lang, 2);
}
