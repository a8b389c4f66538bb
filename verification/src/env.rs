use vstd::prelude::*;

use crate::lang::{execute_argv_spec, lang_of_id, strings_view, Lang};
use crate::toml_table::{
    bool_or, int_or, parse_toml_table, str_or, string_lines_text, string_lines_valid, table_get,
    toml_document, TableView, TomlTable, TomlValueView,
};

verus! {

/// The settings of one sandboxed run.
#[derive(Clone, Debug)]
pub struct Env {
    pub cwd: String,
    pub large_stack: bool,
    pub max_process: i32,
    pub memory_limit: u64,
    pub output_file: String,
    pub output_size_limit: u64,
    pub runtime_limit: u64,
    pub stderr: String,
    pub stdin: String,
    pub stdout: String,
    pub lang: u64,
}

/// The mathematical value of an [`Env`].
pub struct EnvView {
    pub cwd: Seq<char>,
    pub large_stack: bool,
    pub max_process: i32,
    pub memory_limit: u64,
    pub output_file: Seq<char>,
    pub output_size_limit: u64,
    pub runtime_limit: u64,
    pub stderr: Seq<char>,
    pub stdin: Seq<char>,
    pub stdout: Seq<char>,
    pub lang: u64,
}

impl View for Env {
    type V = EnvView;

    open spec fn view(&self) -> EnvView {
        EnvView {
            cwd: self.cwd@,
            large_stack: self.large_stack,
            max_process: self.max_process,
            memory_limit: self.memory_limit,
            output_file: self.output_file@,
            output_size_limit: self.output_size_limit,
            runtime_limit: self.runtime_limit,
            stderr: self.stderr@,
            stdin: self.stdin@,
            stdout: self.stdout@,
            lang: self.lang,
        }
    }
}

/// Why a configuration could not be read.
#[derive(Debug)]
pub enum EnvError {
    /// The text is not a TOML document.
    Parse(toml::de::Error),
}

/// Whether the table names every setting that a configuration must name.
pub open spec fn has_required_keys(t: TableView) -> bool {
    &&& table_get(t, "cwd"@) is Some
    &&& table_get(t, "large-stack"@) is Some
    &&& table_get(t, "max-process"@) is Some
    &&& table_get(t, "memory-limit"@) is Some
    &&& table_get(t, "output"@) is Some
    &&& table_get(t, "output-size-limit"@) is Some
    &&& table_get(t, "runtime-limit"@) is Some
    &&& table_get(t, "stderr"@) is Some
    &&& table_get(t, "stdin"@) is Some
    &&& table_get(t, "stdout"@) is Some
}

/// The language id of a table: the integer under `lang`, 0 where there is none.
pub open spec fn lang_of_table(t: TableView) -> u64 {
    match table_get(t, "lang"@) {
        Some(TomlValueView::Integer(i)) => i as u64,
        _ => 0,
    }
}

/// The settings that a table describes: each from its key, with the key's default where
/// the value there has another type; integers are converted as `as` converts them.
pub open spec fn env_of_table(t: TableView) -> EnvView {
    EnvView {
        cwd: str_or(table_get(t, "cwd"@), "./"@),
        large_stack: bool_or(table_get(t, "large-stack"@), false),
        max_process: int_or(table_get(t, "max-process"@), 1) as i32,
        memory_limit: int_or(table_get(t, "memory-limit"@), 1000000) as u64,
        output_file: str_or(table_get(t, "output"@), "./out"@),
        output_size_limit: int_or(table_get(t, "output-size-limit"@), 100000) as u64,
        runtime_limit: int_or(table_get(t, "runtime-limit"@), 1000000) as u64,
        stderr: str_or(table_get(t, "stderr"@), "/dev/stderr"@),
        stdin: str_or(table_get(t, "stdin"@), "/dev/stdin"@),
        stdout: str_or(table_get(t, "stdout"@), "/dev/stdout"@),
        lang: lang_of_table(t),
    }
}

/// The required settings.
pub open spec fn is_required_key(k: Seq<char>) -> bool {
    k == "cwd"@ || k == "large-stack"@ || k == "max-process"@ || k == "memory-limit"@ || k
        == "output"@ || k == "output-size-limit"@ || k == "runtime-limit"@ || k == "stderr"@ || k
        == "stdin"@ || k == "stdout"@
}

/// Whether the string settings of a reading are the given text under the given key.
pub open spec fn string_setting_is(env: EnvView, k: Seq<char>, s: Seq<char>) -> bool {
    &&& k == "cwd"@ ==> env.cwd == s
    &&& k == "output"@ ==> env.output_file == s
    &&& k == "stderr"@ ==> env.stderr == s
    &&& k == "stdin"@ ==> env.stdin == s
    &&& k == "stdout"@ ==> env.stdout == s
}

/// A table is accepted exactly when every required setting has an entry, whatever the
/// entries' values: acceptance depends on which keys are present and on nothing else.
pub proof fn lemma_required_keys_are_presence(t: TableView)
    ensures
        has_required_keys(t) <==> (forall|k: Seq<char>|
            is_required_key(k) ==> #[trigger] table_get(t, k) is Some),
{
    if has_required_keys(t) {
        assert forall|k: Seq<char>| is_required_key(k) implies #[trigger] table_get(t, k) is Some by {}
    }
    if forall|k: Seq<char>| is_required_key(k) ==> #[trigger] table_get(t, k) is Some {
        assert(is_required_key("cwd"@));
        assert(is_required_key("large-stack"@));
        assert(is_required_key("max-process"@));
        assert(is_required_key("memory-limit"@));
        assert(is_required_key("output"@));
        assert(is_required_key("output-size-limit"@));
        assert(is_required_key("runtime-limit"@));
        assert(is_required_key("stderr"@));
        assert(is_required_key("stdin"@));
        assert(is_required_key("stdout"@));
    }
}

/// Two tables with the same required keys present are both accepted or both refused.
pub proof fn lemma_required_keys_ignore_values(t1: TableView, t2: TableView)
    requires
        forall|k: Seq<char>|
            is_required_key(k) ==> (#[trigger] table_get(t1, k) is Some <==> table_get(t2, k) is Some),
    ensures
        has_required_keys(t1) == has_required_keys(t2),
{
    lemma_required_keys_are_presence(t1);
    lemma_required_keys_are_presence(t2);
    if has_required_keys(t1) {
        assert forall|k: Seq<char>| is_required_key(k) implies #[trigger] table_get(t2, k) is Some by {
            assert(table_get(t1, k) is Some);
        }
    }
    if has_required_keys(t2) {
        assert forall|k: Seq<char>| is_required_key(k) implies #[trigger] table_get(t1, k) is Some by {
            assert(table_get(t2, k) is Some);
        }
    }
}

/// Each setting read from a table is the value written under its key, taken as it is:
/// a string setting is the string there, the large-stack switch is the boolean there, an
/// integer setting is the integer there (where it fits the setting's type: not negative for
/// the unsigned settings, within `i32` for the process limit), and the language id is the
/// integer under `lang`. Where the value has another type the setting is its default, and a
/// table without `lang` runs language 0.
pub proof fn lemma_settings_as_written(t: TableView)
    ensures
        match table_get(t, "cwd"@) {
            Some(TomlValueView::String(s)) => env_of_table(t).cwd == s,
            _ => env_of_table(t).cwd == "./"@,
        },
        match table_get(t, "output"@) {
            Some(TomlValueView::String(s)) => env_of_table(t).output_file == s,
            _ => env_of_table(t).output_file == "./out"@,
        },
        match table_get(t, "stderr"@) {
            Some(TomlValueView::String(s)) => env_of_table(t).stderr == s,
            _ => env_of_table(t).stderr == "/dev/stderr"@,
        },
        match table_get(t, "stdin"@) {
            Some(TomlValueView::String(s)) => env_of_table(t).stdin == s,
            _ => env_of_table(t).stdin == "/dev/stdin"@,
        },
        match table_get(t, "stdout"@) {
            Some(TomlValueView::String(s)) => env_of_table(t).stdout == s,
            _ => env_of_table(t).stdout == "/dev/stdout"@,
        },
        match table_get(t, "large-stack"@) {
            Some(TomlValueView::Boolean(b)) => env_of_table(t).large_stack == b,
            _ => env_of_table(t).large_stack == false,
        },
        match table_get(t, "max-process"@) {
            Some(TomlValueView::Integer(i)) => i32::MIN <= i <= i32::MAX ==> env_of_table(t).max_process
                == i,
            _ => env_of_table(t).max_process == 1,
        },
        match table_get(t, "memory-limit"@) {
            Some(TomlValueView::Integer(i)) => 0 <= i ==> env_of_table(t).memory_limit == i,
            _ => env_of_table(t).memory_limit == 1000000,
        },
        match table_get(t, "output-size-limit"@) {
            Some(TomlValueView::Integer(i)) => 0 <= i ==> env_of_table(t).output_size_limit == i,
            _ => env_of_table(t).output_size_limit == 100000,
        },
        match table_get(t, "runtime-limit"@) {
            Some(TomlValueView::Integer(i)) => 0 <= i ==> env_of_table(t).runtime_limit == i,
            _ => env_of_table(t).runtime_limit == 1000000,
        },
        match table_get(t, "lang"@) {
            Some(TomlValueView::Integer(i)) => 0 <= i ==> env_of_table(t).lang == i,
            _ => env_of_table(t).lang == 0,
        },
{
}

impl Env {
    /// Reads the settings from a parsed configuration table, which must name every
    /// required setting.
    pub fn from_table(table: &TomlTable) -> (env: Env)
        requires
            has_required_keys(table@),
        ensures
            env@ == env_of_table(table@),
    {
        let lang = match table.get("lang") {
            Some(crate::toml_table::TomlValue::Integer(i)) => *i as u64,
            _ => 0,
        };
        Env {
            cwd: table.str_or("cwd", "./"),
            large_stack: table.bool_or("large-stack", false),
            max_process: table.int_or("max-process", 1) as i32,
            memory_limit: table.int_or("memory-limit", 1000000) as u64,
            output_file: table.str_or("output", "./out"),
            output_size_limit: table.int_or("output-size-limit", 100000) as u64,
            runtime_limit: table.int_or("runtime-limit", 1000000) as u64,
            stderr: table.str_or("stderr", "/dev/stderr"),
            stdin: table.str_or("stdin", "/dev/stdin"),
            stdout: table.str_or("stdout", "/dev/stdout"),
            lang,
        }
    }

    /// Whether a parsed table names every required setting.
    pub fn has_required_keys(table: &TomlTable) -> (r: bool)
        ensures
            r == has_required_keys(table@),
    {
        table.contains_key("cwd") && table.contains_key("large-stack")
            && table.contains_key("max-process") && table.contains_key("memory-limit")
            && table.contains_key("output") && table.contains_key("output-size-limit")
            && table.contains_key("runtime-limit") && table.contains_key("stderr")
            && table.contains_key("stdin") && table.contains_key("stdout")
    }

    /// The command line that starts the submission: that of the language with id
    /// `self.lang`, or the error of an unknown id.
    pub fn execute_argv(&self) -> (r: Result<Vec<String>, &'static str>)
        ensures
            match lang_of_id(self.lang) {
                Ok(lang) => r matches Ok(argv) && strings_view(argv@) == execute_argv_spec(lang),
                Err(msg) => r == Err::<Vec<String>, &'static str>(msg),
            },
    {
        match Lang::try_from(self.lang) {
            Ok(lang) => Ok(lang.get_execute_argv()),
            Err(msg) => Err(msg),
        }
    }

    /// Reads the settings from the text of a TOML configuration.
    ///
    /// Text that is no TOML document gives `EnvError::Parse`. A document that leaves out
    /// a required setting is refused by `requires` (see [`Env::try_new`]).
    pub fn new(src_str: &str) -> (r: Result<Env, EnvError>)
        requires
            toml_document(src_str@) matches Some(t) ==> has_required_keys(t),
        ensures
            match toml_document(src_str@) {
                None => r matches Err(EnvError::Parse(_)),
                Some(t) => r matches Ok(env) && env@ == env_of_table(t),
            },
            forall|lines: Seq<(Seq<char>, Seq<char>)>|
                #[trigger] string_lines_text(lines) == src_str@ && string_lines_valid(lines) ==> {
                    &&& r is Ok
                    &&& forall|i: int|
                        0 <= i < lines.len() ==> string_setting_is(
                            r->Ok_0@,
                            #[trigger] lines[i].0,
                            lines[i].1,
                        )
                },
    {
        match parse_toml_table(src_str) {
            Ok(table) => Ok(Env::from_table(&table)),
            Err(e) => Err(EnvError::Parse(e)),
        }
    }

    /// Like [`Env::new`], for any text: `None` where the text is a TOML document that
    /// leaves out a required setting.
    pub fn try_new(src_str: &str) -> (r: Option<Result<Env, EnvError>>)
        ensures
            match toml_document(src_str@) {
                None => r matches Some(Err(EnvError::Parse(_))),
                Some(t) => if has_required_keys(t) {
                    r matches Some(Ok(env)) && env@ == env_of_table(t)
                } else {
                    r is None
                },
            },
    {
        match parse_toml_table(src_str) {
            Err(e) => Some(Err(EnvError::Parse(e))),
            Ok(table) => {
                if Env::has_required_keys(&table) {
                    Some(Env::new(src_str))
                } else {
                    None
                }
            },
        }
    }
}

} // verus!
