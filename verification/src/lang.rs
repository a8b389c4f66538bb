use vstd::prelude::*;

verus! {

/// The languages a submission may be written in.
#[derive(Copy, Clone, Debug, PartialEq, Eq, Structural)]
pub enum Lang {
    C,
    CPP,
    PYTHON,
}

/// The message carried by the error for an unknown language id.
pub open spec fn unknown_lang_message() -> &'static str {
    "Language id not found"
}

/// The language with the given numeric id: 0 is C, 1 is C++, 2 is Python.
pub open spec fn lang_of_id(value: u64) -> Result<Lang, &'static str> {
    if value == 0 {
        Ok(Lang::C)
    } else if value == 1 {
        Ok(Lang::CPP)
    } else if value == 2 {
        Ok(Lang::PYTHON)
    } else {
        Err(unknown_lang_message())
    }
}

impl TryFrom<u64> for Lang {
    type Error = &'static str;

    fn try_from(value: u64) -> (r: Result<Self, Self::Error>)
        ensures
            r == lang_of_id(value),
    {
        match value {
            0 => Ok(Self::C),
            1 => Ok(Self::CPP),
            2 => Ok(Self::PYTHON),
            _ => Err("Language id not found"),
        }
    }
}

impl vstd::std_specs::convert::TryFromSpecImpl<u64> for Lang {
    open spec fn obeys_try_from_spec() -> bool {
        true
    }

    open spec fn try_from_spec(v: u64) -> Result<Self, Self::Error> {
        lang_of_id(v)
    }
}


/// The command line that compiles a submission in the language, run in the submission's
/// directory; empty for an interpreted language.
pub open spec fn compile_argv_spec(lang: Lang) -> Seq<Seq<char>> {
    match lang {
        Lang::C => seq![
            "gcc"@, "-DONLINE_JUDGE"@, "-O2"@, "-w"@, "-fmax-errors=3"@, "-std=c11"@,
            "main.c"@, "-lm"@, "-o"@, "main"@,
        ],
        Lang::CPP => seq![
            "g++"@, "-DONLINE_JUDGE"@, "-O2"@, "-w"@, "-fmax-errors=3"@, "-std=c++17"@,
            "main.cpp"@, "-lm"@, "-o"@, "main"@,
        ],
        Lang::PYTHON => Seq::empty(),
    }
}

/// The command line that runs a (compiled) submission in the language.
pub open spec fn execute_argv_spec(lang: Lang) -> Seq<Seq<char>> {
    match lang {
        Lang::C => seq!["./main"@],
        Lang::CPP => seq!["./main"@],
        Lang::PYTHON => seq!["/usr/bin/python3"@, "main.py"@],
    }
}

/// The views of a vector of strings.
pub open spec fn strings_view(v: Seq<String>) -> Seq<Seq<char>> {
    v.map_values(|s: String| s@)
}

impl Lang {
    /// The arguments of the compiler invocation for this language.
    pub fn get_compile_argv(self) -> (argv: Vec<String>)
        ensures
            strings_view(argv@) == compile_argv_spec(self),
    {
        let argv = match self {
            Self::C => vec![
                "gcc".to_owned(), "-DONLINE_JUDGE".to_owned(), "-O2".to_owned(),
                "-w".to_owned(), "-fmax-errors=3".to_owned(), "-std=c11".to_owned(),
                "main.c".to_owned(), "-lm".to_owned(), "-o".to_owned(), "main".to_owned(),
            ],
            Self::CPP => vec![
                "g++".to_owned(), "-DONLINE_JUDGE".to_owned(), "-O2".to_owned(),
                "-w".to_owned(), "-fmax-errors=3".to_owned(), "-std=c++17".to_owned(),
                "main.cpp".to_owned(), "-lm".to_owned(), "-o".to_owned(), "main".to_owned(),
            ],
            Self::PYTHON => Vec::new(),
        };
        assert(strings_view(argv@) =~= compile_argv_spec(self));
        argv
    }

    /// The arguments that start the submission written in this language.
    pub fn get_execute_argv(self) -> (argv: Vec<String>)
        ensures
            strings_view(argv@) == execute_argv_spec(self),
    {
        let argv = match self {
            Self::C => vec!["./main".to_owned()],
            Self::CPP => vec!["./main".to_owned()],
            Self::PYTHON => vec!["/usr/bin/python3".to_owned(), "main.py".to_owned()],
        };
        assert(strings_view(argv@) =~= execute_argv_spec(self));
        argv
    }
}


/// The numeric id under which a language is known.
pub open spec fn lang_id(lang: Lang) -> u64 {
    match lang {
        Lang::C => 0,
        Lang::CPP => 1,
        Lang::PYTHON => 2,
    }
}

/// Each language has exactly one id: the conversion from ids gives it back from that id,
/// and from no other.
pub proof fn lemma_lang_id_roundtrip(lang: Lang, value: u64)
    ensures
        lang_of_id(lang_id(lang)) == Ok::<Lang, &'static str>(lang),
        lang_of_id(value) == Ok::<Lang, &'static str>(lang) ==> value == lang_id(lang),
        lang_of_id(value) is Ok <==> value < 3,
{
}

/// A compiled language's compiler writes the binary `main` (the last two arguments are
/// `-o main`), and the run command starts exactly that binary from the working directory;
/// an interpreted language is not compiled at all and runs through the interpreter.
pub proof fn lemma_compiled_output_is_executed(lang: Lang)
    ensures
        lang != Lang::PYTHON ==> {
            let argv = compile_argv_spec(lang);
            &&& argv.len() >= 2
            &&& argv[argv.len() - 2] == "-o"@
            &&& execute_argv_spec(lang) == seq!["./"@ + argv[argv.len() - 1]]
        },
        lang == Lang::PYTHON <==> compile_argv_spec(lang).len() == 0,
{
    reveal_strlit("./main");
    reveal_strlit("./");
    reveal_strlit("main");
    if lang != Lang::PYTHON {
        let argv = compile_argv_spec(lang);
        assert(argv[argv.len() - 1] == "main"@);
        assert("./main"@ =~= "./"@ + "main"@);
    }
}

} // verus!
