use vstd::prelude::*;

verus! {

/// A declaration of the error that the TOML parser reports for a malformed document.
#[verifier::external_type_specification]
#[verifier::external_body]
pub struct ExTomlError(toml::de::Error);

/// A TOML value, as far as a configuration reads it: strings, integers and booleans are
/// kept; floats, datetimes, arrays and tables are all `Other`.
#[derive(Debug)]
pub enum TomlValue {
    String(String),
    Integer(i64),
    Boolean(bool),
    Other,
}

/// The mathematical value of a [`TomlValue`].
pub enum TomlValueView {
    String(Seq<char>),
    Integer(i64),
    Boolean(bool),
    Other,
}

impl View for TomlValue {
    type V = TomlValueView;

    open spec fn view(&self) -> TomlValueView {
        match self {
            TomlValue::String(s) => TomlValueView::String(s@),
            TomlValue::Integer(i) => TomlValueView::Integer(*i),
            TomlValue::Boolean(b) => TomlValueView::Boolean(*b),
            TomlValue::Other => TomlValueView::Other,
        }
    }
}

/// The top-level table of a TOML document: its keys with their values.
#[derive(Debug)]
pub struct TomlTable {
    pub entries: Vec<(String, TomlValue)>,
}

/// The entries of a table as keys and values.
pub type TableView = Seq<(Seq<char>, TomlValueView)>;

impl View for TomlTable {
    type V = TableView;

    open spec fn view(&self) -> TableView {
        self.entries@.map_values(|e: (String, TomlValue)| (e.0@, e.1@))
    }
}

/// The top-level table that the TOML parser makes of a document, or `None` where it
/// rejects the document.
pub uninterp spec fn toml_document(src: Seq<char>) -> Option<TableView>;

/// A character that may stand in a bare key: an ASCII letter or digit, `-` or `_`.
pub open spec fn is_bare_key_char(c: char) -> bool {
    ('a' <= c && c <= 'z') || ('A' <= c && c <= 'Z') || ('0' <= c && c <= '9') || c == '-'
        || c == '_'
}

/// A bare key: one or more bare-key characters.
pub open spec fn is_bare_key(k: Seq<char>) -> bool {
    k.len() > 0 && forall|i: int| 0 <= i < k.len() ==> is_bare_key_char(#[trigger] k[i])
}

/// A character that a literal (single-quoted) string may hold: anything but `'` and the
/// control characters other than tab.
pub open spec fn is_literal_char(c: char) -> bool {
    c == '\t' || (' ' <= c && c != '\'' && c != '\u{7f}')
}

/// Text that a literal (single-quoted) string may hold.
pub open spec fn is_literal_text(s: Seq<char>) -> bool {
    forall|i: int| 0 <= i < s.len() ==> is_literal_char(#[trigger] s[i])
}

/// The document made of one line `key = 'text'` for each pair, in order.
pub open spec fn string_lines_text(lines: Seq<(Seq<char>, Seq<char>)>) -> Seq<char>
    decreases lines.len(),
{
    if lines.len() == 0 {
        Seq::empty()
    } else {
        string_lines_text(lines.drop_last()) + lines.last().0 + " = '"@ + lines.last().1
            + "'\n"@
    }
}

/// Pairs that make a valid document of literal-string lines: bare keys, each once, and
/// texts that literal strings may hold.
pub open spec fn string_lines_valid(lines: Seq<(Seq<char>, Seq<char>)>) -> bool {
    &&& forall|i: int| 0 <= i < lines.len() ==> is_bare_key(#[trigger] lines[i].0)
    &&& forall|i: int| 0 <= i < lines.len() ==> is_literal_text(#[trigger] lines[i].1)
    &&& forall|i: int, j: int|
        0 <= i < j < lines.len() ==> #[trigger] lines[i].0 != #[trigger] lines[j].0
}

/// Parses a TOML document into its top-level table.
///
/// Calls `<toml::Table as FromStr>::from_str` (that is, `toml::from_str`), then copies
/// each entry of the table into a [`TomlTable`], in the table's own order. The contract
/// claims that the outcome is a function of the text (the table is `toml_document` of it,
/// and the parser's error comes exactly where that is `None`), and one fact of the TOML
/// format: a document made only of lines `key = 'text'`, with distinct bare keys and
/// texts that literal strings may hold, parses, and its table holds each text, unchanged,
/// as a string under its key. Nothing more is stated of other documents.
#[verifier::external_body]
pub(crate) fn parse_toml_table(src: &str) -> (r: Result<TomlTable, toml::de::Error>)
    ensures
        match r {
            Ok(table) => toml_document(src@) == Some(table@),
            Err(_) => toml_document(src@) is None,
        },
        forall|lines: Seq<(Seq<char>, Seq<char>)>|
            #[trigger] string_lines_text(lines) == src@ && string_lines_valid(lines) ==> {
                &&& r is Ok
                &&& forall|i: int|
                    0 <= i < lines.len() ==> table_get(r->Ok_0@, #[trigger] lines[i].0)
                        == Some(TomlValueView::String(lines[i].1))
            },
{
    let table = src.parse::<toml::Table>()?;
    let mut entries = Vec::new();
    for (key, value) in table {
        let value = match value {
            toml::Value::String(s) => TomlValue::String(s),
            toml::Value::Integer(i) => TomlValue::Integer(i),
            toml::Value::Boolean(b) => TomlValue::Boolean(b),
            toml::Value::Float(_) => TomlValue::Other,
            toml::Value::Datetime(_) => TomlValue::Other,
            toml::Value::Array(_) => TomlValue::Other,
            toml::Value::Table(_) => TomlValue::Other,
        };
        entries.push((key, value));
    }
    Ok(TomlTable { entries })
}

/// The value of the first entry with the given key.
pub open spec fn table_get(entries: TableView, key: Seq<char>) -> Option<TomlValueView>
    decreases entries.len(),
{
    if entries.len() == 0 {
        None
    } else if entries[0].0 == key {
        Some(entries[0].1)
    } else {
        table_get(entries.drop_first(), key)
    }
}

/// The string under a key, or the default where the value is not a string.
pub open spec fn str_or(value: Option<TomlValueView>, default: Seq<char>) -> Seq<char> {
    match value {
        Some(TomlValueView::String(s)) => s,
        _ => default,
    }
}

/// The integer under a key, or the default where the value is not an integer.
pub open spec fn int_or(value: Option<TomlValueView>, default: i64) -> i64 {
    match value {
        Some(TomlValueView::Integer(i)) => i,
        _ => default,
    }
}

/// The boolean under a key, or the default where the value is not a boolean.
pub open spec fn bool_or(value: Option<TomlValueView>, default: bool) -> bool {
    match value {
        Some(TomlValueView::Boolean(b)) => b,
        _ => default,
    }
}

/// Where the entry under a key is a string, the string read under that key is exactly that
/// string, whatever the default; the default is read only where the value is no string.
pub proof fn lemma_str_or_reads_strings(
    t: TableView,
    k: Seq<char>,
    default: Seq<char>,
    s: Seq<char>,
)
    ensures
        table_get(t, k) == Some(TomlValueView::String(s)) ==> str_or(table_get(t, k), default)
            == s,
        !(table_get(t, k) is Some && table_get(t, k)->0 is String) ==> str_or(
            table_get(t, k),
            default,
        ) == default,
{
}

/// Where the entry under a key is an integer, the integer read under that key is exactly
/// that integer (any `i64`), whatever the default; the default is read only where the
/// value is no integer.
pub proof fn lemma_int_or_reads_integers(t: TableView, k: Seq<char>, default: i64, i: i64)
    ensures
        table_get(t, k) == Some(TomlValueView::Integer(i)) ==> int_or(table_get(t, k), default)
            == i,
        !(table_get(t, k) is Some && table_get(t, k)->0 is Integer) ==> int_or(
            table_get(t, k),
            default,
        ) == default,
{
}

/// Where the entry under a key is a boolean, the boolean read under that key is exactly
/// that boolean; the default is read only where the value is no boolean.
pub proof fn lemma_bool_or_reads_booleans(t: TableView, k: Seq<char>, default: bool, b: bool)
    ensures
        table_get(t, k) == Some(TomlValueView::Boolean(b)) ==> bool_or(table_get(t, k), default)
            == b,
        !(table_get(t, k) is Some && table_get(t, k)->0 is Boolean) ==> bool_or(
            table_get(t, k),
            default,
        ) == default,
{
}

/// Looking a key up finds an entry with that key, and finds nothing only where no entry
/// has it.
pub proof fn lemma_table_get_finds_entries(t: TableView, k: Seq<char>)
    ensures
        table_get(t, k) is Some <==> exists|i: int| 0 <= i < t.len() && #[trigger] t[i].0 == k,
        table_get(t, k) matches Some(v) ==> exists|i: int|
            0 <= i < t.len() && #[trigger] t[i].0 == k && t[i].1 == v,
    decreases t.len(),
{
    if t.len() > 0 {
        lemma_table_get_finds_entries(t.drop_first(), k);
        if t[0].0 != k {
            assert forall|i: int| 1 <= i < t.len() implies t[i] == #[trigger] t.drop_first()[i - 1] by {}
            if exists|i: int| 0 <= i < t.len() && #[trigger] t[i].0 == k {
                let i = choose|i: int| 0 <= i < t.len() && #[trigger] t[i].0 == k;
                assert(t.drop_first()[i - 1].0 == k);
            }
            if table_get(t, k) is Some {
                let i = choose|i: int|
                    0 <= i < t.drop_first().len() && #[trigger] t.drop_first()[i].0 == k
                        && t.drop_first()[i].1 == table_get(t, k)->0;
                assert(t[i + 1] == t.drop_first()[i]);
            }
        }
    }
}

impl TomlTable {
    /// The value of the entry with the given key.
    pub fn get(&self, key: &str) -> (r: Option<&TomlValue>)
        ensures
            match r {
                Some(v) => table_get(self@, key@) == Some(v@),
                None => table_get(self@, key@) is None,
            },
    {
        let wanted = key.to_owned();
        let n = self.entries.len();
        let mut i: usize = 0;
        assert(self@.skip(0) =~= self@);
        while i < n
            invariant
                n == self.entries.len(),
                n == self@.len(),
                i <= n,
                wanted@ == key@,
                table_get(self@, key@) == table_get(self@.skip(i as int), key@),
            decreases n - i,
        {
            assert(self@.skip(i as int)[0] == self@[i as int]);
            if self.entries[i].0 == wanted {
                return Some(&self.entries[i].1);
            }
            assert(self@.skip(i as int).drop_first() =~= self@.skip(i + 1));
            i = i + 1;
        }
        None
    }

    /// Whether the table has an entry with the given key.
    pub fn contains_key(&self, key: &str) -> (r: bool)
        ensures
            r == table_get(self@, key@) is Some,
    {
        self.get(key).is_some()
    }

    /// The string under a key, or the default where the value is not a string.
    /// The key must be present.
    pub fn str_or(&self, key: &str, default: &str) -> (r: String)
        requires
            table_get(self@, key@) is Some,
        ensures
            r@ == str_or(table_get(self@, key@), default@),
    {
        match self.get(key) {
            Some(TomlValue::String(s)) => s.clone(),
            _ => default.to_owned(),
        }
    }

    /// The integer under a key, or the default where the value is not an integer.
    /// The key must be present.
    pub fn int_or(&self, key: &str, default: i64) -> (r: i64)
        requires
            table_get(self@, key@) is Some,
        ensures
            r == int_or(table_get(self@, key@), default),
    {
        match self.get(key) {
            Some(TomlValue::Integer(i)) => *i,
            _ => default,
        }
    }

    /// The boolean under a key, or the default where the value is not a boolean.
    /// The key must be present.
    pub fn bool_or(&self, key: &str, default: bool) -> (r: bool)
        requires
            table_get(self@, key@) is Some,
        ensures
            r == bool_or(table_get(self@, key@), default),
    {
        match self.get(key) {
            Some(TomlValue::Boolean(b)) => *b,
            _ => default,
        }
    }
}

} // verus!
