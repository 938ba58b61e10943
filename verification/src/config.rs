use vstd::prelude::*;
use vstd::string::StrSliceExecFns;
use vstd::string::StringExecFns;

verus! {

/// Broker settings: the connection address and the default queue name.
#[derive(Debug, Clone)]
pub struct Settings {
    pub amqp_address: String,
    pub queue_name: String,
}

/// Why loading the settings failed.
#[derive(Debug, Clone, Copy, PartialEq, Eq, Structural)]
pub enum ConfigError {
    /// The configuration file could not be read at all.
    Unreadable,
    /// A line of the file does not fit the grammar, or a required key repeats.
    Malformed,
    /// The file parses, but a required key is absent.
    MissingField,
}

impl ConfigError {
    /// A short description of the failure, as the log line shows it.
    pub fn message(&self) -> (r: String)
        ensures
            *self is Unreadable ==> r@ == "Failed to read the configuration file"@,
            *self is Malformed ==> r@ == "The configuration file is malformed"@,
            *self is MissingField ==> r@ == "A required configuration key is missing"@,
    {
        match self {
            ConfigError::Unreadable => String::from_str("Failed to read the configuration file"),
            ConfigError::Malformed => String::from_str("The configuration file is malformed"),
            ConfigError::MissingField => String::from_str(
                "A required configuration key is missing",
            ),
        }
    }
}

/// The key that holds the broker connection address.
pub open spec fn addr_key() -> Seq<char> {
    "amqp_address"@
}

/// The key that holds the default queue name.
pub open spec fn queue_key() -> Seq<char> {
    "queue_name"@
}

/// Whitespace inside a line; a carriage return counts, so that files with
/// CRLF line ends parse the same as files with LF line ends.
pub open spec fn is_space(c: char) -> bool {
    c == ' ' || c == '\t' || c == '\r'
}

/// Characters allowed in a bare key.
pub open spec fn is_key_char(c: char) -> bool {
    ('a' <= c && c <= 'z') || ('A' <= c && c <= 'Z') || ('0' <= c && c <= '9') || c == '_' || c
        == '-'
}

/// Characters allowed inside a quoted value: anything but the closing quote,
/// the escape character (this grammar has no escapes), and a line end.
pub open spec fn is_value_char(c: char) -> bool {
    c != '"' && c != '\\' && c != '\n'
}

/// The index just past the current line: the position of the next newline at
/// or after `i`, or the end of the text.
pub open spec fn line_end(s: Seq<char>, i: int) -> int
    decreases s.len() - i,
{
    if i < s.len() && s[i] != '\n' {
        line_end(s, i + 1)
    } else {
        i
    }
}

/// The first index in `[i, e)` that does not hold line whitespace.
pub open spec fn skip_ws(s: Seq<char>, i: int, e: int) -> int
    decreases e - i,
{
    if i < e && is_space(s[i]) {
        skip_ws(s, i + 1, e)
    } else {
        i
    }
}

/// The first index in `[i, e)` that does not hold a key character.
pub open spec fn key_end(s: Seq<char>, i: int, e: int) -> int
    decreases e - i,
{
    if i < e && is_key_char(s[i]) {
        key_end(s, i + 1, e)
    } else {
        i
    }
}

/// The first index in `[i, e)` that does not hold a value character.
pub open spec fn value_end(s: Seq<char>, i: int, e: int) -> int
    decreases e - i,
{
    if i < e && is_value_char(s[i]) {
        value_end(s, i + 1, e)
    } else {
        i
    }
}

/// A line ends at or after its start, and no later than the text does.
pub proof fn lemma_line_end_bounds(s: Seq<char>, i: int)
    requires
        i <= s.len(),
    ensures
        i <= line_end(s, i) <= s.len(),
    decreases s.len() - i,
{
    if i < s.len() && s[i] != '\n' {
        lemma_line_end_bounds(s, i + 1);
    }
}

/// Parses the line `s[i..e]` as `key = "value"`, with optional surrounding
/// whitespace and an optional trailing comment. Returns the key span and the
/// value span, or `None` when the line has no such shape.
pub open spec fn line_pair_at(s: Seq<char>, i: int, e: int) -> Option<(int, int, int, int)> {
    let k0 = skip_ws(s, i, e);
    let k1 = key_end(s, k0, e);
    if k1 == k0 {
        None
    } else {
        let p = skip_ws(s, k1, e);
        if !(p < e && s[p] == '=') {
            None
        } else {
            let q0 = skip_ws(s, p + 1, e);
            if !(q0 < e && s[q0] == '"') {
                None
            } else {
                let v0 = q0 + 1;
                let v1 = value_end(s, v0, e);
                if !(v1 < e && s[v1] == '"') {
                    None
                } else {
                    let t = skip_ws(s, v1 + 1, e);
                    if t == e || s[t] == '#' {
                        Some((k0, k1, v0, v1))
                    } else {
                        None
                    }
                }
            }
        }
    }
}

/// A line is acceptable when it is blank, a comment, or a key–value pair.
pub open spec fn line_ok(s: Seq<char>, i: int, e: int) -> bool {
    let w = skip_ws(s, i, e);
    w == e || s[w] == '#' || line_pair_at(s, i, e) is Some
}

/// Walks the text line by line from `i`, accumulating the values of the two
/// required keys. Returns `None` when a line breaks the grammar or a required
/// key repeats; otherwise returns whatever was found for each key.
pub open spec fn parse_at(
    s: Seq<char>,
    i: int,
    addr: Option<Seq<char>>,
    queue: Option<Seq<char>>,
) -> Option<(Option<Seq<char>>, Option<Seq<char>>)>
    decreases s.len() - i,
    via parse_at_decreases
{
    if i >= s.len() {
        Some((addr, queue))
    } else {
        let e = line_end(s, i);
        let next = if e < s.len() {
            e + 1
        } else {
            e
        };
        match line_pair_at(s, i, e) {
            Some(spans) => {
                let key = s.subrange(spans.0, spans.1);
                let val = s.subrange(spans.2, spans.3);
                if key == addr_key() {
                    if addr is Some {
                        None
                    } else {
                        parse_at(s, next, Some(val), queue)
                    }
                } else if key == queue_key() {
                    if queue is Some {
                        None
                    } else {
                        parse_at(s, next, addr, Some(val))
                    }
                } else {
                    parse_at(s, next, addr, queue)
                }
            },
            None => {
                if line_ok(s, i, e) {
                    parse_at(s, next, addr, queue)
                } else {
                    None
                }
            },
        }
    }
}

#[via_fn]
proof fn parse_at_decreases(
    s: Seq<char>,
    i: int,
    addr: Option<Seq<char>>,
    queue: Option<Seq<char>>,
) {
    if i < s.len() {
        lemma_line_end_bounds(s, i);
    }
}

/// What a configuration text denotes: the broker address and the default
/// queue name, or nothing when the text is malformed or a required key is
/// missing or repeated.
pub open spec fn config_fields(s: Seq<char>) -> Option<(Seq<char>, Seq<char>)> {
    match parse_at(s, 0, None, None) {
        Some(found) => match found {
            (Some(a), Some(q)) => Some((a, q)),
            _ => None,
        },
        None => None,
    }
}

/// Lifts an optional owned string to its view.
pub open spec fn opt_view(o: Option<String>) -> Option<Seq<char>> {
    match o {
        Some(x) => Some(x@),
        None => None,
    }
}

fn is_space_at(text: &str, j: usize) -> (r: bool)
    requires
        j < text@.len(),
    ensures
        r == is_space(text@[j as int]),
{
    let c = text.get_char(j);
    c == ' ' || c == '\t' || c == '\r'
}

fn is_key_char_at(text: &str, j: usize) -> (r: bool)
    requires
        j < text@.len(),
    ensures
        r == is_key_char(text@[j as int]),
{
    let c = text.get_char(j);
    ('a' <= c && c <= 'z') || ('A' <= c && c <= 'Z') || ('0' <= c && c <= '9') || c == '_' || c
        == '-'
}

fn is_value_char_at(text: &str, j: usize) -> (r: bool)
    requires
        j < text@.len(),
    ensures
        r == is_value_char(text@[j as int]),
{
    let c = text.get_char(j);
    c != '"' && c != '\\' && c != '\n'
}

fn is_newline_at(text: &str, j: usize) -> (r: bool)
    requires
        j < text@.len(),
    ensures
        r == (text@[j as int] == '\n'),
{
    let c = text.get_char(j);
    c == '\n'
}

fn scan_line_end(text: &str, i: usize, n: usize) -> (r: usize)
    requires
        i <= n,
        n == text@.len(),
    ensures
        i <= r <= n,
        r == line_end(text@, i as int),
{
    let mut j = i;
    while j < n && !is_newline_at(text, j)
        invariant
            i <= j <= n,
            n == text@.len(),
            line_end(text@, i as int) == line_end(text@, j as int),
        decreases n - j,
    {
        j = j + 1;
    }
    j
}

fn scan_ws(text: &str, i: usize, e: usize) -> (r: usize)
    requires
        i <= e <= text@.len(),
    ensures
        i <= r <= e,
        r == skip_ws(text@, i as int, e as int),
{
    let mut j = i;
    while j < e && is_space_at(text, j)
        invariant
            i <= j <= e <= text@.len(),
            skip_ws(text@, i as int, e as int) == skip_ws(text@, j as int, e as int),
        decreases e - j,
    {
        j = j + 1;
    }
    j
}

fn scan_key(text: &str, i: usize, e: usize) -> (r: usize)
    requires
        i <= e <= text@.len(),
    ensures
        i <= r <= e,
        r == key_end(text@, i as int, e as int),
{
    let mut j = i;
    while j < e && is_key_char_at(text, j)
        invariant
            i <= j <= e <= text@.len(),
            key_end(text@, i as int, e as int) == key_end(text@, j as int, e as int),
        decreases e - j,
    {
        j = j + 1;
    }
    j
}

fn scan_value(text: &str, i: usize, e: usize) -> (r: usize)
    requires
        i <= e <= text@.len(),
    ensures
        i <= r <= e,
        r == value_end(text@, i as int, e as int),
{
    let mut j = i;
    while j < e && is_value_char_at(text, j)
        invariant
            i <= j <= e <= text@.len(),
            value_end(text@, i as int, e as int) == value_end(text@, j as int, e as int),
        decreases e - j,
    {
        j = j + 1;
    }
    j
}

/// Whether two string slices hold the same characters.
fn str_eq(a: &str, b: &str) -> (r: bool)
    ensures
        r == (a@ == b@),
{
    let n = a.unicode_len();
    let m = b.unicode_len();
    if n != m {
        return false;
    }
    let mut i: usize = 0;
    while i < n
        invariant
            i <= n,
            n == a@.len(),
            n == b@.len(),
            forall|j: int| 0 <= j < i ==> a@[j] == b@[j],
        decreases n - i,
    {
        if a.get_char(i) != b.get_char(i) {
            return false;
        }
        i = i + 1;
    }
    proof {
        assert(a@ =~= b@);
    }
    true
}

fn parse_pair(text: &str, i: usize, e: usize) -> (r: Option<(usize, usize, usize, usize)>)
    requires
        i <= e <= text@.len(),
    ensures
        match r {
            Some(t) => {
                &&& line_pair_at(text@, i as int, e as int) == Some(
                    (t.0 as int, t.1 as int, t.2 as int, t.3 as int),
                )
                &&& i <= t.0 <= t.1 <= e
                &&& t.1 <= t.2 <= t.3 <= e
            },
            None => line_pair_at(text@, i as int, e as int) is None,
        },
{
    let k0 = scan_ws(text, i, e);
    let k1 = scan_key(text, k0, e);
    if k1 == k0 {
        return None;
    }
    let p = scan_ws(text, k1, e);
    if p == e {
        return None;
    }
    if text.get_char(p) != '=' {
        return None;
    }
    let q0 = scan_ws(text, p + 1, e);
    if q0 == e {
        return None;
    }
    if text.get_char(q0) != '"' {
        return None;
    }
    let v0 = q0 + 1;
    let v1 = scan_value(text, v0, e);
    if v1 == e {
        return None;
    }
    if text.get_char(v1) != '"' {
        return None;
    }
    let t = scan_ws(text, v1 + 1, e);
    if t == e || text.get_char(t) == '#' {
        Some((k0, k1, v0, v1))
    } else {
        None
    }
}

enum LineForm {
    /// Blank line or comment line: carries no data.
    Skip,
    /// A key–value pair: the key span and the value span.
    Pair(usize, usize, usize, usize),
    /// The line fits no form of the grammar.
    Bad,
}

fn line_form(text: &str, i: usize, e: usize) -> (r: LineForm)
    requires
        i <= e <= text@.len(),
    ensures
        match r {
            LineForm::Pair(k0, k1, v0, v1) => {
                &&& line_pair_at(text@, i as int, e as int) == Some(
                    (k0 as int, k1 as int, v0 as int, v1 as int),
                )
                &&& i <= k0 <= k1 <= e
                &&& k1 <= v0 <= v1 <= e
            },
            LineForm::Skip => line_pair_at(text@, i as int, e as int) is None && line_ok(
                text@,
                i as int,
                e as int,
            ),
            LineForm::Bad => !line_ok(text@, i as int, e as int),
        },
{
    let w = scan_ws(text, i, e);
    if w == e {
        return LineForm::Skip;
    }
    if text.get_char(w) == '#' {
        return LineForm::Skip;
    }
    match parse_pair(text, i, e) {
        Some(spans) => LineForm::Pair(spans.0, spans.1, spans.2, spans.3),
        None => LineForm::Bad,
    }
}

impl Settings {
    /// Parses a configuration text into settings.
    ///
    /// Succeeds exactly when the text fits the grammar and both required keys
    /// are present, and then the fields hold the file's values; otherwise the
    /// error tells a grammar fault apart from a missing key.
    pub fn parse(text: &str) -> (r: Result<Settings, ConfigError>)
        ensures
            match r {
                Ok(s) => config_fields(text@) == Some((s.amqp_address@, s.queue_name@)),
                Err(e) => {
                    &&& config_fields(text@) is None
                    &&& (e == ConfigError::Malformed <==> parse_at(text@, 0, None, None) is None)
                    &&& (e == ConfigError::MissingField <==> parse_at(text@, 0, None, None)
                        is Some)
                },
            },
    {
        let n = text.unicode_len();
        let mut pos: usize = 0;
        let mut addr: Option<String> = None;
        let mut queue: Option<String> = None;
        while pos < n
            invariant
                pos <= n,
                n == text@.len(),
                parse_at(text@, 0, None, None) == parse_at(
                    text@,
                    pos as int,
                    opt_view(addr),
                    opt_view(queue),
                ),
            decreases n - pos,
        {
            let e = scan_line_end(text, pos, n);
            let next = if e < n {
                e + 1
            } else {
                e
            };
            match line_form(text, pos, e) {
                LineForm::Bad => {
                    return Err(ConfigError::Malformed);
                },
                LineForm::Skip => {
                    pos = next;
                },
                LineForm::Pair(k0, k1, v0, v1) => {
                    let key = text.substring_char(k0, k1);
                    if str_eq(key, "amqp_address") {
                        if addr.is_some() {
                            return Err(ConfigError::Malformed);
                        }
                        let v = text.substring_char(v0, v1);
                        addr = Some(String::from_str(v));
                    } else if str_eq(key, "queue_name") {
                        if queue.is_some() {
                            return Err(ConfigError::Malformed);
                        }
                        let v = text.substring_char(v0, v1);
                        queue = Some(String::from_str(v));
                    }
                    pos = next;
                },
            }
        }
        match (addr, queue) {
            (Some(a), Some(q)) => Ok(Settings { amqp_address: a, queue_name: q }),
            _ => Err(ConfigError::MissingField),
        }
    }
}

} // verus!
