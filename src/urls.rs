use crate::runner::string_views;
use crate::text::chars_of;
use vstd::prelude::*;
use vstd::string::{StrSliceExecFns, StringExecFns};

verus! {

#[verifier::external_type_specification]
#[verifier::external_body]
pub struct ExRegex(regex::Regex);

#[verifier::external_type_specification]
#[verifier::external_body]
pub struct ExRegexError(regex::Error);

/// Whether the regex crate accepts `pattern`.
pub uninterp spec fn pattern_is_valid(pattern: Seq<char>) -> bool;

/// Whether `pattern` matches somewhere in `haystack`.
pub uninterp spec fn regex_match_of(pattern: Seq<char>, haystack: Seq<char>) -> bool;

/// The pieces of `haystack` between the matches of `pattern`.
pub uninterp spec fn regex_split_of(pattern: Seq<char>, haystack: Seq<char>) -> Seq<Seq<char>>;

/// Text of capture group `group` in the first match of `pattern`, if both exist.
pub uninterp spec fn regex_group_of(pattern: Seq<char>, haystack: Seq<char>, group: nat) -> Option<Seq<char>>;

/// A character with the Unicode `White_Space` property.
pub open spec fn is_white_space(c: char) -> bool {
    let u = c as u32;
    ||| 0x9 <= u <= 0xD
    ||| u == 0x20 || u == 0x85 || u == 0xA0 || u == 0x1680
    ||| 0x2000 <= u <= 0x200A
    ||| u == 0x2028 || u == 0x2029 || u == 0x202F || u == 0x205F || u == 0x3000
}

/// `s` without its leading white space.
pub open spec fn trim_start_of(s: Seq<char>) -> Seq<char>
    decreases s.len(),
{
    if s.len() > 0 && is_white_space(s[0]) {
        trim_start_of(s.drop_first())
    } else {
        s
    }
}

/// `s` without its trailing white space.
pub open spec fn trim_end_of(s: Seq<char>) -> Seq<char>
    decreases s.len(),
{
    if s.len() > 0 && is_white_space(s.last()) {
        trim_end_of(s.drop_last())
    } else {
        s
    }
}

/// `s` without leading and trailing white space.
pub open spec fn trimmed_of(s: Seq<char>) -> Seq<char> {
    trim_end_of(trim_start_of(s))
}

pub open spec fn opt_view(o: Option<String>) -> Option<Seq<char>> {
    match o {
        Some(s) => Some(s@),
        None => None,
    }
}

/// A compiled regular expression and the text it was compiled from.
pub struct Pattern {
    re: regex::Regex,
    source: String,
}

impl View for Pattern {
    type V = Seq<char>;

    closed spec fn view(&self) -> Seq<char> {
        self.source@
    }
}

impl Pattern {
    /// Relies on `regex::Regex::new`: it compiles `source`, or fails with an
    /// error when the crate refuses the pattern.
    #[verifier::external_body]
    fn compile(source: &str) -> (r: Result<Pattern, regex::Error>)
        ensures
            r is Ok <==> pattern_is_valid(source@),
            r is Ok ==> r->Ok_0@ == source@,
    {
        match regex::Regex::new(source) {
            Ok(re) => Ok(Pattern { re, source: source.to_string() }),
            Err(e) => Err(e),
        }
    }

    /// Relies on `regex::Regex::is_match`: whether the pattern matches
    /// anywhere in `haystack`.
    #[verifier::external_body]
    fn is_match(&self, haystack: &str) -> (r: bool)
        ensures
            r == regex_match_of(self@, haystack@),
    {
        self.re.is_match(haystack)
    }

    /// Relies on `regex::Regex::split`: the pieces of `haystack` between
    /// matches, each copied into a `String`.
    #[verifier::external_body]
    fn split(&self, haystack: &str) -> (r: Vec<String>)
        ensures
            string_views(r@) == regex_split_of(self@, haystack@),
    {
        self.re.split(haystack).map(|s| s.to_string()).collect()
    }

    /// Relies on `regex::Regex::captures`: the text of group `group` in the
    /// first match, copied into a `String`.
    #[verifier::external_body]
    fn capture_group(&self, haystack: &str, group: usize) -> (r: Option<String>)
        ensures
            opt_view(r) == regex_group_of(self@, haystack@, group as nat),
    {
        self.re.captures(haystack).and_then(|c| c.get(group)).map(|m| m.as_str().to_string())
    }
}

fn is_white_space_exec(c: char) -> (r: bool)
    ensures
        r == is_white_space(c),
{
    let u = c as u32;
    (0x9 <= u && u <= 0xD) || u == 0x20 || u == 0x85 || u == 0xA0 || u == 0x1680 || (0x2000 <= u && u
        <= 0x200A) || u == 0x2028 || u == 0x2029 || u == 0x202F || u == 0x205F || u == 0x3000
}

/// The text without leading and trailing white space (see [`trimmed_of`]).
pub fn trim_text(s: &str) -> (r: String)
    ensures
        r@ == trimmed_of(s@),
{
    let cs = chars_of(s);
    let n = cs.len();
    let ghost v = s@;
    let mut i: usize = 0;
    assert(v.subrange(0, n as int) =~= v);
    while i < n && is_white_space_exec(cs[i])
        invariant
            cs@ == v,
            v == s@,
            n == v.len(),
            0 <= i <= n,
            trim_start_of(v) == trim_start_of(v.subrange(i as int, n as int)),
        decreases n - i,
    {
        assert(v.subrange(i as int, n as int).drop_first() =~= v.subrange(i + 1, n as int));
        i = i + 1;
    }
    assert(trim_start_of(v) == v.subrange(i as int, n as int)) by {
        if i == n {
            assert(v.subrange(i as int, n as int).len() == 0);
        } else {
            assert(v.subrange(i as int, n as int)[0] == v[i as int]);
        }
    }
    let mut j: usize = n;
    while j > i && is_white_space_exec(cs[j - 1])
        invariant
            cs@ == v,
            v == s@,
            n == v.len(),
            0 <= i <= j <= n,
            trim_end_of(v.subrange(i as int, n as int)) == trim_end_of(v.subrange(i as int, j as int)),
        decreases j,
    {
        assert(v.subrange(i as int, j as int).drop_last() =~= v.subrange(i as int, j - 1));
        j = j - 1;
    }
    assert(trim_end_of(v.subrange(i as int, j as int)) == v.subrange(i as int, j as int)) by {
        if j > i {
            assert(v.subrange(i as int, j as int).last() == v[j - 1]);
        }
    }
    String::from_str(s.substring_char(i, j))
}

/// The segments that are not empty, in order.
pub open spec fn nonempty_of(segments: Seq<Seq<char>>) -> Seq<Seq<char>>
    decreases segments.len(),
{
    if segments.len() == 0 {
        Seq::empty()
    } else if segments.last().len() == 0 {
        nonempty_of(segments.drop_last())
    } else {
        nonempty_of(segments.drop_last()).push(segments.last())
    }
}

/// Each segment trimmed.
pub open spec fn trimmed_all(segments: Seq<Seq<char>>) -> Seq<Seq<char>> {
    segments.map_values(|s: Seq<char>| trimmed_of(s))
}

/// The separator between locations in a list.
pub open spec fn list_separator() -> Seq<char> {
    "[,]"@
}

/// The locations listed in `input`: the comma-separated pieces, trimmed,
/// without the empty ones. Empty when the separator pattern cannot be compiled.
pub open spec fn url_list_of(input: Seq<char>) -> Seq<Seq<char>> {
    if pattern_is_valid(list_separator()) {
        nonempty_of(trimmed_all(regex_split_of(list_separator(), input)))
    } else {
        Seq::empty()
    }
}

/// Keeps the segments that are not empty, in order.
pub fn keep_nonempty(segments: Vec<String>) -> (r: Vec<String>)
    ensures
        string_views(r@) == nonempty_of(string_views(segments@)),
{
    let ghost v = string_views(segments@);
    let mut out: Vec<String> = Vec::new();
    let mut i: usize = 0;
    while i < segments.len()
        invariant
            v == string_views(segments@),
            0 <= i <= segments@.len(),
            string_views(out@) == nonempty_of(v.take(i as int)),
        decreases segments@.len() - i,
    {
        proof {
            assert(v.take(i + 1).drop_last() =~= v.take(i as int));
        }
        let ghost before = out@;
        if segments[i].as_str().unicode_len() > 0 {
            out.push(segments[i].clone());
            assert(string_views(out@) =~= string_views(before).push(v[i as int]));
        }
        i = i + 1;
    }
    assert(v.take(i as int) =~= v);
    out
}

/// Splits a comma-separated list of locations (see [`url_list_of`]).
pub fn parse_file_url_list(input: &str) -> (r: Vec<String>)
    ensures
        string_views(r@) == url_list_of(input@),
{
    let pattern = match Pattern::compile("[,]") {
        Ok(p) => p,
        Err(_) => {
            let r: Vec<String> = Vec::new();
            assert(string_views(r@) =~= Seq::<Seq<char>>::empty());
            return r;
        },
    };
    let pieces = pattern.split(input);
    let ghost parts = string_views(pieces@);
    let mut trimmed: Vec<String> = Vec::new();
    let mut i: usize = 0;
    while i < pieces.len()
        invariant
            parts == string_views(pieces@),
            0 <= i <= pieces@.len(),
            trimmed@.len() == i,
            forall|k: int| 0 <= k < i ==> #[trigger] trimmed@[k]@ == trimmed_of(parts[k]),
        decreases pieces@.len() - i,
    {
        trimmed.push(trim_text(pieces[i].as_str()));
        i = i + 1;
    }
    assert(string_views(trimmed@) =~= trimmed_all(parts));
    keep_nonempty(trimmed)
}

} // verus!

verus! {

/// What a location given by the user looks like.
#[derive(Debug, Clone, Copy, PartialEq, Eq, Structural)]
pub enum InputKind {
    RemoteFile,
    FilePath,
    Unknown,
}

pub open spec fn remote_pattern() -> Seq<char> {
    "^https://"@
}

pub open spec fn path_pattern() -> Seq<char> {
    "^(\\/[\\w\\-]+)+\\/([\\w\\-.]+(\\.\\w+)?)?$"@
}

/// `Ok(matches)` when the remote pattern compiles, else an error.
pub open spec fn remote_check_of(value: Seq<char>) -> Result<bool, ()> {
    if pattern_is_valid(remote_pattern()) {
        Ok(regex_match_of(remote_pattern(), value))
    } else {
        Err(())
    }
}

/// `Ok(false)` when the path pattern does not match; an error when it does
/// but the extension group holds `""` or `"."`, or when the pattern does
/// not compile; else `Ok(true)`.
pub open spec fn path_check_of(value: Seq<char>) -> Result<bool, ()> {
    if !pattern_is_valid(path_pattern()) {
        Err(())
    } else if !regex_match_of(path_pattern(), value) {
        Ok(false)
    } else {
        match regex_group_of(path_pattern(), value, 3) {
            Some(ext) => if ext == ""@ || ext == "."@ {
                Err(())
            } else {
                Ok(true)
            },
            None => Ok(true),
        }
    }
}

pub open spec fn result_shape(r: Result<bool, String>) -> Result<bool, ()> {
    match r {
        Ok(b) => Ok(b),
        Err(_) => Err(()),
    }
}

/// Whether `value` is an https address.
pub fn is_remote_file(value: &str) -> (r: Result<bool, String>)
    ensures
        result_shape(r) == remote_check_of(value@),
{
    match Pattern::compile("^https://") {
        Ok(p) => Ok(p.is_match(value)),
        Err(_) => Err(String::from_str("invalid pattern")),
    }
}

/// Whether `value` is an absolute file path (see [`path_check_of`]).
pub fn is_file_path(value: &str) -> (r: Result<bool, String>)
    ensures
        result_shape(r) == path_check_of(value@),
{
    let p = match Pattern::compile("^(\\/[\\w\\-]+)+\\/([\\w\\-.]+(\\.\\w+)?)?$") {
        Ok(p) => p,
        Err(_) => {
            return Err(String::from_str("invalid pattern"));
        },
    };
    if !p.is_match(value) {
        return Ok(false);
    }
    match p.capture_group(value, 3) {
        Some(ext) => {
            let empty = String::from_str("");
            let dot = String::from_str(".");
            if ext == empty || ext == dot {
                Err(String::from_str("Invalid file extension"))
            } else {
                Ok(true)
            }
        },
        None => Ok(true),
    }
}

pub open spec fn input_kind_of(value: Seq<char>) -> InputKind {
    if remote_check_of(value) is Ok {
        InputKind::RemoteFile
    } else if path_check_of(value) is Ok {
        InputKind::FilePath
    } else {
        InputKind::Unknown
    }
}

/// Classifies a location by which of the two checks answers without error,
/// the remote check first.
pub fn classify_input(value: &str) -> (r: InputKind)
    ensures
        r == input_kind_of(value@),
{
    if is_remote_file(value).is_ok() {
        InputKind::RemoteFile
    } else if is_file_path(value).is_ok() {
        InputKind::FilePath
    } else {
        InputKind::Unknown
    }
}

} // verus!
