//! The command template engine: splitting a template into words, and
//! replacing the placeholders of each word.

use vstd::prelude::*;
use vstd::string::StringExecFns;
use crate::defaults::DEFAULT_PROFILE;
use crate::error::{Error, Failure};
use crate::paths::{path_starts_with, starts_with};
use crate::text::{chars_of, string_of, text_of, text_of_ref, text_of_str, texts};

verus! {

/// Whether `c` is one of the five ASCII whitespace characters, which
/// separate the words of a template.
pub open spec fn is_space(c: char) -> bool {
    c == ' ' || c == '\t' || c == '\n' || c == '\x0C' || c == '\r'
}

/// Whether a backslash may stand before `c`.
pub open spec fn is_escapable(c: char) -> bool {
    is_space(c) || c == '\\'
}

/// The words completed when `word` ends: `word` itself, unless it is empty.
pub open spec fn closed(word: Seq<char>) -> Seq<Seq<char>> {
    if word.len() == 0 {
        Seq::empty()
    } else {
        seq![word]
    }
}

/// `words`, followed by what `rest` holds.
pub open spec fn words_then(words: Seq<Seq<char>>, rest: Result<Seq<Seq<char>>, Failure>) -> Result<
    Seq<Seq<char>>,
    Failure,
> {
    match rest {
        Ok(more) => Ok(words + more),
        Err(failure) => Err(failure),
    }
}

/// The words of `s[i..]`, where `word` is what has been read of the word that
/// `s[i]` continues.
pub open spec fn split_from(s: Seq<char>, i: int, word: Seq<char>) -> Result<
    Seq<Seq<char>>,
    Failure,
>
    decreases s.len() - i,
{
    if i < 0 || i >= s.len() {
        Ok(closed(word))
    } else if is_space(s[i]) {
        words_then(closed(word), split_from(s, i + 1, Seq::empty()))
    } else if s[i] != '\\' {
        split_from(s, i + 1, word.push(s[i]))
    } else if i + 1 >= s.len() {
        Err(Failure::TrailingBackslash)
    } else if is_escapable(s[i + 1]) {
        split_from(s, i + 2, word.push(s[i + 1]))
    } else {
        Err(Failure::IllegalEscape)
    }
}

/// The words of the template `s`: the maximal runs of characters that are not
/// unescaped whitespace, each with its escaping backslashes removed.
pub open spec fn words_of(s: Seq<char>) -> Result<Seq<Seq<char>>, Failure> {
    split_from(s, 0, Seq::empty())
}

/// The mathematical value of the result of [`split_escaped`].
pub open spec fn words_view(r: Result<Vec<String>, Error>) -> Result<Seq<Seq<char>>, Failure> {
    match r {
        Ok(v) => Ok(texts(v@)),
        Err(e) => Err(e@),
    }
}

/// Putting `a` and then `b` before a result is putting `a + b` before it.
proof fn lemma_words_then_twice(
    a: Seq<Seq<char>>,
    b: Seq<Seq<char>>,
    rest: Result<Seq<Seq<char>>, Failure>,
)
    ensures
        words_then(a, words_then(b, rest)) == words_then(a + b, rest),
{
    match rest {
        Ok(more) => {
            assert(a + (b + more) =~= (a + b) + more);
        },
        Err(_) => {},
    }
}

fn is_space_char(c: char) -> (r: bool)
    ensures
        r == is_space(c),
{
    c == ' ' || c == '\t' || c == '\n' || c == '\x0C' || c == '\r'
}

/// Splits a template into its words at unescaped whitespace. A backslash
/// escapes the whitespace character or backslash that follows it.
pub fn split_escaped(s: &str) -> (r: Result<Vec<String>, Error>)
    ensures
        words_view(r) == words_of(s@),
        r matches Ok(words) ==> forall|k: int| 0 <= k < words@.len() ==> words@[k]@.len() > 0,
{
    let chars = chars_of(s);
    let mut v: Vec<String> = Vec::new();
    let mut word = String::new();
    let mut i: usize = 0;
    while i < chars.len()
        invariant
            chars@ == s@,
            i <= chars.len(),
            words_of(s@) == words_then(texts(v@), split_from(s@, i as int, word@)),
        decreases chars.len() - i,
    {
        let c = chars[i];
        if is_space_char(c) {
            let ghost before = texts(v@);
            let ghost ended = closed(word@);
            if word.as_str().unicode_len() != 0 {
                v.push(word);
                word = String::new();
            }
            proof {
                assert(texts(v@) =~= before + ended);
                assert(word@ =~= Seq::<char>::empty());
                lemma_words_then_twice(before, ended, split_from(s@, i + 1, Seq::empty()));
            }
            i += 1;
        } else if c != '\\' {
            word.push(c);
            i += 1;
        } else if i + 1 >= chars.len() {
            return Err(Error::TrailingBackslash);
        } else {
            let d = chars[i + 1];
            if is_space_char(d) || d == '\\' {
                word.push(d);
                i += 2;
            } else {
                return Err(Error::IllegalEscape);
            }
        }
    }
    let ghost before = texts(v@);
    let ghost ended = closed(word@);
    if word.as_str().unicode_len() != 0 {
        v.push(word);
    }
    assert(texts(v@) =~= before + ended);
    proof {
        lemma_no_empty_word(s@, 0, Seq::empty());
        assert forall|k: int| 0 <= k < v@.len() implies v@[k]@.len() > 0 by {
            assert(texts(v@)[k] == v@[k]@);
        }
    }
    Ok(v)
}

/// No word that splitting yields is empty.
pub proof fn lemma_no_empty_word(s: Seq<char>, i: int, word: Seq<char>)
    requires
        0 <= i <= s.len(),
    ensures
        split_from(s, i, word) matches Ok(words) ==> forall|k: int|
            0 <= k < words.len() ==> (#[trigger] words[k]).len() > 0,
    decreases s.len() - i,
{
    if i < s.len() {
        if is_space(s[i]) {
            lemma_no_empty_word(s, i + 1, Seq::empty());
        } else if s[i] != '\\' {
            lemma_no_empty_word(s, i + 1, word.push(s[i]));
        } else if i + 1 < s.len() && is_escapable(s[i + 1]) {
            lemma_no_empty_word(s, i + 2, word.push(s[i + 1]));
        }
    }
}

/// The values that placeholders can name, gathered once per process.
pub struct Environment {
    /// The canonical form of the temporary directory, where it lies under
    /// the system's private prefix.
    pub private_tmpdir: Option<String>,
    /// The path of the file that holds the sandbox profile, on platforms
    /// whose sandbox tool reads one.
    pub profile_path: Option<String>,
    /// The environment variables, as pairs of name and value.
    pub variables: Vec<(String, String)>,
}

/// The mathematical value of an [`Environment`].
pub struct Bindings {
    pub private_tmpdir: Option<Seq<char>>,
    pub profile_path: Option<Seq<char>>,
    pub variables: Seq<(Seq<char>, Seq<char>)>,
}

impl View for Environment {
    type V = Bindings;

    open spec fn view(&self) -> Bindings {
        Bindings {
            private_tmpdir: text_of(self.private_tmpdir),
            profile_path: text_of(self.profile_path),
            variables: Seq::new(
                self.variables@.len(),
                |k: int| (self.variables@[k].0@, self.variables@[k].1@),
            ),
        }
    }
}

/// The value of the first of `variables[i..]` that is named `key`.
pub open spec fn variable_from(variables: Seq<(Seq<char>, Seq<char>)>, key: Seq<char>, i: int) -> Option<
    Seq<char>,
>
    decreases variables.len() - i,
{
    if i < 0 || i >= variables.len() {
        None
    } else if variables[i].0 == key {
        Some(variables[i].1)
    } else {
        variable_from(variables, key, i + 1)
    }
}

/// What the placeholder `{key}` stands for. The profile path, where there is
/// one, and the private temporary directory are not read from the variables.
pub open spec fn resolve(env: Bindings, key: Seq<char>) -> Option<Seq<char>> {
    if key == "BUILD_WRAP_PROFILE_PATH"@ && env.profile_path is Some {
        env.profile_path
    } else if key == "PRIVATE_TMPDIR"@ {
        env.private_tmpdir
    } else {
        variable_from(env.variables, key, 0)
    }
}

/// The index of the first `}` of `cmd[from..]`, or the length of `cmd` if
/// there is none.
pub open spec fn close_at(cmd: Seq<char>, from: int) -> int
    decreases cmd.len() - from,
{
    if from < 0 || from >= cmd.len() {
        cmd.len() as int
    } else if cmd[from] == '}' {
        from
    } else {
        close_at(cmd, from + 1)
    }
}

/// `text`, followed by what `rest` holds.
pub open spec fn text_then(text: Seq<char>, rest: Result<Seq<char>, Failure>) -> Result<
    Seq<char>,
    Failure,
> {
    match rest {
        Ok(more) => Ok(text + more),
        Err(failure) => Err(failure),
    }
}

/// What a placeholder with the text `key` between its braces stands for: the
/// build script path if `key` is empty, else the value that `key` names.
pub open spec fn placeholder(key: Seq<char>, path: Option<Seq<char>>, env: Bindings) -> Result<
    Seq<char>,
    Failure,
> {
    if key.len() == 0 {
        match path {
            Some(path) => Ok(path),
            None => Err(Failure::PathUnavailable),
        }
    } else {
        match resolve(env, key) {
            Some(value) => Ok(value),
            None => Err(Failure::VariableNotFound(key)),
        }
    }
}

/// The expansion of `cmd[i..]`.
pub open spec fn expand_from(cmd: Seq<char>, i: int, path: Option<Seq<char>>, env: Bindings) -> Result<
    Seq<char>,
    Failure,
>
    decreases cmd.len() - i,
{
    if i < 0 || i >= cmd.len() {
        Ok(Seq::empty())
    } else if cmd[i] != '{' && cmd[i] != '}' {
        text_then(seq![cmd[i]], expand_from(cmd, i + 1, path, env))
    } else if i + 1 < cmd.len() && cmd[i + 1] == cmd[i] {
        text_then(seq![cmd[i]], expand_from(cmd, i + 2, path, env))
    } else if cmd[i] == '}' {
        Err(Failure::UnbalancedClose)
    } else {
        let j = close_at(cmd, i + 1);
        if j >= cmd.len() {
            Err(Failure::UnbalancedOpen)
        } else {
            proof {
                lemma_close_at(cmd, i + 1);
            }
            match placeholder(cmd.subrange(i + 1, j), path, env) {
                Ok(value) => text_then(value, expand_from(cmd, j + 1, path, env)),
                Err(failure) => Err(failure),
            }
        }
    }
}

/// The expansion of the word `cmd`: a doubled brace stands for itself, `{}`
/// for the build script path, and `{KEY}` for the value that `KEY` names.
pub open spec fn expansion(cmd: Seq<char>, path: Option<Seq<char>>, env: Bindings) -> Result<
    Seq<char>,
    Failure,
> {
    expand_from(cmd, 0, path, env)
}

/// `close_at` finds a position from `from` on, and no `}` stands before it.
pub proof fn lemma_close_at(cmd: Seq<char>, from: int)
    requires
        0 <= from <= cmd.len(),
    ensures
        from <= close_at(cmd, from) <= cmd.len(),
        close_at(cmd, from) < cmd.len() ==> cmd[close_at(cmd, from)] == '}',
        forall|k: int| from <= k < close_at(cmd, from) ==> cmd[k] != '}',
    decreases cmd.len() - from,
{
    if from < cmd.len() && cmd[from] != '}' {
        lemma_close_at(cmd, from + 1);
    }
}

/// The mathematical value of the result of [`expand`].
pub open spec fn text_view(r: Result<String, Error>) -> Result<Seq<char>, Failure> {
    match r {
        Ok(s) => Ok(s@),
        Err(e) => Err(e@),
    }
}

fn same_chars(a: &Vec<char>, from: usize, to: usize, b: &Vec<char>) -> (r: bool)
    requires
        from <= to <= a.len(),
    ensures
        r == (a@.subrange(from as int, to as int) == b@),
{
    if to - from != b.len() {
        return false;
    }
    let mut k: usize = 0;
    while k < b.len()
        invariant
            from <= to <= a.len(),
            to - from == b.len(),
            k <= b.len(),
            forall|m: int| 0 <= m < k ==> a@[from + m] == b@[m],
        decreases b.len() - k,
    {
        if a[from + k] != b[k] {
            assert(a@.subrange(from as int, to as int)[k as int] != b@[k as int]);
            return false;
        }
        k += 1;
    }
    assert(a@.subrange(from as int, to as int) =~= b@);
    true
}

fn find_variable<'a>(variables: &'a Vec<(String, String)>, cmd: &Vec<char>, from: usize, to: usize) -> (r:
    Option<&'a String>)
    requires
        from <= to <= cmd.len(),
    ensures
        text_of_ref(r) == variable_from(
            Seq::new(variables@.len(), |k: int| (variables@[k].0@, variables@[k].1@)),
            cmd@.subrange(from as int, to as int),
            0,
        ),
{
    let ghost pairs = Seq::new(variables@.len(), |k: int| (variables@[k].0@, variables@[k].1@));
    let ghost key = cmd@.subrange(from as int, to as int);
    let mut k: usize = 0;
    while k < variables.len()
        invariant
            from <= to <= cmd.len(),
            k <= variables.len(),
            pairs == Seq::new(variables@.len(), |k: int| (variables@[k].0@, variables@[k].1@)),
            key == cmd@.subrange(from as int, to as int),
            variable_from(pairs, key, 0) == variable_from(pairs, key, k as int),
        decreases variables.len() - k,
    {
        let name = chars_of(variables[k].0.as_str());
        if same_chars(cmd, from, to, &name) {
            return Some(&variables[k].1);
        }
        k += 1;
    }
    None
}

impl Environment {
    /// The value that the placeholder `{KEY}` stands for, where `KEY` is
    /// `cmd[from..to]`.
    fn var<'a>(&'a self, cmd: &Vec<char>, from: usize, to: usize) -> (r: Option<&'a String>)
        requires
            from <= to <= cmd.len(),
        ensures
            text_of_ref(r) == resolve(self@, cmd@.subrange(from as int, to as int)),
    {
        let profile = chars_of("BUILD_WRAP_PROFILE_PATH");
        let private = chars_of("PRIVATE_TMPDIR");
        if same_chars(cmd, from, to, &profile) && self.profile_path.is_some() {
            self.profile_path.as_ref()
        } else if same_chars(cmd, from, to, &private) {
            self.private_tmpdir.as_ref()
        } else {
            find_variable(&self.variables, cmd, from, to)
        }
    }

    /// The value that the placeholder `{key}` stands for.
    pub fn lookup<'a>(&'a self, key: &str) -> (r: Option<&'a String>)
        ensures
            text_of_ref(r) == resolve(self@, key@),
    {
        let chars = chars_of(key);
        assert(chars@.subrange(0, chars@.len() as int) =~= key@);
        self.var(&chars, 0, chars.len())
    }

    /// The text of the sandbox profile: the value of `BUILD_WRAP_PROFILE`,
    /// or the default profile where that has no value, with its placeholders
    /// replaced. A profile belongs to no build script, so `{}` has no value
    /// in it.
    pub fn profile(&self) -> (r: Result<String, Error>)
        ensures
            text_view(r) == expansion(profile_template(self@), None, self@),
    {
        match self.lookup("BUILD_WRAP_PROFILE") {
            Some(profile) => expand(profile.as_str(), None, self),
            None => expand(DEFAULT_PROFILE, None, self),
        }
    }
}

/// The sandbox profile before its placeholders are replaced.
pub open spec fn profile_template(env: Bindings) -> Seq<char> {
    match resolve(env, "BUILD_WRAP_PROFILE"@) {
        Some(profile) => profile,
        None => DEFAULT_PROFILE@,
    }
}

/// The private form of the temporary directory: its canonical path, if it
/// has one and that lies under `/private`.
pub fn private_tmpdir(canonical_tmpdir: Option<&str>) -> (r: Option<String>)
    ensures
        text_of(r) == match canonical_tmpdir {
            Some(path) => if path_starts_with(path@, "/private"@) {
                Some(path@)
            } else {
                None
            },
            None => None,
        },
{
    match canonical_tmpdir {
        Some(path) => {
            if starts_with(path, "/private") {
                Some(path.to_owned())
            } else {
                None
            }
        },
        None => None,
    }
}

/// Replaces the placeholders of one word of a template. `{{` and `}}` stand
/// for one brace, `{}` for `build_script_path`, and `{KEY}` for the value of
/// `KEY` in `env`. Fails at the first brace that is not balanced and at the
/// first placeholder that has no value.
pub fn expand(cmd: &str, build_script_path: Option<&str>, env: &Environment) -> (r: Result<
    String,
    Error,
>)
    ensures
        text_view(r) == expansion(cmd@, text_of_str(build_script_path), env@),
{
    let chars = chars_of(cmd);
    let ghost path = text_of_str(build_script_path);
    let mut buf = String::new();
    let mut i: usize = 0;
    while i < chars.len()
        invariant
            chars@ == cmd@,
            i <= chars.len(),
            path == text_of_str(build_script_path),
            expansion(cmd@, path, env@) == text_then(buf@, expand_from(cmd@, i as int, path, env@)),
        decreases chars.len() - i,
    {
        let c = chars[i];
        let ghost before = buf@;
        if c != '{' && c != '}' {
            buf.push(c);
            proof {
                lemma_text_then_twice(before, seq![c], expand_from(cmd@, i + 1, path, env@));
            }
            i += 1;
        } else if i + 1 < chars.len() && chars[i + 1] == c {
            buf.push(c);
            proof {
                lemma_text_then_twice(before, seq![c], expand_from(cmd@, i + 2, path, env@));
            }
            i += 2;
        } else if c == '}' {
            return Err(Error::UnbalancedClose);
        } else {
            let mut j: usize = i + 1;
            while j < chars.len() && chars[j] != '}'
                invariant
                    i < j <= chars.len(),
                    chars@ == cmd@,
                    close_at(cmd@, i + 1) == close_at(cmd@, j as int),
                decreases chars.len() - j,
            {
                j += 1;
            }
            if j >= chars.len() {
                return Err(Error::UnbalancedOpen);
            }
            if j == i + 1 {
                match build_script_path {
                    Some(p) => {
                        buf.append(p);
                        proof {
                            lemma_text_then_twice(
                                before,
                                p@,
                                expand_from(cmd@, j + 1, path, env@),
                            );
                        }
                    },
                    None => {
                        return Err(Error::PathUnavailable);
                    },
                }
            } else {
                match env.var(&chars, i + 1, j) {
                    Some(value) => {
                        buf.append(value.as_str());
                        proof {
                            lemma_text_then_twice(
                                before,
                                value@,
                                expand_from(cmd@, j + 1, path, env@),
                            );
                        }
                    },
                    None => {
                        return Err(Error::VariableNotFound(string_of(&chars, i + 1, j)));
                    },
                }
            }
            i = j + 1;
        }
    }
    assert(buf@ + Seq::<char>::empty() =~= buf@);
    Ok(buf)
}

/// Putting `a` and then `b` before a result is putting `a + b` before it.
proof fn lemma_text_then_twice(a: Seq<char>, b: Seq<char>, rest: Result<Seq<char>, Failure>)
    ensures
        text_then(a, text_then(b, rest)) == text_then(a + b, rest),
        a.push(b[0]) == a + seq![b[0]],
{
    match rest {
        Ok(more) => {
            assert(a + (b + more) =~= (a + b) + more);
        },
        Err(_) => {},
    }
    assert(a.push(b[0]) =~= a + seq![b[0]]);
}

/// The expansions of `words[i..]`, or the failure of the first of them that
/// has one.
pub open spec fn expand_words_from(
    words: Seq<Seq<char>>,
    i: int,
    path: Option<Seq<char>>,
    env: Bindings,
) -> Result<Seq<Seq<char>>, Failure>
    decreases words.len() - i,
{
    if i < 0 || i >= words.len() {
        Ok(Seq::empty())
    } else {
        match expansion(words[i], path, env) {
            Ok(arg) => words_then(seq![arg], expand_words_from(words, i + 1, path, env)),
            Err(failure) => Err(failure),
        }
    }
}

/// The command that a template stands for: its words, each expanded. There
/// is none where no template is given, where the template cannot be split,
/// where a word cannot be expanded, and where the template holds no word.
pub open spec fn command_of(template: Option<Seq<char>>, path: Seq<char>, env: Bindings) -> Result<
    Seq<Seq<char>>,
    Failure,
> {
    match template {
        None => Err(Failure::TemplateUndefined),
        Some(template) => match words_of(template) {
            Err(failure) => Err(failure),
            Ok(words) => match expand_words_from(words, 0, Some(path), env) {
                Err(failure) => Err(failure),
                Ok(args) => if args.len() == 0 {
                    Err(Failure::EmptyCommand)
                } else {
                    Ok(args)
                },
            },
        },
    }
}

/// Builds the sandbox command from the template that was fixed when the
/// wrapper was compiled: splits it into words and expands each with
/// `build_script_path` standing for `{}`.
pub fn split_and_expand(template: Option<&str>, build_script_path: &str, env: &Environment) -> (r:
    Result<Vec<String>, Error>)
    ensures
        words_view(r) == command_of(text_of_str(template), build_script_path@, env@),
        r matches Ok(args) ==> args@.len() > 0,
{
    let cmd = match template {
        Some(cmd) => cmd,
        None => {
            return Err(Error::TemplateUndefined);
        },
    };
    let args = match split_escaped(cmd) {
        Ok(args) => args,
        Err(e) => {
            return Err(e);
        },
    };
    let ghost words = texts(args@);
    let ghost path = Some(build_script_path@);
    let mut expanded_args: Vec<String> = Vec::new();
    let mut i: usize = 0;
    while i < args.len()
        invariant
            i <= args.len(),
            words == texts(args@),
            path == Some(build_script_path@),
            template == Some(cmd),
            words_of(cmd@) == Ok::<Seq<Seq<char>>, Failure>(words),
            expand_words_from(words, 0, path, env@) == words_then(
                texts(expanded_args@),
                expand_words_from(words, i as int, path, env@),
            ),
            expanded_args@.len() == i,
        decreases args.len() - i,
    {
        let ghost before = texts(expanded_args@);
        match expand(args[i].as_str(), Some(build_script_path), env) {
            Ok(arg) => {
                expanded_args.push(arg);
                proof {
                    assert(texts(expanded_args@) =~= before + seq![arg@]);
                    lemma_words_then_twice(
                        before,
                        seq![arg@],
                        expand_words_from(words, i + 1, path, env@),
                    );
                }
            },
            Err(e) => {
                return Err(e);
            },
        }
        i += 1;
    }
    assert(texts(expanded_args@) + Seq::<Seq<char>>::empty() =~= texts(expanded_args@));
    if expanded_args.len() == 0 {
        return Err(Error::EmptyCommand);
    }
    Ok(expanded_args)
}

/// The words of `s[i..]` where nothing is escaped, with `word` being what
/// has been read of the word that `s[i]` continues.
pub open spec fn plain_from(s: Seq<char>, i: int, word: Seq<char>) -> Seq<Seq<char>>
    decreases s.len() - i,
{
    if i < 0 || i >= s.len() {
        closed(word)
    } else if is_space(s[i]) {
        closed(word) + plain_from(s, i + 1, Seq::empty())
    } else {
        plain_from(s, i + 1, word.push(s[i]))
    }
}

/// The maximal runs of characters of `s` that are not whitespace.
pub open spec fn plain_words_of(s: Seq<char>) -> Seq<Seq<char>> {
    plain_from(s, 0, Seq::empty())
}

/// Splits a text at whitespace, as `str::split_ascii_whitespace` does. No
/// character is escaped.
pub fn split_ascii_whitespace(s: &str) -> (r: Vec<String>)
    ensures
        texts(r@) == plain_words_of(s@),
{
    let chars = chars_of(s);
    let mut v: Vec<String> = Vec::new();
    let mut word = String::new();
    let mut i: usize = 0;
    while i < chars.len()
        invariant
            chars@ == s@,
            i <= chars.len(),
            plain_words_of(s@) == texts(v@) + plain_from(s@, i as int, word@),
        decreases chars.len() - i,
    {
        let c = chars[i];
        let ghost before = texts(v@);
        let ghost ended = closed(word@);
        if is_space_char(c) {
            if word.as_str().unicode_len() != 0 {
                v.push(word);
                word = String::new();
            }
            proof {
                assert(texts(v@) =~= before + ended);
                assert(word@ =~= Seq::<char>::empty());
                assert((before + ended) + plain_from(s@, i + 1, Seq::empty()) =~= before + (ended
                    + plain_from(s@, i + 1, Seq::empty())));
            }
        } else {
            word.push(c);
        }
        i += 1;
    }
    let ghost before = texts(v@);
    let ghost ended = closed(word@);
    if word.as_str().unicode_len() != 0 {
        v.push(word);
    }
    assert(texts(v@) =~= before + ended);
    v
}

/// The command that a template without placeholders stands for: its words,
/// and after them the path of the program that is to be run in the sandbox.
pub open spec fn plain_command_of(template: Option<Seq<char>>, path: Seq<char>) -> Result<
    Seq<Seq<char>>,
    Failure,
> {
    match template {
        None => Err(Failure::TemplateUndefined),
        Some(template) => if plain_words_of(template).len() == 0 {
            Err(Failure::EmptyTemplate)
        } else {
            Ok(plain_words_of(template).push(path))
        },
    }
}

/// Builds the sandbox command from a template without placeholders: the
/// words of the template, and after them `path`.
pub fn unwrap_command(template: Option<&str>, path: &str) -> (r: Result<Vec<String>, Error>)
    ensures
        words_view(r) == plain_command_of(text_of_str(template), path@),
{
    let s = match template {
        Some(s) => s,
        None => {
            return Err(Error::TemplateUndefined);
        },
    };
    let mut args = split_ascii_whitespace(s);
    if args.len() == 0 {
        return Err(Error::EmptyTemplate);
    }
    let ghost before = texts(args@);
    args.push(path.to_owned());
    assert(texts(args@) =~= before.push(path@));
    Ok(args)
}

} // verus!
