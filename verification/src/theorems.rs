//! What holds of the template engine for every template: how expansion
//! treats a template made of two parts, and what follows for literal text,
//! doubled braces, placeholders and unbalanced braces.

use vstd::prelude::*;
use crate::error::{message_of, Failure};
use crate::template::{
    close_at, closed, expand_from, expansion, is_escapable, is_space, lemma_close_at,
    lemma_no_empty_word,
    placeholder, plain_from,
    plain_words_of, resolve, split_from, text_then, words_of, Bindings,
};

verus! {

/// Whether `s` holds neither `{` nor `}`.
pub open spec fn brace_free(s: Seq<char>) -> bool {
    forall|k: int| 0 <= k < s.len() ==> s[k] != '{' && s[k] != '}'
}

/// Whether `needle` occurs in `text`.
pub open spec fn occurs_in(needle: Seq<char>, text: Seq<char>) -> bool {
    exists|k: int|
        0 <= k && k + needle.len() <= text.len() && #[trigger] text.subrange(
            k,
            k + needle.len(),
        ) == needle
}

/// `pieces`, with `sep` between each two neighbours.
pub open spec fn joined(pieces: Seq<Seq<char>>, sep: Seq<char>) -> Seq<char>
    decreases pieces.len(),
{
    if pieces.len() == 0 {
        Seq::empty()
    } else if pieces.len() == 1 {
        pieces[0]
    } else {
        joined(pieces.drop_last(), sep) + sep + pieces.last()
    }
}

proof fn lemma_close_at_prefix(a: Seq<char>, b: Seq<char>, from: int)
    requires
        0 <= from <= a.len(),
        close_at(a, from) < a.len(),
    ensures
        close_at(a + b, from) == close_at(a, from),
    decreases a.len() - from,
{
    if from < a.len() {
        assert((a + b)[from] == a[from]);
        if a[from] != '}' {
            lemma_close_at_prefix(a, b, from + 1);
        }
    }
}

proof fn lemma_close_at_shift(a: Seq<char>, b: Seq<char>, k: int)
    requires
        0 <= k <= b.len(),
    ensures
        close_at(a + b, a.len() + k) == a.len() + close_at(b, k),
    decreases b.len() - k,
{
    if k < b.len() {
        assert((a + b)[a.len() + k] == b[k]);
        if b[k] != '}' {
            lemma_close_at_shift(a, b, k + 1);
        }
    }
}

proof fn lemma_expand_shift(
    a: Seq<char>,
    b: Seq<char>,
    k: int,
    path: Option<Seq<char>>,
    env: Bindings,
)
    requires
        0 <= k <= b.len(),
    ensures
        expand_from(a + b, a.len() + k, path, env) == expand_from(b, k, path, env),
    decreases b.len() - k,
{
    let n = a.len() as int;
    let ab = a + b;
    if k < b.len() {
        assert(ab[n + k] == b[k]);
        if b[k] != '{' && b[k] != '}' {
            lemma_expand_shift(a, b, k + 1, path, env);
        } else if k + 1 < b.len() && b[k + 1] == b[k] {
            assert(ab[n + k + 1] == b[k + 1]);
            lemma_expand_shift(a, b, k + 2, path, env);
        } else if b[k] == '}' {
            if k + 1 < b.len() {
                assert(ab[n + k + 1] == b[k + 1]);
            }
        } else {
            if k + 1 < b.len() {
                assert(ab[n + k + 1] == b[k + 1]);
            }
            lemma_close_at_shift(a, b, k + 1);
            lemma_close_at(b, k + 1);
            let j = close_at(b, k + 1);
            if j < b.len() {
                assert(ab.subrange(n + k + 1, n + j) =~= b.subrange(k + 1, j));
                lemma_expand_shift(a, b, j + 1, path, env);
            }
        }
    }
}

proof fn lemma_expand_prefix(
    a: Seq<char>,
    b: Seq<char>,
    i: int,
    path: Option<Seq<char>>,
    env: Bindings,
)
    requires
        0 <= i <= a.len(),
        expand_from(a, i, path, env) is Ok,
    ensures
        expand_from(a + b, i, path, env) == text_then(
            expand_from(a, i, path, env)->Ok_0,
            expansion(b, path, env),
        ),
    decreases a.len() - i,
{
    let ab = a + b;
    let tail = expansion(b, path, env);
    if i == a.len() {
        lemma_expand_shift(a, b, 0, path, env);
        match tail {
            Ok(more) => {
                assert(Seq::<char>::empty() + more =~= more);
            },
            Err(_) => {},
        }
    } else {
        assert(ab[i] == a[i]);
        if a[i] != '{' && a[i] != '}' {
            lemma_expand_prefix(a, b, i + 1, path, env);
            lemma_then_twice(seq![a[i]], expand_from(a, i + 1, path, env)->Ok_0, tail);
        } else if i + 1 < a.len() && a[i + 1] == a[i] {
            assert(ab[i + 1] == a[i + 1]);
            lemma_expand_prefix(a, b, i + 2, path, env);
            lemma_then_twice(seq![a[i]], expand_from(a, i + 2, path, env)->Ok_0, tail);
        } else {
            lemma_close_at(a, i + 1);
            let j = close_at(a, i + 1);
            assert(a[i] == '{' && j < a.len());
            assert(i + 1 < a.len());
            assert(ab[i + 1] == a[i + 1]);
            lemma_close_at_prefix(a, b, i + 1);
            assert(ab.subrange(i + 1, j) =~= a.subrange(i + 1, j));
            let value = placeholder(a.subrange(i + 1, j), path, env)->Ok_0;
            lemma_expand_prefix(a, b, j + 1, path, env);
            lemma_then_twice(value, expand_from(a, j + 1, path, env)->Ok_0, tail);
        }
    }
}

proof fn lemma_then_twice(a: Seq<char>, b: Seq<char>, rest: Result<Seq<char>, Failure>)
    ensures
        text_then(a, text_then(b, rest)) == text_then(a + b, rest),
{
    match rest {
        Ok(more) => {
            assert(a + (b + more) =~= (a + b) + more);
        },
        Err(_) => {},
    }
}

/// Expansion goes through a template from left to right: where the first
/// part of a template can be expanded by itself, the expansion of the whole
/// is that of the first part followed by that of the rest.
pub proof fn theorem_expansion_of_parts(
    a: Seq<char>,
    b: Seq<char>,
    path: Option<Seq<char>>,
    env: Bindings,
)
    requires
        expansion(a, path, env) is Ok,
    ensures
        expansion(a + b, path, env) == text_then(
            expansion(a, path, env)->Ok_0,
            expansion(b, path, env),
        ),
{
    lemma_expand_prefix(a, b, 0, path, env);
}

proof fn lemma_expand_literal(s: Seq<char>, i: int, path: Option<Seq<char>>, env: Bindings)
    requires
        0 <= i <= s.len(),
        brace_free(s),
    ensures
        expand_from(s, i, path, env) == Ok::<Seq<char>, Failure>(s.subrange(i, s.len() as int)),
    decreases s.len() - i,
{
    if i < s.len() {
        lemma_expand_literal(s, i + 1, path, env);
        assert(seq![s[i]] + s.subrange(i + 1, s.len() as int) =~= s.subrange(i, s.len() as int));
    } else {
        assert(s.subrange(i, s.len() as int) =~= Seq::<char>::empty());
    }
}

/// Text without braces expands to itself.
pub proof fn theorem_literal_text(s: Seq<char>, path: Option<Seq<char>>, env: Bindings)
    requires
        brace_free(s),
    ensures
        expansion(s, path, env) == Ok::<Seq<char>, Failure>(s),
{
    lemma_expand_literal(s, 0, path, env);
    assert(s.subrange(0, s.len() as int) =~= s);
}

/// A template made of literal text and the empty placeholder expands to the
/// same text with the build script path in the place of each placeholder:
/// where `pieces` are the stretches of text between the placeholders, the
/// template is `pieces` joined by `{}` and its expansion is `pieces` joined
/// by the path.
pub proof fn theorem_empty_placeholders(
    pieces: Seq<Seq<char>>,
    path: Seq<char>,
    env: Bindings,
)
    requires
        forall|k: int| 0 <= k < pieces.len() ==> brace_free(#[trigger] pieces[k]),
    ensures
        expansion(joined(pieces, seq!['{', '}']), Some(path), env) == Ok::<Seq<char>, Failure>(
            joined(pieces, path),
        ),
    decreases pieces.len(),
{
    let sep = seq!['{', '}'];
    if pieces.len() == 0 {
        theorem_literal_text(Seq::empty(), Some(path), env);
    } else if pieces.len() == 1 {
        theorem_literal_text(pieces[0], Some(path), env);
    } else {
        let front = pieces.drop_last();
        let last = pieces.last();
        theorem_empty_placeholders(front, path, env);
        let head = joined(front, sep);
        let tail = sep + last;
        assert(head + sep + last =~= head + tail);
        theorem_expansion_of_parts(head, tail, Some(path), env);
        // The rest begins with the placeholder.
        assert(tail[0] == '{' && tail[1] == '}');
        assert(close_at(tail, 1) == 1);
        assert(tail.subrange(1, 1) =~= Seq::<char>::empty());
        lemma_expand_shift(sep, last, 0, Some(path), env);
        theorem_literal_text(last, Some(path), env);
        assert(expansion(tail, Some(path), env) == Ok::<Seq<char>, Failure>(path + last));
        assert(joined(front, path) + (path + last) =~= joined(front, path) + path + last);
    }
}

/// A doubled brace stands for one brace wherever it is met: after any text
/// that can be expanded by itself, and whatever follows it.
pub proof fn theorem_doubled_brace(
    a: Seq<char>,
    brace: char,
    b: Seq<char>,
    path: Option<Seq<char>>,
    env: Bindings,
)
    requires
        brace == '{' || brace == '}',
        expansion(a, path, env) is Ok,
    ensures
        expansion(a + seq![brace, brace] + b, path, env) == text_then(
            expansion(a, path, env)->Ok_0 + seq![brace],
            expansion(b, path, env),
        ),
{
    let pair = seq![brace, brace];
    let tail = pair + b;
    assert(a + pair + b =~= a + tail);
    theorem_expansion_of_parts(a, tail, path, env);
    assert(tail[0] == brace && tail[1] == brace);
    lemma_expand_shift(pair, b, 0, path, env);
    assert(expansion(tail, path, env) == text_then(seq![brace], expansion(b, path, env)));
    lemma_then_twice(expansion(a, path, env)->Ok_0, seq![brace], expansion(b, path, env));
}

/// A placeholder whose key has no value fails the expansion with that key,
/// wherever it is met: after any text that can be expanded by itself, and
/// whatever follows it.
pub proof fn theorem_unknown_variable(
    a: Seq<char>,
    key: Seq<char>,
    b: Seq<char>,
    path: Option<Seq<char>>,
    env: Bindings,
)
    requires
        expansion(a, path, env) is Ok,
        key.len() > 0,
        key[0] != '{',
        forall|k: int| 0 <= k < key.len() ==> key[k] != '}',
        resolve(env, key) is None,
    ensures
        expansion(a + seq!['{'] + key + seq!['}'] + b, path, env) == Err::<Seq<char>, Failure>(
            Failure::VariableNotFound(key),
        ),
{
    let tail = seq!['{'] + key + seq!['}'] + b;
    assert(a + seq!['{'] + key + seq!['}'] + b =~= a + tail);
    theorem_expansion_of_parts(a, tail, path, env);
    assert(tail[0] == '{');
    assert(tail[1] == key[0]);
    lemma_close_at(tail, 1);
    let j = close_at(tail, 1);
    assert(tail[key.len() as int + 1] == '}');
    assert forall|k: int| 1 <= k < key.len() + 1 implies tail[k] != '}' by {
        assert(tail[k] == key[k - 1]);
    }
    assert(j == key.len() + 1);
    assert(tail.subrange(1, j) =~= key);
}

/// A `{` that is neither doubled nor followed by a `}` fails the expansion,
/// wherever it is met.
pub proof fn theorem_unbalanced_open(
    a: Seq<char>,
    b: Seq<char>,
    path: Option<Seq<char>>,
    env: Bindings,
)
    requires
        expansion(a, path, env) is Ok,
        b.len() > 0 ==> b[0] != '{',
        forall|k: int| 0 <= k < b.len() ==> b[k] != '}',
    ensures
        expansion(a + seq!['{'] + b, path, env) == Err::<Seq<char>, Failure>(
            Failure::UnbalancedOpen,
        ),
{
    let tail = seq!['{'] + b;
    assert(a + seq!['{'] + b =~= a + tail);
    theorem_expansion_of_parts(a, tail, path, env);
    assert(tail[0] == '{');
    if b.len() > 0 {
        assert(tail[1] == b[0]);
    }
    lemma_close_at(tail, 1);
    let j = close_at(tail, 1);
    if j < tail.len() {
        assert(tail[j] == b[j - 1]);
    }
}

/// A `}` that is neither doubled nor the end of a placeholder fails the
/// expansion, wherever it is met.
pub proof fn theorem_unbalanced_close(
    a: Seq<char>,
    b: Seq<char>,
    path: Option<Seq<char>>,
    env: Bindings,
)
    requires
        expansion(a, path, env) is Ok,
        b.len() > 0 ==> b[0] != '}',
    ensures
        expansion(a + seq!['}'] + b, path, env) == Err::<Seq<char>, Failure>(
            Failure::UnbalancedClose,
        ),
{
    let tail = seq!['}'] + b;
    assert(a + seq!['}'] + b =~= a + tail);
    theorem_expansion_of_parts(a, tail, path, env);
    assert(tail[0] == '}');
    if b.len() > 0 {
        assert(tail[1] == b[0]);
    }
}

/// The text shown for a variable without a value holds the variable's name.
pub proof fn theorem_message_names_key(key: Seq<char>)
    ensures
        occurs_in(key, message_of(Failure::VariableNotFound(key))),
{
    let text = message_of(Failure::VariableNotFound(key));
    let k = "environment variable `"@.len() as int;
    assert(text.subrange(k, k + key.len()) =~= key);
}

/// The text shown for an unbalanced brace holds that brace.
pub proof fn theorem_message_names_brace()
    ensures
        message_of(Failure::UnbalancedOpen).contains('{'),
        !message_of(Failure::UnbalancedOpen).contains('}'),
        message_of(Failure::UnbalancedClose).contains('}'),
        !message_of(Failure::UnbalancedClose).contains('{'),
{
    reveal_strlit("unbalanced '{'");
    reveal_strlit("unbalanced '}'");
    assert("unbalanced '{'"@[12] == '{');
    assert("unbalanced '}'"@[12] == '}');
}

proof fn lemma_split_plain(s: Seq<char>, i: int, word: Seq<char>)
    requires
        0 <= i <= s.len(),
        forall|k: int| 0 <= k < s.len() ==> !is_space(s[k]) && s[k] != '\\',
    ensures
        split_from(s, i, word) == Ok::<Seq<Seq<char>>, Failure>(
            closed(word + s.subrange(i, s.len() as int)),
        ),
    decreases s.len() - i,
{
    if i < s.len() {
        lemma_split_plain(s, i + 1, word.push(s[i]));
        assert(word.push(s[i]) + s.subrange(i + 1, s.len() as int) =~= word + s.subrange(
            i,
            s.len() as int,
        ));
    } else {
        assert(word + s.subrange(i, s.len() as int) =~= word);
    }
}

/// A word stays a word: a template that is not empty and holds neither
/// whitespace nor a backslash has exactly one word, itself.
pub proof fn theorem_single_word(s: Seq<char>)
    requires
        s.len() > 0,
        forall|k: int| 0 <= k < s.len() ==> !is_space(s[k]) && s[k] != '\\',
    ensures
        words_of(s) == Ok::<Seq<Seq<char>>, Failure>(seq![s]),
{
    lemma_split_plain(s, 0, Seq::empty());
    assert(Seq::<char>::empty() + s.subrange(0, s.len() as int) =~= s);
}

/// No word of a template is empty.
pub proof fn theorem_no_empty_word(s: Seq<char>)
    ensures
        words_of(s) matches Ok(words) ==> forall|k: int|
            0 <= k < words.len() ==> (#[trigger] words[k]).len() > 0,
{
    lemma_no_empty_word(s, 0, Seq::empty());
}

proof fn lemma_split_unescaped(s: Seq<char>, i: int, word: Seq<char>)
    requires
        0 <= i <= s.len(),
        forall|k: int| 0 <= k < s.len() ==> s[k] != '\\',
    ensures
        split_from(s, i, word) == Ok::<Seq<Seq<char>>, Failure>(plain_from(s, i, word)),
    decreases s.len() - i,
{
    if i < s.len() {
        if is_space(s[i]) {
            lemma_split_unescaped(s, i + 1, Seq::empty());
        } else {
            lemma_split_unescaped(s, i + 1, word.push(s[i]));
        }
    }
}

/// Where nothing is escaped, the words of a template are its runs of
/// characters that are not whitespace, and splitting cannot fail.
pub proof fn theorem_words_without_escapes(s: Seq<char>)
    requires
        forall|k: int| 0 <= k < s.len() ==> s[k] != '\\',
    ensures
        words_of(s) == Ok::<Seq<Seq<char>>, Failure>(plain_words_of(s)),
{
    lemma_split_unescaped(s, 0, Seq::empty());
}

/// `c` as it is written in a template so that it stands for itself in a
/// word: after a backslash if it is whitespace or a backslash.
pub open spec fn escaped_char(c: char) -> Seq<char> {
    if is_escapable(c) {
        seq!['\\', c]
    } else {
        seq![c]
    }
}

/// `word` as it is written in a template.
pub open spec fn escaped(word: Seq<char>) -> Seq<char>
    decreases word.len(),
{
    if word.len() == 0 {
        Seq::empty()
    } else {
        escaped_char(word[0]) + escaped(word.skip(1))
    }
}

/// The template that is made of `words`, each as it is written in a
/// template, with one space between each two neighbours.
pub open spec fn rendered(words: Seq<Seq<char>>) -> Seq<char>
    decreases words.len(),
{
    if words.len() == 0 {
        Seq::empty()
    } else if words.len() == 1 {
        escaped(words[0])
    } else {
        escaped(words[0]) + (seq![' '] + rendered(words.skip(1)))
    }
}

proof fn lemma_split_shift(a: Seq<char>, b: Seq<char>, k: int, word: Seq<char>)
    requires
        0 <= k <= b.len(),
    ensures
        split_from(a + b, a.len() + k, word) == split_from(b, k, word),
    decreases b.len() - k,
{
    let n = a.len() as int;
    let ab = a + b;
    if k < b.len() {
        assert(ab[n + k] == b[k]);
        if is_space(b[k]) {
            lemma_split_shift(a, b, k + 1, Seq::empty());
        } else if b[k] != '\\' {
            lemma_split_shift(a, b, k + 1, word.push(b[k]));
        } else if k + 1 < b.len() {
            assert(ab[n + k + 1] == b[k + 1]);
            if is_escapable(b[k + 1]) {
                lemma_split_shift(a, b, k + 2, word.push(b[k + 1]));
            }
        }
    }
}

proof fn lemma_split_escaped(word: Seq<char>, rest: Seq<char>, read: Seq<char>)
    ensures
        split_from(escaped(word) + rest, 0, read) == split_from(rest, 0, read + word),
    decreases word.len(),
{
    if word.len() == 0 {
        assert(escaped(word) + rest =~= rest);
        assert(read + word =~= read);
    } else {
        let c = word[0];
        let first = escaped_char(c);
        let tail = escaped(word.skip(1)) + rest;
        let s = escaped(word) + rest;
        assert(s =~= first + tail);
        lemma_split_shift(first, tail, 0, read.push(c));
        lemma_split_escaped(word.skip(1), rest, read.push(c));
        assert(read.push(c) + word.skip(1) =~= read + word);
        if is_escapable(c) {
            assert(s[0] == '\\' && s[1] == c);
        } else {
            assert(s[0] == c);
        }
    }
}

/// Every command can be written as a template: words that are not empty,
/// written with a backslash before each whitespace character and each
/// backslash and with a space between them, are split into these very
/// words.
pub proof fn theorem_split_of_rendered(words: Seq<Seq<char>>)
    requires
        forall|k: int| 0 <= k < words.len() ==> (#[trigger] words[k]).len() > 0,
    ensures
        words_of(rendered(words)) == Ok::<Seq<Seq<char>>, Failure>(words),
    decreases words.len(),
{
    if words.len() == 0 {
        assert(words =~= Seq::<Seq<char>>::empty());
    } else if words.len() == 1 {
        lemma_split_escaped(words[0], Seq::empty(), Seq::empty());
        assert(escaped(words[0]) + Seq::<char>::empty() =~= escaped(words[0]));
        assert(Seq::<char>::empty() + words[0] =~= words[0]);
        assert(seq![words[0]] =~= words);
    } else {
        let tail = words.skip(1);
        let rest = seq![' '] + rendered(tail);
        assert forall|k: int| 0 <= k < tail.len() implies (#[trigger] tail[k]).len() > 0 by {
            assert(tail[k] == words[k + 1]);
        }
        theorem_split_of_rendered(tail);
        lemma_split_escaped(words[0], rest, Seq::empty());
        assert(Seq::<char>::empty() + words[0] =~= words[0]);
        assert(rest[0] == ' ');
        lemma_split_shift(seq![' '], rendered(tail), 0, Seq::empty());
        assert(seq![words[0]] + tail =~= words);
    }
}

/// `text` with each brace doubled.
pub open spec fn doubled(text: Seq<char>) -> Seq<char>
    decreases text.len(),
{
    if text.len() == 0 {
        Seq::empty()
    } else if text[0] == '{' || text[0] == '}' {
        seq![text[0], text[0]] + doubled(text.skip(1))
    } else {
        seq![text[0]] + doubled(text.skip(1))
    }
}

/// Every text can be written as a template: a text with each of its braces
/// doubled expands to the text, whatever the placeholders stand for.
pub proof fn theorem_expansion_of_doubled(text: Seq<char>, path: Option<Seq<char>>, env: Bindings)
    ensures
        expansion(doubled(text), path, env) == Ok::<Seq<char>, Failure>(text),
    decreases text.len(),
{
    if text.len() > 0 {
        let c = text[0];
        let tail = doubled(text.skip(1));
        let s = doubled(text);
        theorem_expansion_of_doubled(text.skip(1), path, env);
        assert(seq![c] + text.skip(1) =~= text);
        if c == '{' || c == '}' {
            assert(s =~= seq![c, c] + tail);
            assert(s[0] == c && s[1] == c);
            lemma_expand_shift(seq![c, c], tail, 0, path, env);
            assert(expand_from(s, 2, path, env) == Ok::<Seq<char>, Failure>(text.skip(1)));
        } else {
            assert(s =~= seq![c] + tail);
            assert(s[0] == c);
            lemma_expand_shift(seq![c], tail, 0, path, env);
            assert(expand_from(s, 1, path, env) == Ok::<Seq<char>, Failure>(text.skip(1)));
        }
    } else {
        assert(text =~= Seq::<char>::empty());
    }
}

} // verus!
