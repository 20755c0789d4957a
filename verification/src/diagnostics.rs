//! What the help text reports: whether the linker replacement is the
//! configured linker, and whether the operating system asks for more to be
//! installed.

use vstd::prelude::*;
use vstd::string::StringExecFns;
use crate::document::{entry_in, entry_of, parse, toml_document, Item};
use crate::error::{Error, Failure};
use crate::pattern::{captures, captures_of, group_texts};
use crate::text::{chars_of, same_text, string_of, text_of_ref, text_of_str, texts};
use crate::wrapper::pairs;

verus! {

/// The form of a line that sets a variable: a name of letters, digits and
/// underscores, an equals sign, and the value.
pub const ENV_LINE_PATTERN: &'static str = "([A-Za-z0-9_]+)=(.*)";

/// The form of a version: a major and a minor number with a dot between.
pub const VERSION_ID_PATTERN: &'static str = "([0-9]+)\\.[0-9]+";

/// The first major version of the operating system that asks for a profile.
pub const NOBLE_NUMBAT: u64 = 24;

/// Whether these are the arguments of a call for help: whether each
/// argument after the program's name is `-h` or `--help`.
pub open spec fn asks_for_help(args: Seq<Seq<char>>) -> bool {
    forall|i: int| 1 <= i < args.len() ==> args[i] == "-h"@ || args[i] == "--help"@
}

/// Whether the program is called for its help text rather than to link.
pub fn wants_help(args: &[String]) -> (r: bool)
    ensures
        r == asks_for_help(texts(args@)),
{
    let mut i: usize = 1;
    while i < args.len()
        invariant
            1 <= i,
            forall|k: int| 1 <= k < i && k < args.len() ==> texts(args@)[k] == "-h"@ || texts(
                args@,
            )[k] == "--help"@,
        decreases args.len() - i,
    {
        if !same_text(args[i].as_str(), "-h") && !same_text(args[i].as_str(), "--help") {
            assert(texts(args@)[i as int] == args@[i as int]@);
            return false;
        }
        i += 1;
    }
    true
}

/// `line` without the carriage return at its end, if it has one.
pub open spec fn without_cr(line: Seq<char>) -> Seq<char> {
    if line.len() > 0 && line.last() == '\r' {
        line.drop_last()
    } else {
        line
    }
}

/// The lines of `s[i..]`, where `line` is what has been read of the line
/// that `s[i]` continues.
pub open spec fn lines_from(s: Seq<char>, i: int, line: Seq<char>) -> Seq<Seq<char>>
    decreases s.len() - i,
{
    if i < 0 || i >= s.len() {
        if line.len() == 0 {
            Seq::empty()
        } else {
            seq![line]
        }
    } else if s[i] == '\n' {
        seq![without_cr(line)] + lines_from(s, i + 1, Seq::empty())
    } else {
        lines_from(s, i + 1, line.push(s[i]))
    }
}

/// The lines of a text: what stands before each line feed, without a
/// carriage return that stands just before it, and what follows the last
/// line feed unless that is empty.
pub open spec fn lines_of(s: Seq<char>) -> Seq<Seq<char>> {
    lines_from(s, 0, Seq::empty())
}

/// Splits a text into its lines, as `str::lines` does.
pub fn lines(s: &str) -> (r: Vec<String>)
    ensures
        texts(r@) == lines_of(s@),
{
    let chars = chars_of(s);
    let mut r: Vec<String> = Vec::new();
    let mut start: usize = 0;
    let mut i: usize = 0;
    assert(chars@.subrange(0, 0) =~= Seq::<char>::empty());
    while i < chars.len()
        invariant
            chars@ == s@,
            start <= i <= chars.len(),
            lines_of(s@) == texts(r@) + lines_from(
                s@,
                i as int,
                chars@.subrange(start as int, i as int),
            ),
        decreases chars.len() - i,
    {
        let ghost line = chars@.subrange(start as int, i as int);
        let ghost before = texts(r@);
        if chars[i] == '\n' {
            let end = if i > start && chars[i - 1] == '\r' {
                i - 1
            } else {
                i
            };
            assert(chars@.subrange(start as int, end as int) =~= without_cr(line));
            r.push(string_of(&chars, start, end));
            start = i + 1;
            proof {
                assert(texts(r@) =~= before + seq![without_cr(line)]);
                assert(chars@.subrange(start as int, start as int) =~= Seq::<char>::empty());
                assert((before + seq![without_cr(line)]) + lines_from(s@, i + 1, Seq::empty())
                    =~= before + (seq![without_cr(line)] + lines_from(s@, i + 1, Seq::empty())));
            }
        } else {
            assert(chars@.subrange(start as int, i + 1) =~= line.push(chars@[i as int]));
        }
        i += 1;
    }
    let ghost before = texts(r@);
    let ghost line = chars@.subrange(start as int, i as int);
    if start < chars.len() {
        r.push(string_of(&chars, start, chars.len()));
        assert(texts(r@) =~= before + seq![line]);
    } else {
        assert(before + Seq::<Seq<char>>::empty() =~= before);
    }
    r
}

/// Whether `c` is a decimal digit.
pub open spec fn is_digit(c: char) -> bool {
    '0' <= c <= '9'
}

/// The number that the digit `c` stands for.
pub open spec fn digit_value(c: char) -> nat {
    (c as u32 - '0' as u32) as nat
}

/// The number that `s` stands for if `s[..i]` stands for `value`.
pub open spec fn number_from(s: Seq<char>, i: int, value: nat) -> Result<u64, Failure>
    decreases s.len() - i,
{
    if i < 0 || i >= s.len() {
        Ok(value as u64)
    } else if !is_digit(s[i]) {
        Err(Failure::InvalidDigit)
    } else if value * 10 + digit_value(s[i]) > u64::MAX {
        Err(Failure::NumberTooLarge)
    } else {
        number_from(s, i + 1, value * 10 + digit_value(s[i]))
    }
}

/// The number that the decimal numeral `s` stands for. A plus sign may
/// stand before the digits. The text is read from the left, and the first
/// character that is no digit, or with which the number outgrows 64 bits,
/// decides the failure.
pub open spec fn number_of(s: Seq<char>) -> Result<u64, Failure> {
    if s.len() == 0 {
        Err(Failure::EmptyNumber)
    } else if s.len() == 1 && (s[0] == '+' || s[0] == '-') {
        Err(Failure::InvalidDigit)
    } else if s[0] == '+' {
        number_from(s, 1, 0)
    } else {
        number_from(s, 0, 0)
    }
}

/// The mathematical value of a result that holds a plain value.
pub open spec fn plain_view<T>(r: Result<T, Error>) -> Result<T, Failure> {
    match r {
        Ok(value) => Ok(value),
        Err(e) => Err(e@),
    }
}

/// Reads a decimal numeral of at most 64 bits, as `u64::from_str` does.
pub fn parse_u64(s: &str) -> (r: Result<u64, Error>)
    ensures
        plain_view(r) == number_of(s@),
{
    let chars = chars_of(s);
    if chars.len() == 0 {
        return Err(Error::EmptyNumber);
    }
    if chars.len() == 1 && (chars[0] == '+' || chars[0] == '-') {
        return Err(Error::InvalidDigit);
    }
    let mut i: usize = if chars[0] == '+' {
        1
    } else {
        0
    };
    let mut value: u64 = 0;
    while i < chars.len()
        invariant
            chars@ == s@,
            i <= chars.len(),
            number_of(s@) == number_from(s@, i as int, value as nat),
        decreases chars.len() - i,
    {
        let c = chars[i];
        if !(c >= '0' && c <= '9') {
            return Err(Error::InvalidDigit);
        }
        let digit: u64 = (c as u32 - '0' as u32) as u64;
        if value > (u64::MAX - digit) / 10 {
            assert(value * 10 + digit > u64::MAX) by (nonlinear_arith)
                requires
                    value > (u64::MAX - digit) / 10,
                    0 <= digit <= 9,
            ;
            return Err(Error::NumberTooLarge);
        }
        assert(value * 10 + digit <= u64::MAX) by (nonlinear_arith)
            requires
                value <= (u64::MAX - digit) / 10,
                0 <= digit <= 9,
        ;
        value = value * 10 + digit;
        i += 1;
    }
    Ok(value)
}

/// `value` without the double quotes around it, if it stands between two.
pub open spec fn unquoted(value: Seq<char>) -> Seq<char> {
    if value.len() >= 2 && value[0] == '"' && value.last() == '"' {
        value.subrange(1, value.len() - 1)
    } else {
        value
    }
}

/// The variable that a line sets, given the groups that the form of such a
/// line has matched in it: the first group names the variable, the second
/// is its value, which may stand between double quotes.
pub open spec fn entry_given(line: Seq<char>, groups: Option<Seq<Option<Seq<char>>>>) -> Result<
    (Seq<char>, Seq<char>),
    Failure,
> {
    match groups {
        Some(groups) => if groups.len() == 3 && groups[1] is Some && groups[2] is Some {
            Ok((groups[1]->0, unquoted(groups[2]->0)))
        } else {
            Err(Failure::BadLine(line))
        },
        None => Err(Failure::BadLine(line)),
    }
}

/// The mathematical value of a list of groups that may be missing.
pub open spec fn groups_view(groups: Option<&Vec<Option<String>>>) -> Option<
    Seq<Option<Seq<char>>>,
> {
    match groups {
        Some(groups) => Some(group_texts(groups@)),
        None => None,
    }
}

/// The mathematical value of the result of [`env_entry`].
pub open spec fn entry_view(r: Result<(String, String), Error>) -> Result<
    (Seq<char>, Seq<char>),
    Failure,
> {
    match r {
        Ok(entry) => Ok((entry.0@, entry.1@)),
        Err(e) => Err(e@),
    }
}

/// The variable that `line` sets, given the groups that the form of such a
/// line has matched in it.
pub fn env_entry(line: &str, groups: Option<&Vec<Option<String>>>) -> (r: Result<
    (String, String),
    Error,
>)
    ensures
        entry_view(r) == entry_given(line@, groups_view(groups)),
{
    match groups {
        Some(groups) => {
            if groups.len() != 3 {
                return Err(Error::BadLine(line.to_owned()));
            }
            match (&groups[1], &groups[2]) {
                (Some(key), Some(value)) => {
                    let chars = chars_of(value.as_str());
                    let n = chars.len();
                    let value = if n >= 2 && chars[0] == '"' && chars[n - 1] == '"' {
                        string_of(&chars, 1, n - 1)
                    } else {
                        assert(chars@.subrange(0, n as int) =~= chars@);
                        string_of(&chars, 0, n)
                    };
                    Ok((key.clone(), value))
                },
                _ => Err(Error::BadLine(line.to_owned())),
            }
        },
        None => Err(Error::BadLine(line.to_owned())),
    }
}

/// `entries`, followed by what `rest` holds.
pub open spec fn entries_then(
    entries: Seq<(Seq<char>, Seq<char>)>,
    rest: Result<Seq<(Seq<char>, Seq<char>)>, Failure>,
) -> Result<Seq<(Seq<char>, Seq<char>)>, Failure> {
    match rest {
        Ok(more) => Ok(entries + more),
        Err(failure) => Err(failure),
    }
}

/// The variables that `lines[i..]` set, or the failure of the first line
/// that sets none.
pub open spec fn entries_from(lines: Seq<Seq<char>>, i: int) -> Result<
    Seq<(Seq<char>, Seq<char>)>,
    Failure,
>
    decreases lines.len() - i,
{
    if i < 0 || i >= lines.len() {
        Ok(Seq::empty())
    } else {
        match entry_given(lines[i], captures_of(ENV_LINE_PATTERN@, lines[i])) {
            Ok(entry) => entries_then(seq![entry], entries_from(lines, i + 1)),
            Err(failure) => Err(failure),
        }
    }
}

/// The variables that a file of lines of the form `NAME=value` sets, in the
/// order of the lines.
pub open spec fn env_file_of(contents: Seq<char>) -> Result<Seq<(Seq<char>, Seq<char>)>, Failure> {
    entries_from(lines_of(contents), 0)
}

/// The mathematical value of the result of [`parse_env_file`].
pub open spec fn entries_view(r: Result<Vec<(String, String)>, Error>) -> Result<
    Seq<(Seq<char>, Seq<char>)>,
    Failure,
> {
    match r {
        Ok(entries) => Ok(pairs(entries@)),
        Err(e) => Err(e@),
    }
}

/// Reads a file of lines of the form `NAME=value` from its contents. The
/// variables come in the order of the lines; where a name is set twice, the
/// later line counts (see [`last_value`]).
pub fn parse_env_file(contents: &str) -> (r: Result<Vec<(String, String)>, Error>)
    ensures
        entries_view(r) == env_file_of(contents@),
{
    let all = lines(contents);
    let mut entries: Vec<(String, String)> = Vec::new();
    let mut i: usize = 0;
    while i < all.len()
        invariant
            i <= all.len(),
            texts(all@) == lines_of(contents@),
            env_file_of(contents@) == entries_then(
                pairs(entries@),
                entries_from(texts(all@), i as int),
            ),
        decreases all.len() - i,
    {
        let line = all[i].as_str();
        let found = captures(ENV_LINE_PATTERN, line);
        let ghost before = pairs(entries@);
        match env_entry(line, found.as_ref()) {
            Ok(entry) => {
                entries.push(entry);
                proof {
                    let added = (entry.0@, entry.1@);
                    assert(pairs(entries@) =~= before + seq![added]);
                    match entries_from(texts(all@), i + 1) {
                        Ok(more) => {
                            assert((before + seq![added]) + more =~= before + (seq![added]
                                + more));
                        },
                        Err(_) => {},
                    }
                }
            },
            Err(e) => {
                return Err(e);
            },
        }
        i += 1;
    }
    assert(pairs(entries@) + Seq::<(Seq<char>, Seq<char>)>::empty() =~= pairs(entries@));
    Ok(entries)
}

/// The value of the last of `entries[..n]` that is named `key`.
pub open spec fn last_value_before(entries: Seq<(Seq<char>, Seq<char>)>, key: Seq<char>, n: int) -> Option<
    Seq<char>,
>
    decreases n,
{
    if n <= 0 || n > entries.len() {
        None
    } else if entries[n - 1].0 == key {
        Some(entries[n - 1].1)
    } else {
        last_value_before(entries, key, n - 1)
    }
}

/// The value that the entries give to `key`: that of the last entry named
/// `key`, since a later line replaces an earlier one.
pub open spec fn last_value_of(entries: Seq<(Seq<char>, Seq<char>)>, key: Seq<char>) -> Option<
    Seq<char>,
> {
    last_value_before(entries, key, entries.len() as int)
}

/// The value that the entries give to `key`.
pub fn last_value<'a>(entries: &'a Vec<(String, String)>, key: &str) -> (r: Option<&'a String>)
    ensures
        text_of_ref(r) == last_value_of(pairs(entries@), key@),
{
    let mut n: usize = entries.len();
    while n > 0
        invariant
            n <= entries.len(),
            last_value_of(pairs(entries@), key@) == last_value_before(
                pairs(entries@),
                key@,
                n as int,
            ),
        decreases n,
    {
        if same_text(entries[n - 1].0.as_str(), key) {
            return Some(&entries[n - 1].1);
        }
        n -= 1;
    }
    None
}

/// The major number of a version, given the groups that the form of a
/// version has matched in it: the first group holds the major number.
pub open spec fn major_given(version_id: Seq<char>, groups: Option<Seq<Option<Seq<char>>>>) -> Result<
    u64,
    Failure,
> {
    match groups {
        Some(groups) => if groups.len() == 2 && groups[1] is Some {
            number_of(groups[1]->0)
        } else {
            Err(Failure::BadVersionId(version_id))
        },
        None => Err(Failure::BadVersionId(version_id)),
    }
}

/// The major number of a version, given the groups that the form of a
/// version has matched in it.
pub fn version_major(version_id: &str, groups: Option<&Vec<Option<String>>>) -> (r: Result<
    u64,
    Error,
>)
    ensures
        plain_view(r) == major_given(version_id@, groups_view(groups)),
{
    match groups {
        Some(groups) => {
            if groups.len() != 2 {
                return Err(Error::BadVersionId(version_id.to_owned()));
            }
            match &groups[1] {
                Some(major) => parse_u64(major.as_str()),
                None => Err(Error::BadVersionId(version_id.to_owned())),
            }
        },
        None => Err(Error::BadVersionId(version_id.to_owned())),
    }
}

/// Whether the operating system that `os_release` describes is Ubuntu 24.04
/// or later, as far as its version tells: whether its `VERSION_ID` has a
/// major number of at least 24. A system without such a description is
/// none.
pub open spec fn noble_of(os_release: Option<Seq<char>>) -> Result<bool, Failure> {
    match os_release {
        None => Ok(false),
        Some(contents) => match env_file_of(contents) {
            Err(failure) => Err(failure),
            Ok(entries) => match last_value_of(entries, "VERSION_ID"@) {
                None => Err(Failure::MissingVersionId),
                Some(version_id) => match major_given(
                    version_id,
                    captures_of(VERSION_ID_PATTERN@, version_id),
                ) {
                    Ok(major) => Ok(major >= NOBLE_NUMBAT),
                    Err(failure) => Err(failure),
                },
            },
        },
    }
}

/// Whether the operating system is Ubuntu 24.04 or later. `os_release` holds
/// the contents of `/etc/os-release`, and is missing where there is no such
/// file.
pub fn noble_numbat_or_later(os_release: Option<&str>) -> (r: Result<bool, Error>)
    ensures
        plain_view(r) == noble_of(text_of_str(os_release)),
{
    let contents = match os_release {
        Some(contents) => contents,
        None => {
            return Ok(false);
        },
    };
    let entries = match parse_env_file(contents) {
        Ok(entries) => entries,
        Err(e) => {
            return Err(e);
        },
    };
    let version_id = match last_value(&entries, "VERSION_ID") {
        Some(version_id) => version_id,
        None => {
            return Err(Error::MissingVersionId);
        },
    };
    let found = captures(VERSION_ID_PATTERN, version_id.as_str());
    match version_major(version_id.as_str(), found.as_ref()) {
        Ok(major) => Ok(major >= NOBLE_NUMBAT),
        Err(e) => Err(e),
    }
}

/// The linker that the build tool's configuration names for every target:
/// the string `linker` of the table `cfg(all())` of the table `target`.
pub open spec fn linker_in(contents: Seq<char>) -> Result<Seq<char>, Failure> {
    match toml_document(contents) {
        Err(message) => Err(Failure::InvalidConfig(message)),
        Ok(document) => match entry_in(
            entry_in(entry_of(document, "target"@), "cfg(all())"@),
            "linker"@,
        ) {
            Some(Item::Text(linker)) => Ok(linker@),
            _ => Err(Failure::UnexpectedConfig),
        },
    }
}

/// The mathematical value of a result that holds a string.
pub open spec fn string_view(r: Result<String, Error>) -> Result<Seq<char>, Failure> {
    match r {
        Ok(s) => Ok(s@),
        Err(e) => Err(e@),
    }
}

/// The linker that the build tool's configuration names for every target.
/// `contents` holds the contents of the configuration file.
pub fn configured_linker(contents: &str) -> (r: Result<String, Error>)
    ensures
        string_view(r) == linker_in(contents@),
{
    let document = match parse(contents) {
        Ok(document) => document,
        Err(message) => {
            return Err(Error::InvalidConfig(message));
        },
    };
    let target = match document.get("target") {
        Some(target) => target,
        None => {
            return Err(Error::UnexpectedConfig);
        },
    };
    let every = match target.get("cfg(all())") {
        Some(every) => every,
        None => {
            return Err(Error::UnexpectedConfig);
        },
    };
    match every.get("linker") {
        Some(Item::Text(linker)) => Ok(linker.clone()),
        _ => Err(Error::UnexpectedConfig),
    }
}

/// Whether the linker replacement is in use. It is if it is the configured
/// linker, unless the operating system asks for a profile that is not
/// installed, which is a failure.
pub fn enabled(is_configured_linker: bool, noble_numbat: bool, profile_exists: bool) -> (r: Result<
    bool,
    Error,
>)
    ensures
        plain_view(r) == if !is_configured_linker {
            Ok::<bool, Failure>(false)
        } else if noble_numbat && !profile_exists {
            Err::<bool, Failure>(Failure::MissingProfile)
        } else {
            Ok::<bool, Failure>(true)
        },
{
    if !is_configured_linker {
        return Ok(false);
    }
    if noble_numbat && !profile_exists {
        return Err(Error::MissingProfile);
    }
    Ok(true)
}

/// What the help text reports of the linker replacement.
#[derive(Debug, PartialEq, Eq)]
pub enum Status {
    /// It is in use.
    Enabled,
    /// It is not in use.
    Disabled,
    /// Whether it is in use could not be found out; the text says why.
    Unknown(String),
}

/// What the program does, in one line.
pub const ABOUT: &'static str = "A linker replacement to help protect against malicious build scripts";

/// How to switch the linker replacement on.
pub const HOW_TO_ENABLE: &'static str = "

To enable build-wrap, create a `.cargo/config.toml` file in your home directory with the following contents:

```
[target.'cfg(all())']
linker = \"build-wrap\"
```";

/// What else is to be installed on Ubuntu 24.04 and later.
pub const HOW_TO_INSTALL_PROFILE: &'static str = "

And install the Bubblewrap AppArmor profile with the following commands:

```
sudo apt install apparmor-profiles
sudo cp /usr/share/apparmor/extra-profiles/bwrap-userns-restrict /etc/apparmor.d
sudo systemctl reload apparmor
```";

/// The word for a linker replacement that is in use: in green on a
/// terminal.
pub open spec fn enabled_word(terminal: bool) -> Seq<char> {
    if terminal {
        "\x1b[1;32mENABLED\x1b[0m"@
    } else {
        "ENABLED"@
    }
}

/// The word for a linker replacement that is not in use: in red on a
/// terminal.
pub open spec fn disabled_word(terminal: bool) -> Seq<char> {
    if terminal {
        "\x1b[1;31mDISABLED\x1b[0m"@
    } else {
        "DISABLED"@
    }
}

/// The first lines of the help text: the program's name and version, and
/// what it does.
pub open spec fn heading(name: Seq<char>, version: Seq<char>) -> Seq<char> {
    name + " "@ + version + "\n\n"@ + ABOUT@ + "\n\n"@
}

/// The help text. It names the program, says whether it is in use, and
/// where it is not, how to switch it on; `profile_hint` says whether that
/// includes the profile for the sandbox program.
pub open spec fn help_of(
    name: Seq<char>,
    version: Seq<char>,
    status: Status,
    terminal: bool,
    profile_hint: bool,
) -> Seq<char> {
    let hint = if profile_hint {
        HOW_TO_INSTALL_PROFILE@
    } else {
        Seq::empty()
    };
    match status {
        Status::Enabled => heading(name, version) + "build-wrap is "@ + enabled_word(terminal)
            + "\n"@,
        Status::Disabled => heading(name, version) + "build-wrap is "@ + disabled_word(terminal)
            + HOW_TO_ENABLE@ + hint + "\n"@,
        Status::Unknown(why) => heading(name, version) + "build-wrap is "@ + disabled_word(
            terminal,
        ) + ": "@ + why@ + HOW_TO_ENABLE@ + hint + "\n"@,
    }
}

/// Writes the help text. `terminal` says whether it goes to a terminal, and
/// `profile_hint` whether to mention the profile for the sandbox program.
pub fn help(name: &str, version: &str, status: &Status, terminal: bool, profile_hint: bool) -> (text:
    String)
    ensures
        text@ == help_of(name@, version@, *status, terminal, profile_hint),
{
    let mut text = String::from_str(name);
    text.append(" ");
    text.append(version);
    text.append("\n\n");
    text.append(ABOUT);
    text.append("\n\n");
    text.append("build-wrap is ");
    match status {
        Status::Enabled => {
            text.append(
                if terminal {
                    "\x1b[1;32mENABLED\x1b[0m"
                } else {
                    "ENABLED"
                },
            );
        },
        _ => {
            text.append(
                if terminal {
                    "\x1b[1;31mDISABLED\x1b[0m"
                } else {
                    "DISABLED"
                },
            );
            match status {
                Status::Unknown(why) => {
                    text.append(": ");
                    text.append(why.as_str());
                },
                _ => {},
            }
            text.append(HOW_TO_ENABLE);
            if profile_hint {
                text.append(HOW_TO_INSTALL_PROFILE);
            } else {
                assert(text@ + Seq::<char>::empty() =~= text@);
            }
        },
    }
    text.append("\n");
    text
}

/// What the help text reports, given what was found out: the linker
/// replacement is in use, or it is not, or finding out has failed.
pub fn status_of(found: Result<bool, String>) -> (status: Status)
    ensures
        status == match found {
            Ok(true) => Status::Enabled,
            Ok(false) => Status::Disabled,
            Err(why) => Status::Unknown(why),
        },
{
    match found {
        Ok(true) => Status::Enabled,
        Ok(false) => Status::Disabled,
        Err(why) => Status::Unknown(why),
    }
}

} // verus!
