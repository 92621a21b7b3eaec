//! The extractors, one for each kind of message: each reads the remainder of a
//! payload and records the fields it finds.
//!
//! A remainder is cut by searching for literal delimiters only. An extractor
//! accepts every text; a field whose delimiter is missing is left unset.

use crate::fields::FieldMap;
use crate::text::{
    after, before, between, contains_text, has_text, is_text, lemma_before_after, lowercase,
    lowercase_of, nth_piece, piece, rest_after, same_text, skip_pieces, split_first, strip,
    text_between, text_of, trim, trimmed, value_after, value_behind, without,
};
use vstd::prelude::*;
use vstd::string::*;

verus! {

/// A mapping from field names to field values, as contracts see it.
pub type Fields = Map<Seq<char>, Seq<char>>;

/// `h` with `key` bound to `value`, where there is a value.
pub open spec fn set_if(h: Fields, key: Seq<char>, value: Option<Seq<char>>) -> Fields {
    match value {
        Some(v) => h.insert(key, v),
        None => h,
    }
}

/// The fields of a node's start-up report `<version>:<builddate>@<ip>`.
///
/// `version` is the text before the first `:`. Behind that `:`, `builddate`
/// is the text before the first `@` and `ip_addr` the text after it.
pub open spec fn nodeup_fields(s: Seq<char>, h: Fields) -> Fields {
    let h1 = h.insert("version"@, before(s, ':'));
    if s.contains(':') {
        let r = after(s, ':');
        set_if(h1.insert("builddate"@, before(r, '@')), "ip_addr"@, value_after(Some(r), '@'))
    } else {
        h1
    }
}

/// The fields of an upload report, given its command and the text behind
/// the first `:`, if there is one.
///
/// `command` is always recorded. For the command `push`, `http_code` is the
/// text after the first space of the trimmed text behind the `:`.
pub open spec fn command_fields(command: Seq<char>, rest: Option<Seq<char>>, h: Fields) -> Fields {
    let h1 = h.insert("command"@, command);
    if command == "push"@ {
        match rest {
            Some(r) => set_if(h1, "http_code"@, value_after(Some(trim(r)), ' ')),
            None => h1,
        }
    } else {
        h1
    }
}

/// The fields of an upload report `<command>: <word> <code>`. The command is
/// the text before the first `:`, trimmed and in lowercase.
pub open spec fn aircasting_fields(s: Seq<char>, h: Fields) -> Fields {
    command_fields(lowercase_of(trim(before(s, ':'))), value_after(Some(s), ':'), h)
}

/// The fields of a measurement report
/// `<datetime> PM2.5: <value> UUID:<uuid> sent:<flag>`.
///
/// Nothing is recorded unless the text holds `PM2.5`. The text is cut at its
/// first four spaces. `datetime` is the first piece, trimmed; `pm2.5` the
/// third piece; `UUID` the text after the first `:` of the fourth piece;
/// `sent` the text after the first `:` of all that follows the fourth space.
pub open spec fn ntp_fields(s: Seq<char>, h: Fields) -> Fields {
    if contains_text(s, "PM2.5"@) {
        let h1 = h.insert("datetime"@, trim(before(s, ' ')));
        let h2 = set_if(h1, "pm2.5"@, piece(s, ' ', 2));
        let h3 = set_if(h2, "UUID"@, value_after(piece(s, ' ', 3), ':'));
        set_if(h3, "sent"@, value_after(rest_after(s, ' ', 4), ':'))
    } else {
        h
    }
}

/// The fields of a deep-sleep report, of which `state` is the text behind
/// the action word:
/// `nextInterval=<n>; executionTime=<n> ; slowDownFactor=<n>; deepSleep(<n>)`.
///
/// The trimmed state is cut at its first four `;`. `slowdownfactor` is the
/// text after the first `=` of the third piece; `deepsleepduration` the text
/// between the first `(` of the fourth piece and the first `)` behind it.
/// `action` is always recorded.
pub open spec fn deepsleep_fields(state: Option<Seq<char>>, h: Fields) -> Fields {
    let h2 = match state {
        Some(r) => {
            let t = trim(r);
            let h1 = set_if(h, "slowdownfactor"@, value_after(piece(t, ';', 2), '='));
            set_if(h1, "deepsleepduration"@, between(piece(t, ';', 3), '(', ')'))
        },
        None => h,
    };
    h2.insert("action"@, "deepsleep"@)
}

/// What one word of a waiting report adds: a word that holds
/// `sleepWakeCycles=` gives `sleepwakecycles`, any other word that holds
/// `ntpErrors=` gives `ntperrors`; the value is the text after the first `=`
/// of the word.
pub open spec fn note_word(w: Seq<char>, h: Fields) -> Fields {
    if contains_text(w, "sleepWakeCycles="@) {
        set_if(h, "sleepwakecycles"@, value_after(Some(w), '='))
    } else if contains_text(w, "ntpErrors="@) {
        set_if(h, "ntperrors"@, value_after(Some(w), '='))
    } else {
        h
    }
}

/// What the words of `s`, cut at each space, add one after the other.
pub open spec fn note_words(s: Seq<char>, h: Fields) -> Fields
    decreases s.len(),
{
    let h1 = note_word(before(s, ' '), h);
    if s.contains(' ') {
        proof {
            lemma_before_after(s, ' ');
        }
        note_words(after(s, ' '), h1)
    } else {
        h1
    }
}

/// The fields of a report that the node waits for its first time
/// synchronisation, of which `state` is the text behind the action word.
/// `action` is always recorded, as `waitntp`.
pub open spec fn waitntp_fields(state: Option<Seq<char>>, h: Fields) -> Fields {
    let h1 = match state {
        Some(r) => note_words(trim(r), h),
        None => h,
    };
    h1.insert("action"@, "waitntp"@)
}

/// The fields of a loop report, given its first word in lowercase and the
/// text behind the first space, if there is one. The word, with every `:`
/// taken out, selects the sub-case: `deepsleep` or `no`. Any other word
/// records nothing.
pub open spec fn action_fields(word: Seq<char>, state: Option<Seq<char>>, h: Fields) -> Fields {
    if without(word, ':') == "deepsleep"@ {
        deepsleep_fields(state, h)
    } else if without(word, ':') == "no"@ {
        waitntp_fields(state, h)
    } else {
        h
    }
}

/// The fields of a loop report. Its first word is the text before the first
/// space, trimmed and in lowercase.
pub open spec fn loop_fields(s: Seq<char>, h: Fields) -> Fields {
    action_fields(lowercase_of(trim(before(s, ' '))), value_after(Some(s), ' '), h)
}

/// Whether a text holds one of the two marks of another report that nodes
/// send under the same identifier.
pub open spec fn ntpsync_rejected(s: Seq<char>) -> bool {
    contains_text(s, " -- "@) || contains_text(s, " => "@)
}

/// The field of a time-synchronisation report: the whole text, trimmed, as
/// `ntpdate`, unless the text is rejected.
pub open spec fn ntpsync_fields(s: Seq<char>, h: Fields) -> Fields {
    if ntpsync_rejected(s) {
        h
    } else {
        h.insert("ntpdate"@, trim(s))
    }
}

/// The field of a session report: the whole text, trimmed, as `UUID`, if the
/// text holds a `-`.
pub open spec fn session_fields(s: Seq<char>, h: Fields) -> Fields {
    if s.contains('-') {
        h.insert("UUID"@, trim(s))
    } else {
        h
    }
}

/// The words of a waiting report bind no name but `sleepwakecycles` and
/// `ntperrors`.
pub proof fn lemma_note_words_names(s: Seq<char>, h: Fields, name: Seq<char>)
    requires
        note_words(s, h).contains_key(name),
    ensures
        h.contains_key(name) || name == "sleepwakecycles"@ || name == "ntperrors"@,
    decreases s.len(),
{
    if s.contains(' ') {
        lemma_before_after(s, ' ');
        lemma_note_words_names(after(s, ' '), note_word(before(s, ' '), h), name);
    }
}

/// An upload report has an `http_code` only where its command is `push`.
pub proof fn lemma_http_code_needs_push(command: Seq<char>, rest: Option<Seq<char>>)
    ensures
        command_fields(command, rest, Map::empty()).contains_key("http_code"@) ==> command
            == "push"@,
{
    reveal_strlit("command");
    reveal_strlit("http_code");
    assert("command"@.len() != "http_code"@.len());
}

/// A loop report records nothing at all, or the action `deepsleep` or
/// `waitntp`.
pub proof fn lemma_loop_action(word: Seq<char>, state: Option<Seq<char>>)
    ensures
        ({
            let fields = action_fields(word, state, Map::empty());
            fields == Map::<Seq<char>, Seq<char>>::empty() || (fields.contains_key("action"@) && (
            fields["action"@] == "deepsleep"@ || fields["action"@] == "waitntp"@))
        }),
{
}

/// Binds `key` to `value` where there is a value.
fn put_if(h: &mut FieldMap, key: &str, value: Option<&str>)
    ensures
        final(h)@ == set_if(old(h)@, key@, text_of(value)),
{
    match value {
        Some(v) => {
            h.insert(key.to_owned(), v.to_owned());
        },
        None => {},
    }
}

/// Reads the remainder of a start-up report into `h`.
pub fn parse_nodeup(s: &str, h: &mut FieldMap)
    ensures
        final(h)@ == nodeup_fields(s@, old(h)@),
{
    let (version, rest) = split_first(s, ':');
    h.insert("version".to_owned(), version.to_owned());
    match rest {
        Some(r) => {
            let (builddate, ip_addr) = split_first(r, '@');
            h.insert("builddate".to_owned(), builddate.to_owned());
            put_if(h, "ip_addr", ip_addr);
        },
        None => {},
    }
}

/// Records the fields of an upload report, given its command and the text
/// behind the first `:`.
pub fn record_command(command: String, rest: Option<&str>, h: &mut FieldMap)
    ensures
        final(h)@ == command_fields(command@, text_of(rest), old(h)@),
{
    let is_push = same_text(command.as_str(), "push");
    h.insert("command".to_owned(), command);
    if is_push {
        match rest {
            Some(r) => {
                put_if(h, "http_code", split_first(trimmed(r), ' ').1);
            },
            None => {},
        }
    }
}

/// Reads the remainder of an upload report into `h`.
pub fn parse_aircasting(s: &str, h: &mut FieldMap)
    ensures
        final(h)@ == aircasting_fields(s@, old(h)@),
{
    let (head, rest) = split_first(s, ':');
    record_command(lowercase(trimmed(head)), rest, h);
}

/// Reads the remainder of a measurement report into `h`.
pub fn parse_ntp(s: &str, h: &mut FieldMap)
    ensures
        final(h)@ == ntp_fields(s@, old(h)@),
{
    if has_text(s, "PM2.5") {
        let (date, _) = split_first(s, ' ');
        h.insert("datetime".to_owned(), trimmed(date).to_owned());
        put_if(h, "pm2.5", nth_piece(s, ' ', 2));
        put_if(h, "UUID", value_behind(nth_piece(s, ' ', 3), ':'));
        put_if(h, "sent", value_behind(skip_pieces(s, ' ', 4), ':'));
    }
}

/// Records what one word of a waiting report adds to `h`.
fn parse_word(w: &str, h: &mut FieldMap)
    ensures
        final(h)@ == note_word(w@, old(h)@),
{
    if has_text(w, "sleepWakeCycles=") {
        put_if(h, "sleepwakecycles", split_first(w, '=').1);
    } else if has_text(w, "ntpErrors=") {
        put_if(h, "ntperrors", split_first(w, '=').1);
    }
}

/// Records what the words of `s` add to `h`, one after the other.
fn parse_words(s: &str, h: &mut FieldMap)
    ensures
        final(h)@ == note_words(s@, old(h)@),
{
    let mut cur: &str = s;
    let mut more: bool = true;
    while more
        invariant
            more ==> note_words(cur@, h@) == note_words(s@, old(h)@),
            !more ==> h@ == note_words(s@, old(h)@),
        decreases
                (if more {
                    cur@.len() + 1
                } else {
                    0
                }),
    {
        let (w, next) = split_first(cur, ' ');
        parse_word(w, h);
        match next {
            Some(t) => {
                proof {
                    lemma_before_after(cur@, ' ');
                }
                cur = t;
            },
            None => {
                more = false;
            },
        }
    }
}

/// Records the fields of a loop report, given its first word in lowercase
/// and the text behind the first space.
pub fn record_action(word: &str, state: Option<&str>, h: &mut FieldMap)
    ensures
        final(h)@ == action_fields(word@, text_of(state), old(h)@),
{
    let action = strip(word, ':');
    if is_text(&action, "deepsleep") {
        match state {
            Some(r) => {
                let t = trimmed(r);
                put_if(h, "slowdownfactor", value_behind(nth_piece(t, ';', 2), '='));
                put_if(h, "deepsleepduration", text_between(nth_piece(t, ';', 3), '(', ')'));
            },
            None => {},
        }
        h.insert("action".to_owned(), "deepsleep".to_owned());
    } else if is_text(&action, "no") {
        match state {
            Some(r) => {
                parse_words(trimmed(r), h);
            },
            None => {},
        }
        h.insert("action".to_owned(), "waitntp".to_owned());
    }
}

/// Reads the remainder of a loop report into `h`.
pub fn parse_loop(s: &str, h: &mut FieldMap)
    ensures
        final(h)@ == loop_fields(s@, old(h)@),
{
    let (word, state) = split_first(s, ' ');
    let lowered = lowercase(trimmed(word));
    record_action(lowered.as_str(), state, h);
}

/// Reads the remainder of a time-synchronisation report into `h`.
pub fn parse_ntpsync(s: &str, h: &mut FieldMap)
    ensures
        final(h)@ == ntpsync_fields(s@, old(h)@),
        ntpsync_rejected(s@) ==> final(h)@ == old(h)@,
{
    if !has_text(s, " -- ") && !has_text(s, " => ") {
        h.insert("ntpdate".to_owned(), trimmed(s).to_owned());
    }
}

/// Reads the remainder of a session report into `h`.
pub fn parse_session(s: &str, h: &mut FieldMap)
    ensures
        final(h)@ == session_fields(s@, old(h)@),
{
    let (_, dash) = split_first(s, '-');
    if dash.is_some() {
        h.insert("UUID".to_owned(), trimmed(s).to_owned());
    }
}

} // verus!
