//! Turning the model's raw reply into what is shown and spoken.
use vstd::prelude::*;
use crate::protocol::Emotion;

verus! {

/// Marker the model appends when it wants the session to end.
pub const SLEEP_MARKER: &'static str = "[SLEEP]";

/// Pattern of the characters removed from a reply before it is shown and spoken.
pub const EMOJI_PATTERN: &'static str = "\\p{Emoji_Presentation}";

/// Whether `c` has the Unicode `White_Space` property.
pub open spec fn white_space(c: char) -> bool {
    ('\u{9}' <= c && c <= '\u{d}') || c == ' ' || c == '\u{85}' || c == '\u{a0}' || c == '\u{1680}'
        || ('\u{2000}' <= c && c <= '\u{200a}') || c == '\u{2028}' || c == '\u{2029}' || c == '\u{202f}'
        || c == '\u{205f}' || c == '\u{3000}'
}

/// `text` with every match of the regular expression `pattern` removed.
pub uninterp spec fn pattern_removed(pattern: Seq<char>, text: Seq<char>) -> Seq<char>;

/// Whether `c` is white space.
pub fn is_space(c: char) -> (r: bool)
    ensures
        r == white_space(c),
{
    ('\u{9}' <= c && c <= '\u{d}') || c == ' ' || c == '\u{85}' || c == '\u{a0}' || c == '\u{1680}'
        || ('\u{2000}' <= c && c <= '\u{200a}') || c == '\u{2028}' || c == '\u{2029}' || c == '\u{202f}'
        || c == '\u{205f}' || c == '\u{3000}'
}

/// Relies on `String::push`: appends one character.
#[verifier::external_body]
pub(crate) fn push_char(s: &mut String, c: char)
    ensures
        final(s)@ == old(s)@.push(c),
{
    s.push(c)
}

/// Relies on `regex::Regex::new` and `Regex::replace_all` with an empty replacement:
/// every match of `pattern` in `text` is removed. `None` when `pattern` does not compile;
/// the emoji pattern always compiles, the crate's Unicode tables being built in.
#[verifier::external_body]
fn remove_matches(pattern: &str, text: &str) -> (r: Option<String>)
    ensures
        r matches Some(s) ==> s@ == pattern_removed(pattern@, text@),
        pattern@ == EMOJI_PATTERN@ ==> r is Some,
{
    match regex::Regex::new(pattern) {
        Ok(re) => Some(re.replace_all(text, "").into_owned()),
        Err(_) => None,
    }
}

/// `s` without its leading white space.
pub open spec fn trim_start(s: Seq<char>) -> Seq<char>
    decreases s.len(),
{
    if s.len() > 0 && white_space(s[0]) {
        trim_start(s.drop_first())
    } else {
        s
    }
}

/// `s` without its trailing white space.
pub open spec fn trim_end(s: Seq<char>) -> Seq<char>
    decreases s.len(),
{
    if s.len() > 0 && white_space(s.last()) {
        trim_end(s.drop_last())
    } else {
        s
    }
}

/// `s` without leading and trailing white space.
pub open spec fn trimmed(s: Seq<char>) -> Seq<char> {
    trim_end(trim_start(s))
}

/// Whether `m` occurs in `s` (scanning from the left).
pub open spec fn mentions(s: Seq<char>, m: Seq<char>) -> bool
    decreases s.len(),
{
    if s.len() < m.len() {
        false
    } else if s.subrange(0, m.len() as int) == m {
        true
    } else if s.len() == 0 {
        false
    } else {
        mentions(s.drop_first(), m)
    }
}

/// `s` with the occurrences of a non-empty `m` removed, left to right.
pub open spec fn without(s: Seq<char>, m: Seq<char>) -> Seq<char>
    decreases s.len(),
{
    if m.len() == 0 || s.len() < m.len() {
        s
    } else if s.subrange(0, m.len() as int) == m {
        without(s.subrange(m.len() as int, s.len() as int), m)
    } else {
        seq![s[0]] + without(s.drop_first(), m)
    }
}

/// The coarse emotion of a text, from the characters in it.
pub open spec fn emotion_in(s: Seq<char>) -> Option<Emotion> {
    if s.contains('😂') || s.contains('😊') || s.contains('哈') || s.contains('嘻') {
        Some(Emotion::Happy)
    } else if s.contains('😭') || s.contains('😢') || s.contains('难') {
        Some(Emotion::Sad)
    } else if s.contains('😡') || s.contains('怒') {
        Some(Emotion::Angry)
    } else {
        None
    }
}

/// The characters of a string.
pub fn chars_of(s: &str) -> (r: Vec<char>)
    ensures
        r@ == s@,
{
    let n = s.unicode_len();
    let mut r: Vec<char> = Vec::new();
    let mut i: usize = 0;
    while i < n
        invariant
            n == s@.len(),
            i <= n,
            r@ == s@.subrange(0, i as int),
        decreases n - i,
    {
        r.push(s.get_char(i));
        assert(s@.subrange(0, i + 1) == s@.subrange(0, i as int).push(s@[i as int]));
        i = i + 1;
    }
    assert(s@.subrange(0, n as int) == s@);
    r
}

/// A string of the characters `cs[from..to]`.
pub fn string_of(cs: &Vec<char>, from: usize, to: usize) -> (r: String)
    requires
        from <= to <= cs@.len(),
    ensures
        r@ == cs@.subrange(from as int, to as int),
{
    let mut r = String::new();
    let mut i: usize = from;
    while i < to
        invariant
            from <= i <= to,
            to <= cs@.len(),
            r@ == cs@.subrange(from as int, i as int),
        decreases to - i,
    {
        push_char(&mut r, cs[i]);
        assert(cs@.subrange(from as int, i + 1) == cs@.subrange(from as int, i as int).push(cs@[i as int]));
        i = i + 1;
    }
    r
}

/// Whether `c` occurs in `cs`.
fn has_char(cs: &Vec<char>, c: char) -> (r: bool)
    ensures
        r == cs@.contains(c),
{
    let mut i: usize = 0;
    while i < cs.len()
        invariant
            i <= cs@.len(),
            forall|k: int| 0 <= k < i ==> cs@[k] != c,
        decreases cs.len() - i,
    {
        if cs[i] == c {
            return true;
        }
        i = i + 1;
    }
    false
}

/// The coarse emotion of a text.
pub fn emotion_of(text: &str) -> (r: Option<Emotion>)
    ensures
        r == emotion_in(text@),
{
    let cs = chars_of(text);
    if has_char(&cs, '😂') || has_char(&cs, '😊') || has_char(&cs, '哈') || has_char(&cs, '嘻') {
        Some(Emotion::Happy)
    } else if has_char(&cs, '😭') || has_char(&cs, '😢') || has_char(&cs, '难') {
        Some(Emotion::Sad)
    } else if has_char(&cs, '😡') || has_char(&cs, '怒') {
        Some(Emotion::Angry)
    } else {
        None
    }
}

proof fn lemma_trim_start(s: Seq<char>, i: int)
    requires
        0 <= i <= s.len(),
        forall|k: int| 0 <= k < i ==> white_space(#[trigger] s[k]),
        i == s.len() || !white_space(s[i]),
    ensures
        trim_start(s) == s.subrange(i, s.len() as int),
    decreases i,
{
    if i == 0 {
        assert(s.subrange(0, s.len() as int) == s);
    } else {
        assert(white_space(s[0]));
        let t = s.drop_first();
        assert forall|k: int| 0 <= k < i - 1 implies white_space(#[trigger] t[k]) by {
            assert(t[k] == s[k + 1]);
        }
        lemma_trim_start(t, i - 1);
        assert(t.subrange(i - 1, t.len() as int) == s.subrange(i, s.len() as int));
    }
}

proof fn lemma_trim_end(s: Seq<char>, j: int)
    requires
        0 <= j <= s.len(),
        forall|k: int| j <= k < s.len() ==> white_space(#[trigger] s[k]),
        j == 0 || !white_space(s[j - 1]),
    ensures
        trim_end(s) == s.subrange(0, j),
    decreases s.len() - j,
{
    if j == s.len() {
        assert(s.subrange(0, s.len() as int) == s);
    } else {
        assert(white_space(s.last()));
        let t = s.drop_last();
        lemma_trim_end(t, j);
        assert(t.subrange(0, j) == s.subrange(0, j));
    }
}

/// `text` without leading and trailing white space.
pub fn trim(text: &str) -> (r: String)
    ensures
        r@ == trimmed(text@),
{
    let cs = chars_of(text);
    let n = cs.len();
    let mut i: usize = 0;
    while i < n && is_space(cs[i])
        invariant
            n == cs@.len(),
            i <= n,
            forall|k: int| 0 <= k < i ==> white_space(#[trigger] cs@[k]),
        decreases n - i,
    {
        i = i + 1;
    }
    proof {
        lemma_trim_start(cs@, i as int);
    }
    let ghost t = cs@.subrange(i as int, n as int);
    let mut j: usize = n;
    while j > i && is_space(cs[j - 1])
        invariant
            n == cs@.len(),
            i <= j <= n,
            t == cs@.subrange(i as int, n as int),
            forall|k: int| j <= k < n ==> white_space(#[trigger] cs@[k]),
        decreases j,
    {
        j = j - 1;
    }
    proof {
        assert forall|k: int| j - i <= k < t.len() implies white_space(#[trigger] t[k]) by {
            assert(t[k] == cs@[k + i]);
        }
        if j > i {
            assert(t[j - i - 1] == cs@[j - 1]);
        }
        lemma_trim_end(t, j - i);
        assert(t.subrange(0, j - i) == cs@.subrange(i as int, j as int));
    }
    string_of(&cs, i, j)
}

/// Whether `m` occurs in `cs` at `i`.
fn occurs_at(cs: &Vec<char>, i: usize, m: &Vec<char>) -> (r: bool)
    requires
        i <= cs@.len(),
    ensures
        r == (i + m@.len() <= cs@.len() && cs@.subrange(i as int, i + m@.len()) == m@),
{
    if m.len() > cs.len() - i {
        return false;
    }
    let n = cs.len();
    let mut k: usize = 0;
    while k < m.len()
        invariant
            n == cs@.len(),
            i + m@.len() <= cs@.len(),
            k <= m@.len(),
            forall|q: int| 0 <= q < k ==> cs@[i + q] == m@[q],
        decreases m.len() - k,
    {
        if cs[i + k] != m[k] {
            assert(cs@.subrange(i as int, i + m@.len())[k as int] != m@[k as int]);
            return false;
        }
        k = k + 1;
    }
    assert(cs@.subrange(i as int, i + m@.len()) == m@);
    true
}

/// Finds and removes the sleep marker: the text without it, and whether it occurred.
pub fn strip_marker(text: &str, marker: &str) -> (r: (String, bool))
    requires
        marker@.len() > 0,
    ensures
        r.0@ == without(text@, marker@),
        r.1 == mentions(text@, marker@),
{
    let cs = chars_of(text);
    let m = chars_of(marker);
    let n = cs.len();
    let mut out = String::new();
    let mut found = false;
    let mut i: usize = 0;
    assert(cs@.subrange(0, n as int) == cs@);
    while i < n
        invariant
            n == cs@.len(),
            m@.len() > 0,
            m@ == marker@,
            cs@ == text@,
            i <= n,
            without(cs@, m@) == out@ + without(cs@.subrange(i as int, n as int), m@),
            mentions(cs@, m@) == (found || mentions(cs@.subrange(i as int, n as int), m@)),
        decreases n - i,
    {
        let ghost rest = cs@.subrange(i as int, n as int);
        if occurs_at(&cs, i, &m) {
            assert(rest.subrange(0, m@.len() as int) == m@);
            assert(rest.subrange(m@.len() as int, rest.len() as int) == cs@.subrange(i + m@.len(), n as int));
            found = true;
            i = i + m.len();
        } else {
            proof {
                if rest.len() >= m@.len() {
                    assert(rest.subrange(0, m@.len() as int) == cs@.subrange(i as int, i + m@.len()));
                }
            }
            assert(rest.drop_first() == cs@.subrange(i + 1, n as int));
            let ghost before = out@;
            push_char(&mut out, cs[i]);
            proof {
                if rest.len() < m@.len() {
                    assert(without(rest, m@) == rest);
                    assert(rest == seq![rest[0]] + rest.drop_first());
                    assert(without(rest.drop_first(), m@) == rest.drop_first());
                }
            }
            assert(out@ + without(rest.drop_first(), m@) == before + (seq![rest[0]] + without(rest.drop_first(), m@)));
            i = i + 1;
        }
    }
    (out, found)
}

/// What a reply becomes: the text to show and speak, its emotion, and whether the
/// model asked to end the session.
pub struct TextReply {
    pub text: String,
    pub emotion: Option<Emotion>,
    pub sleep: bool,
}

/// Removes emoji from a text and tags it with the emotion its characters suggest.
pub fn clean_text_and_extract_emotion(text: &str) -> (r: (String, Option<Emotion>))
    ensures
        r.0@ == pattern_removed(EMOJI_PATTERN@, text@),
        r.1 == emotion_in(text@),
{
    let cleaned = match remove_matches(EMOJI_PATTERN, text) {
        Some(c) => c,
        None => {
            assert(false);
            text.to_owned()
        },
    };
    (cleaned, emotion_of(text))
}

/// Reads the model's reply: the sleep marker is noted and removed, the rest is trimmed,
/// its emotion inferred and its emoji removed.
pub fn interpret_reply(response: &str) -> (r: TextReply)
    ensures
        r.sleep == mentions(response@, SLEEP_MARKER@),
        r.emotion == emotion_in(trimmed(without(response@, SLEEP_MARKER@))),
        r.text@ == pattern_removed(EMOJI_PATTERN@, trimmed(without(response@, SLEEP_MARKER@))),
{
    proof {
        reveal_strlit("[SLEEP]");
    }
    let (stripped, sleep) = strip_marker(response, SLEEP_MARKER);
    let raw = trim(stripped.as_str());
    let (text, emotion) = clean_text_and_extract_emotion(raw.as_str());
    TextReply { text, emotion, sleep }
}

} // verus!
