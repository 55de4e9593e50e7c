//! Speech providers that hold no outside state, and the synthesizer interface.
use vstd::prelude::*;
use crate::protocol::Emotion;
use crate::text::{chars_of, string_of};

verus! {

/// Speech synthesis: compressed 60 ms frames for a text, in order.
pub trait TtsTrait {
    fn speak(&self, text: &str, emotion: Option<Emotion>) -> Result<Vec<Vec<u8>>, String>;
}

/// A recognizer stand-in for development.
pub struct LocalStt;

impl LocalStt {
    pub fn new() -> (r: LocalStt) {
        LocalStt
    }

    /// Answers every recording with a fixed text.
    pub fn recognize(&self, audio: &[u8]) -> (r: Result<String, String>)
        ensures
            r matches Ok(t) && t@ == "Hello Gemini"@,
    {
        Ok("Hello Gemini".to_owned())
    }

    /// Streaming recognition is not offered.
    pub fn stream_speech(&self) -> (r: Result<(), String>)
        ensures
            r is Err,
    {
        Err("Streaming STT not implemented for LocalStt".to_owned())
    }
}

/// A synthesizer stand-in: one short silent frame per text.
pub struct LocalTts;

impl LocalTts {
    pub fn new() -> (r: LocalTts) {
        LocalTts
    }
}

impl TtsTrait for LocalTts {
    fn speak(&self, text: &str, emotion: Option<Emotion>) -> (r: Result<Vec<Vec<u8>>, String>) {
        let mut frame: Vec<u8> = Vec::new();
        let mut i: usize = 0;
        while i < 10
            invariant
                i <= 10,
                frame@.len() == i,
            decreases 10 - i,
        {
            frame.push(0);
            i = i + 1;
        }
        let mut frames: Vec<Vec<u8>> = Vec::new();
        frames.push(frame);
        Ok(frames)
    }
}

/// A synthesizer that plays a test tone.
pub struct OpusTts;

impl OpusTts {
    pub fn new() -> (r: OpusTts) {
        OpusTts
    }
}

/// Whether `c` has a Unicode numeric general category.
pub uninterp spec fn numeric(c: char) -> bool;

/// Relies on `char::is_numeric`: the Unicode numeric categories.
#[verifier::external_body]
fn is_numeric_char(c: char) -> (r: bool)
    ensures
        r == numeric(c),
{
    c.is_numeric()
}

/// Whether `c` is an ASCII digit.
pub open spec fn is_digit(c: char) -> bool {
    '0' <= c && c <= '9'
}

/// The value of a run of ASCII digits.
pub open spec fn digits_value(s: Seq<char>) -> int
    decreases s.len(),
{
    if s.len() == 0 {
        0
    } else {
        digits_value(s.drop_last()) * 10 + (s.last() as int - '0' as int)
    }
}

/// `s` without its leading sign, if it has one.
pub open spec fn unsigned_part(s: Seq<char>) -> Seq<char> {
    if s.len() > 0 && (s[0] == '+' || s[0] == '-') {
        s.drop_first()
    } else {
        s
    }
}

/// At least one character, all ASCII digits.
pub open spec fn all_digits(s: Seq<char>) -> bool {
    s.len() > 0 && forall|k: int| 0 <= k < s.len() ==> is_digit(#[trigger] s[k])
}

/// The value of a signed run of digits.
pub open spec fn signed_value(s: Seq<char>) -> int {
    if s.len() > 0 && s[0] == '-' {
        -digits_value(unsigned_part(s))
    } else {
        digits_value(unsigned_part(s))
    }
}

/// An `i32` written as an optional `+` or `-` and at least one ASCII digit.
pub open spec fn parsed_i32(s: Seq<char>) -> Option<i32> {
    if all_digits(unsigned_part(s)) && i32::MIN <= signed_value(s) && signed_value(s) <= i32::MAX {
        Some(signed_value(s) as i32)
    } else {
        None
    }
}

proof fn lemma_digits_nonneg(s: Seq<char>)
    requires
        forall|k: int| 0 <= k < s.len() ==> is_digit(#[trigger] s[k]),
    ensures
        digits_value(s) >= 0,
    decreases s.len(),
{
    if s.len() > 0 {
        lemma_digits_nonneg(s.drop_last());
    }
}

/// A run of digits is worth at least any prefix of it.
proof fn lemma_prefix_value(s: Seq<char>, k: int)
    requires
        0 <= k <= s.len(),
        forall|j: int| 0 <= j < s.len() ==> is_digit(#[trigger] s[j]),
    ensures
        digits_value(s) >= digits_value(s.subrange(0, k)),
    decreases s.len() - k,
{
    if k < s.len() {
        let t = s.drop_last();
        assert forall|j: int| 0 <= j < t.len() implies is_digit(#[trigger] t[j]) by {
            assert(t[j] == s[j]);
        }
        lemma_prefix_value(t, k);
        lemma_digits_nonneg(t);
        assert(t.subrange(0, k) == s.subrange(0, k));
    } else {
        assert(s.subrange(0, k) == s);
    }
}

/// Reads an `i32` written as an optional sign and ASCII digits.
pub fn parse_i32(s: &str) -> (r: Option<i32>)
    ensures
        r == parsed_i32(s@),
{
    let cs = chars_of(s);
    let n = cs.len();
    let signed = n > 0 && (cs[0] == '+' || cs[0] == '-');
    let negative = signed && cs[0] == '-';
    let start: usize = if signed { 1 } else { 0 };
    let ghost body = cs@.subrange(start as int, n as int);
    proof {
        if signed {
            assert(body == s@.drop_first());
        } else {
            assert(body == s@);
        }
    }
    if start == n {
        assert(body.len() == 0);
        return None;
    }
    let mut acc: u64 = 0;
    let mut i: usize = start;
    assert(cs@.subrange(start as int, start as int) =~= Seq::<char>::empty());
    while i < n
        invariant
            n == cs@.len(),
            cs@ == s@,
            start <= i <= n,
            body == cs@.subrange(start as int, n as int),
            body == unsigned_part(s@),
            negative == (s@.len() > 0 && s@[0] == '-'),
            acc as int == digits_value(cs@.subrange(start as int, i as int)),
            acc <= 2147483648,
            forall|k: int| start <= k < i ==> is_digit(#[trigger] cs@[k]),
        decreases n - i,
    {
        let c = cs[i];
        if !('0' <= c && c <= '9') {
            assert(!is_digit(body[i - start]));
            assert(!all_digits(body));
            assert(parsed_i32(s@) is None);
            return None;
        }
        let d: u64 = (c as u32 - '0' as u32) as u64;
        assert(cs@.subrange(start as int, i + 1).drop_last() == cs@.subrange(start as int, i as int));
        assert(cs@.subrange(start as int, i + 1).last() == c);
        acc = acc * 10 + d;
        assert(acc as int == digits_value(cs@.subrange(start as int, i + 1)));
        if acc > 2147483648 {
            proof {
                if all_digits(body) {
                    lemma_prefix_value(body, i + 1 - start);
                    assert(body.subrange(0, i + 1 - start) == cs@.subrange(start as int, i + 1));
                    assert(digits_value(body) > 2147483648);
                    assert(-digits_value(body) < i32::MIN);
                }
                assert(parsed_i32(s@) is None);
            }
            return None;
        }
        i = i + 1;
    }
    proof {
        assert forall|k: int| 0 <= k < body.len() implies is_digit(#[trigger] body[k]) by {
            assert(body[k] == cs@[k + start]);
        }
    }
    if negative {
        Some((-(acc as i64)) as i32)
    } else if acc <= 2147483647 {
        Some(acc as i32)
    } else {
        None
    }
}

/// A character stripped from the ends of a voice setting: neither numeric nor `-`.
pub open spec fn setting_junk(c: char) -> bool {
    !numeric(c) && c != '-'
}

/// `s` without the junk characters at its start.
pub open spec fn strip_junk_start(s: Seq<char>) -> Seq<char>
    decreases s.len(),
{
    if s.len() > 0 && setting_junk(s[0]) {
        strip_junk_start(s.drop_first())
    } else {
        s
    }
}

/// `s` without the junk characters at its end.
pub open spec fn strip_junk_end(s: Seq<char>) -> Seq<char>
    decreases s.len(),
{
    if s.len() > 0 && setting_junk(s.last()) {
        strip_junk_end(s.drop_last())
    } else {
        s
    }
}

/// The number in a voice setting such as `+0%` or `-5Hz`; 0 when there is none.
pub open spec fn setting_number(s: Seq<char>) -> i32 {
    match parsed_i32(strip_junk_end(strip_junk_start(s))) {
        Some(v) => v,
        None => 0,
    }
}

proof fn lemma_strip_start(s: Seq<char>, i: int)
    requires
        0 <= i <= s.len(),
        forall|k: int| 0 <= k < i ==> setting_junk(#[trigger] s[k]),
        i == s.len() || !setting_junk(s[i]),
    ensures
        strip_junk_start(s) == s.subrange(i, s.len() as int),
    decreases i,
{
    if i == 0 {
        assert(s.subrange(0, s.len() as int) == s);
    } else {
        let t = s.drop_first();
        assert forall|k: int| 0 <= k < i - 1 implies setting_junk(#[trigger] t[k]) by {
            assert(t[k] == s[k + 1]);
        }
        lemma_strip_start(t, i - 1);
        assert(t.subrange(i - 1, t.len() as int) == s.subrange(i, s.len() as int));
    }
}

proof fn lemma_strip_end(s: Seq<char>, j: int)
    requires
        0 <= j <= s.len(),
        forall|k: int| j <= k < s.len() ==> setting_junk(#[trigger] s[k]),
        j == 0 || !setting_junk(s[j - 1]),
    ensures
        strip_junk_end(s) == s.subrange(0, j),
    decreases s.len() - j,
{
    if j == s.len() {
        assert(s.subrange(0, s.len() as int) == s);
    } else {
        let t = s.drop_last();
        lemma_strip_end(t, j);
        assert(t.subrange(0, j) == s.subrange(0, j));
    }
}

/// Reads the number of a voice setting.
pub fn setting_value(s: &str) -> (r: i32)
    ensures
        r == setting_number(s@),
{
    let cs = chars_of(s);
    let n = cs.len();
    let mut i: usize = 0;
    while i < n && !is_numeric_char(cs[i]) && cs[i] != '-'
        invariant
            n == cs@.len(),
            i <= n,
            forall|k: int| 0 <= k < i ==> setting_junk(#[trigger] cs@[k]),
        decreases n - i,
    {
        i = i + 1;
    }
    proof {
        lemma_strip_start(cs@, i as int);
    }
    let ghost t = cs@.subrange(i as int, n as int);
    let mut j: usize = n;
    while j > i && !is_numeric_char(cs[j - 1]) && cs[j - 1] != '-'
        invariant
            n == cs@.len(),
            i <= j <= n,
            t == cs@.subrange(i as int, n as int),
            forall|k: int| j <= k < n ==> setting_junk(#[trigger] cs@[k]),
        decreases j,
    {
        j = j - 1;
    }
    proof {
        assert forall|k: int| j - i <= k < t.len() implies setting_junk(#[trigger] t[k]) by {
            assert(t[k] == cs@[k + i]);
        }
        if j > i {
            assert(t[j - i - 1] == cs@[j - 1]);
        }
        lemma_strip_end(t, j - i);
        assert(t.subrange(0, j - i) == cs@.subrange(i as int, j as int));
    }
    let core = string_of(&cs, i, j);
    match parse_i32(core.as_str()) {
        Some(v) => v,
        None => 0,
    }
}

/// Synthesis through the Edge speech service, with its voice settings.
pub struct EdgeTts {
    pub voice: String,
    pub rate: String,
    pub pitch: String,
    pub volume: String,
}

impl EdgeTts {
    pub fn new(voice: String, rate: String, pitch: String, volume: String) -> (r: EdgeTts)
        ensures
            r.voice == voice,
            r.rate == rate,
            r.pitch == pitch,
            r.volume == volume,
    {
        EdgeTts { voice, rate, pitch, volume }
    }

    /// The pitch, rate and volume numbers the service is asked for.
    pub fn speech_numbers(&self) -> (r: (i32, i32, i32))
        ensures
            r == (setting_number(self.pitch@), setting_number(self.rate@), setting_number(self.volume@)),
    {
        (setting_value(self.pitch.as_str()), setting_value(self.rate.as_str()), setting_value(self.volume.as_str()))
    }
}

} // verus!
