use vstd::prelude::*;

use crate::keys::{action_for, action_spec, Action, Key, Modifiers};
use crate::render::{glyphs, render_text, Glyph};
use crate::words::{distinct_positions, drawn_without_repetition, generate_text, strings_view, word_corpus, SAMPLE_SIZE};

verus! {

/// Milliseconds in one second of the clock that callers pass in.
pub const MILLIS_PER_SECOND: u64 = 1000;

/// The abstract state of a typing session.
pub ghost struct AppModel {
    /// Whether the driving loop should keep going.
    pub running: bool,
    /// The target words.
    pub words: Seq<Seq<char>>,
    /// Everything typed since the session began.
    pub input: Seq<char>,
    /// The clock reading, in milliseconds, of the first keystroke.
    pub start_time: Option<u64>,
    /// One speed reading per tick that found a whole second elapsed.
    pub wpm_history: Seq<u32>,
}

/// One typing session: target words, the typed input, the time of the first
/// keystroke, and the speed readings taken so far.
///
/// Times are readings of a monotonic clock in milliseconds, supplied by the
/// caller.
#[derive(Debug)]
pub struct App {
    running: bool,
    words: Vec<String>,
    input: Vec<char>,
    start_time: Option<u64>,
    wpm_data: Vec<u32>,
}

impl View for App {
    type V = AppModel;

    closed spec fn view(&self) -> AppModel {
        AppModel {
            running: self.running,
            words: strings_view(self.words@),
            input: self.input@,
            start_time: self.start_time,
            wpm_history: self.wpm_data@,
        }
    }
}

/// A session as it stands right after it begins: a full sample of words
/// drawn without repetition from the corpus, and nothing typed, timed or measured.
pub open spec fn fresh_session(m: AppModel) -> bool {
    &&& m.words.len() == SAMPLE_SIZE
    &&& drawn_without_repetition(m.words, word_corpus())
    &&& m.input == Seq::<char>::empty()
    &&& m.start_time is None
    &&& m.wpm_history == Seq::<u32>::empty()
}

/// Whole seconds from `start` to `now`; a clock reading before `start` counts as none.
pub open spec fn elapsed_seconds(start: u64, now: u64) -> int {
    if now >= start {
        (now - start) as int / MILLIS_PER_SECOND as int
    } else {
        0
    }
}

/// Words per minute for `len` characters in `secs` whole seconds, taking five
/// characters as one word: `(len / 5) * (60 / secs)` rounded down, which is
/// `12 * len / secs` rounded down, held to the range of `u32`.
pub open spec fn wpm_value(len: int, secs: int) -> u32 {
    let w = (12 * len) / secs;
    if w > u32::MAX {
        u32::MAX
    } else {
        w as u32
    }
}

/// The state after typing `c` at clock reading `now`.
pub open spec fn typed(m: AppModel, c: char, now: u64) -> AppModel {
    AppModel {
        input: m.input.push(c),
        start_time: if m.start_time is None {
            Some(now)
        } else {
            m.start_time
        },
        ..m
    }
}

/// The state after one speed measurement at clock reading `now`.
pub open spec fn ticked(m: AppModel, now: u64) -> AppModel {
    match m.start_time {
        Some(start) => if elapsed_seconds(start, now) > 0 {
            AppModel {
                wpm_history: m.wpm_history.push(
                    wpm_value(m.input.len() as int, elapsed_seconds(start, now)),
                ),
                ..m
            }
        } else {
            m
        },
        None => m,
    }
}

/// The latest speed reading, or zero before the first.
pub open spec fn current_wpm_spec(m: AppModel) -> u32 {
    if m.wpm_history.len() == 0 {
        0
    } else {
        m.wpm_history.last()
    }
}

/// The state after typing each character of `keys`, with its clock reading, in order.
pub open spec fn typed_all(m: AppModel, keys: Seq<(char, u64)>) -> AppModel
    decreases keys.len(),
{
    if keys.len() == 0 {
        m
    } else {
        typed_all(typed(m, keys[0].0, keys[0].1), keys.drop_first())
    }
}

/// Typing only appends: after any sequence of keystrokes the input is the old
/// input followed by the typed characters, one per keystroke, in order.
pub proof fn lemma_typing_appends(m: AppModel, keys: Seq<(char, u64)>)
    ensures
        typed_all(m, keys).input == m.input + keys.map_values(|k: (char, u64)| k.0),
        typed_all(m, keys).input.len() == m.input.len() + keys.len(),
        typed_all(m, keys).words == m.words,
        typed_all(m, keys).wpm_history == m.wpm_history,
    decreases keys.len(),
{
    let f = |k: (char, u64)| k.0;
    if keys.len() == 0 {
        assert(keys.map_values(f) =~= Seq::<char>::empty());
        assert(m.input + keys.map_values(f) =~= m.input);
    } else {
        let m1 = typed(m, keys[0].0, keys[0].1);
        lemma_typing_appends(m1, keys.drop_first());
        assert(keys.map_values(f) =~= seq![keys[0].0] + keys.drop_first().map_values(f));
        assert(m1.input + keys.drop_first().map_values(f) =~= m.input + keys.map_values(f));
    }
}

/// The start time is set once per session: keystrokes on a session without a
/// start time set it to the clock reading of the first of them, and keystrokes
/// on a session with a start time keep it.
pub proof fn lemma_start_time_set_once(m: AppModel, keys: Seq<(char, u64)>)
    ensures
        keys.len() == 0 ==> typed_all(m, keys).start_time == m.start_time,
        m.start_time is Some ==> typed_all(m, keys).start_time == m.start_time,
        m.start_time is None && keys.len() > 0 ==> typed_all(m, keys).start_time == Some(
            keys[0].1,
        ),
    decreases keys.len(),
{
    if keys.len() > 0 {
        lemma_start_time_set_once(typed(m, keys[0].0, keys[0].1), keys.drop_first());
    }
}

/// A speed reading, once a whole second has passed, is `(L / 5) * (60 / E)`
/// rounded down for `L` characters in `E` whole seconds, unless that exceeds
/// the range of `u32`.
pub proof fn lemma_wpm_formula(m: AppModel, now: u64)
    requires
        m.start_time is Some,
        elapsed_seconds(m.start_time->0, now) >= 1,
    ensures
        ({
            let e = elapsed_seconds(m.start_time->0, now);
            let l = m.input.len() as int;
            let w = wpm_value(l, e) as int;
            &&& ticked(m, now).wpm_history == m.wpm_history.push(wpm_value(l, e))
            &&& w < u32::MAX ==> 5 * e * w <= 60 * l < 5 * e * (w + 1)
        }),
{
    let e = elapsed_seconds(m.start_time->0, now);
    let l = m.input.len() as int;
    let q = (12 * l) / e;
    assert(0 <= 12 * l - e * q < e) by (nonlinear_arith)
        requires
            e >= 1,
            l >= 0,
            q == (12 * l) / e,
    ;
    let w = wpm_value(l, e) as int;
    if w < u32::MAX {
        assert(w == q);
        assert(5 * e * w <= 60 * l < 5 * e * (w + 1)) by (nonlinear_arith)
            requires
                0 <= 12 * l - e * w < e,
        ;
    }
}

/// Ticking changes nothing before the first keystroke, nor while less than a
/// whole second has passed since it.
pub proof fn lemma_tick_without_time(m: AppModel, now: u64)
    requires
        m.start_time is None || elapsed_seconds(m.start_time->0, now) == 0,
    ensures
        ticked(m, now) == m,
{
}

/// The words of a fresh session are ten distinct words of the corpus.
pub proof fn lemma_fresh_words_distinct(m: AppModel)
    requires
        fresh_session(m),
    ensures
        m.words.len() == 10,
        m.words.no_duplicates(),
        forall|k: int| 0 <= k < m.words.len() ==> word_corpus().contains(#[trigger] m.words[k]),
{
    lemma_corpus_distinct();
    let idx = choose|idx: Seq<int>|
        {
            &&& #[trigger] distinct_positions(idx, word_corpus().len() as int)
            &&& idx.len() == m.words.len()
            &&& forall|k: int| 0 <= k < m.words.len() ==> m.words[k] == word_corpus()[idx[k]]
        };
    assert forall|a: int, b: int| 0 <= a < m.words.len() && 0 <= b < m.words.len() && a != b
        implies m.words[a] != m.words[b] by {
        assert(idx[a] != idx[b]);
    }
    assert forall|k: int| 0 <= k < m.words.len() implies word_corpus().contains(
        #[trigger] m.words[k],
    ) by {
        assert(word_corpus()[idx[k]] == m.words[k]);
    }
}

/// No word stands twice in the corpus.
proof fn lemma_corpus_distinct()
    ensures
        word_corpus().no_duplicates(),
{
    reveal_strlit("hello");
    reveal_strlit("world");
    reveal_strlit("rust");
    reveal_strlit("speed");
    reveal_strlit("test");
    reveal_strlit("keyboard");
    reveal_strlit("fast");
    reveal_strlit("typing");
    reveal_strlit("game");
    reveal_strlit("challenge");
    reveal_strlit("performance");
    reveal_strlit("accuracy");
    let c = word_corpus();
    assert forall|a: int, b: int| 0 <= a < c.len() && 0 <= b < c.len() && a != b implies c[a]
        != c[b] by {
        if c[a] == c[b] {
            assert(c[a].len() == c[b].len());
            assert(c[a][0] == c[b][0]);
            assert(c[a][1] == c[b][1]);
        }
    }
}

impl Default for App {
    /// The same as [`App::new`].
    fn default() -> (r: App)
        ensures
            fresh_session(r@),
            !r@.running,
    {
        App::new()
    }
}

impl App {
    /// A session that is not running yet, with a fresh random sample of words.
    pub fn new() -> (r: App)
        ensures
            fresh_session(r@),
            !r@.running,
    {
        App {
            running: false,
            words: generate_text(),
            input: Vec::new(),
            start_time: None,
            wpm_data: Vec::new(),
        }
    }

    /// A session that is not running yet, over the given target words.
    pub fn from_words(words: Vec<String>) -> (r: App)
        ensures
            r@.words == strings_view(words@),
            r@.input == Seq::<char>::empty(),
            r@.start_time is None,
            r@.wpm_history == Seq::<u32>::empty(),
            !r@.running,
    {
        App { running: false, words, input: Vec::new(), start_time: None, wpm_data: Vec::new() }
    }

    /// Marks the session as running, for the driving loop.
    pub fn start(&mut self)
        ensures
            final(self)@ == (AppModel { running: true, ..old(self)@ }),
    {
        self.running = true;
    }

    /// Appends `c` to the input; the first character of a session also
    /// records `now` as the start time.
    pub fn type_char(&mut self, c: char, now: u64)
        ensures
            final(self)@ == typed(old(self)@, c, now),
    {
        if self.start_time.is_none() {
            self.start_time = Some(now);
        }
        self.input.push(c);
    }

    /// Handles one key press at clock reading `now`.
    pub fn on_key_event(&mut self, m: Modifiers, k: Key, now: u64)
        ensures
            match action_spec(m, k) {
                Action::Type(c) => final(self)@ == typed(old(self)@, c, now),
                Action::Quit => final(self)@ == (AppModel { running: false, ..old(self)@ }),
                Action::Reset => fresh_session(final(self)@) && final(self)@.running
                    == old(self)@.running,
                Action::Ignore => final(self)@ == old(self)@,
            },
    {
        match action_for(m, k) {
            Action::Type(c) => self.type_char(c, now),
            Action::Quit => self.quit(),
            Action::Reset => self.reset(),
            Action::Ignore => {},
        }
    }

    /// Takes a speed reading at clock reading `now` once at least one whole
    /// second has passed since the first keystroke; otherwise does nothing.
    pub fn update_wpm(&mut self, now: u64)
        ensures
            final(self)@ == ticked(old(self)@, now),
    {
        if let Some(start) = self.start_time {
            let elapsed: u64 = now.saturating_sub(start) / MILLIS_PER_SECOND;
            if elapsed > 0 {
                let chars: u128 = self.input.len() as u128;
                let w: u128 = chars * 12 / (elapsed as u128);
                let wpm: u32 = if w > u32::MAX as u128 {
                    u32::MAX
                } else {
                    w as u32
                };
                self.wpm_data.push(wpm);
            }
        }
    }

    /// Starts over: a new sample of words, and no input, start time or readings.
    pub fn reset(&mut self)
        ensures
            fresh_session(final(self)@),
            final(self)@.running == old(self)@.running,
    {
        self.words = generate_text();
        self.input.clear();
        self.start_time = None;
        self.wpm_data.clear();
    }

    /// Asks the driving loop to stop.
    pub fn quit(&mut self)
        ensures
            final(self)@ == (AppModel { running: false, ..old(self)@ }),
    {
        self.running = false;
    }

    /// Whether the driving loop should keep going.
    pub fn is_running(&self) -> (r: bool)
        ensures
            r == self@.running,
    {
        self.running
    }

    /// The latest speed reading, or zero before the first.
    pub fn current_wpm(&self) -> (r: u32)
        ensures
            r == current_wpm_spec(self@),
    {
        if self.wpm_data.len() == 0 {
            0
        } else {
            self.wpm_data[self.wpm_data.len() - 1]
        }
    }

    /// The target words, tagged character by character against the input.
    pub fn render_text(&self) -> (r: Vec<Glyph>)
        ensures
            r@ == glyphs(self@.words, self@.input),
    {
        render_text(&self.words, &self.input)
    }

    /// The target words.
    pub fn words(&self) -> (r: &Vec<String>)
        ensures
            strings_view(r@) == self@.words,
    {
        &self.words
    }

    /// The characters typed so far.
    pub fn input(&self) -> (r: &Vec<char>)
        ensures
            r@ == self@.input,
    {
        &self.input
    }

    /// The clock reading of the first keystroke, if any.
    pub fn start_time(&self) -> (r: Option<u64>)
        ensures
            r == self@.start_time,
    {
        self.start_time
    }

    /// All speed readings, oldest first.
    pub fn wpm_history(&self) -> (r: &Vec<u32>)
        ensures
            r@ == self@.wpm_history,
    {
        &self.wpm_data
    }
}

} // verus!
