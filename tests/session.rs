use teaty::{
    action_for, generate_text, render_text, word_corpus_vec, Action, App, Glyph, Key, Modifiers,
    Tag, SAMPLE_SIZE,
};

fn words(list: &[&str]) -> Vec<String> {
    list.iter().map(|w| w.to_string()).collect()
}

fn type_str(app: &mut App, s: &str, now: u64) {
    for c in s.chars() {
        app.type_char(c, now);
    }
}

fn tags(glyphs: &[Glyph]) -> Vec<Tag> {
    glyphs.iter().map(|g| g.tag).collect()
}

#[test]
fn new_session_has_ten_distinct_corpus_words() {
    let app = App::new();
    let corpus = word_corpus_vec();
    assert_eq!(app.words().len(), 10);
    assert_eq!(SAMPLE_SIZE, 10);
    for (i, w) in app.words().iter().enumerate() {
        assert!(corpus.contains(w));
        for v in &app.words()[i + 1..] {
            assert_ne!(w, v);
        }
    }
    assert!(app.input().is_empty());
    assert_eq!(app.start_time(), None);
    assert!(app.wpm_history().is_empty());
    assert_eq!(app.current_wpm(), 0);
    assert!(!app.is_running());
}

#[test]
fn corpus_is_the_fixed_word_list() {
    let corpus = word_corpus_vec();
    assert_eq!(
        corpus,
        words(&[
            "hello", "world", "rust", "speed", "test", "keyboard", "fast", "typing", "game",
            "challenge", "performance", "accuracy",
        ])
    );
}

#[test]
fn generated_text_is_a_proper_sample() {
    let corpus = word_corpus_vec();
    let sample = generate_text();
    assert_eq!(sample.len(), 10);
    assert_ne!(sample.len(), corpus.len());
    for w in &sample {
        assert!(corpus.contains(w));
    }
}

#[test]
fn typing_appends_one_character_per_call() {
    let mut app = App::from_words(words(&["cat"]));
    app.type_char('x', 100);
    assert_eq!(app.input(), &vec!['x']);
    app.type_char('y', 200);
    app.type_char('x', 300);
    assert_eq!(app.input(), &vec!['x', 'y', 'x']);
}

#[test]
fn start_time_is_set_once_per_session() {
    let mut app = App::from_words(words(&["cat"]));
    assert_eq!(app.start_time(), None);
    app.type_char('a', 1500);
    assert_eq!(app.start_time(), Some(1500));
    app.type_char('b', 9000);
    assert_eq!(app.start_time(), Some(1500));
    app.reset();
    assert_eq!(app.start_time(), None);
    app.type_char('c', 20000);
    assert_eq!(app.start_time(), Some(20000));
}

#[test]
fn wpm_formula_exact_value() {
    let mut app = App::from_words(words(&["cat"]));
    type_str(&mut app, "abcdefghijklmnopqrstuvwxy", 0);
    assert_eq!(app.input().len(), 25);
    app.update_wpm(10_000);
    assert_eq!(app.wpm_history(), &vec![30]);
    assert_eq!(app.current_wpm(), 30);
}

#[test]
fn wpm_rounds_down_and_counts_whole_seconds() {
    let mut app = App::from_words(words(&["cat"]));
    type_str(&mut app, "abcdefg", 1000);
    // 7 characters in 3 whole seconds (3.999 s): 12 * 7 / 3 = 28.
    app.update_wpm(4999);
    assert_eq!(app.current_wpm(), 28);
    // 7 characters in 9 seconds: 84 / 9 = 9.33, rounded down.
    app.update_wpm(10_000);
    assert_eq!(app.wpm_history(), &vec![28, 9]);
}

#[test]
fn wpm_is_zero_without_characters_once_time_is_set() {
    let mut app = App::from_words(words(&["cat"]));
    app.type_char('a', 0);
    app.reset();
    app.update_wpm(50_000);
    assert!(app.wpm_history().is_empty());
}

#[test]
fn tick_repeats_the_reading_within_one_second() {
    let mut app = App::from_words(words(&["cat"]));
    type_str(&mut app, "abcde", 0);
    app.update_wpm(1000);
    app.update_wpm(1999);
    assert_eq!(app.wpm_history(), &vec![60, 60]);
}

#[test]
fn tick_appends_nothing_without_start_or_whole_second() {
    let mut app = App::from_words(words(&["cat"]));
    app.update_wpm(100_000);
    assert!(app.wpm_history().is_empty());
    app.type_char('a', 5000);
    app.update_wpm(5999);
    assert!(app.wpm_history().is_empty());
    app.update_wpm(4000);
    assert!(app.wpm_history().is_empty());
    assert_eq!(app.current_wpm(), 0);
}

#[test]
fn reset_restores_a_fresh_session() {
    let mut app = App::from_words(words(&["cat"]));
    app.start();
    type_str(&mut app, "hello", 0);
    app.update_wpm(2000);
    assert_eq!(app.wpm_history().len(), 1);
    app.reset();
    assert!(app.input().is_empty());
    assert_eq!(app.start_time(), None);
    assert!(app.wpm_history().is_empty());
    assert_eq!(app.words().len(), 10);
    let corpus = word_corpus_vec();
    for w in app.words() {
        assert!(corpus.contains(w));
    }
    assert!(app.is_running());
}

#[test]
fn render_tags_matched_mismatched_and_pending() {
    let mut app = App::from_words(words(&["cat"]));
    type_str(&mut app, "cbt", 0);
    let g = app.render_text();
    assert_eq!(
        g,
        vec![
            Glyph { ch: 'c', tag: Tag::Matched },
            Glyph { ch: 'a', tag: Tag::Mismatched },
            Glyph { ch: 't', tag: Tag::Matched },
        ]
    );
    let mut short = App::from_words(words(&["cat"]));
    short.type_char('c', 0);
    assert_eq!(tags(&short.render_text()), vec![Tag::Matched, Tag::Pending, Tag::Pending]);
}

#[test]
fn render_joins_words_and_shifts_positions_by_word_length() {
    let input: Vec<char> = "ab cdx".chars().collect();
    let g = render_text(&words(&["ab", "cd"]), &input);
    let chars: String = g.iter().map(|x| x.ch).collect();
    assert_eq!(chars, "ab cd");
    assert_eq!(
        tags(&g),
        vec![Tag::Matched, Tag::Matched, Tag::Separator, Tag::Matched, Tag::Matched]
    );
    // Word 1 of length 1 is compared with position 1 * (1 + 1) + 0 = 2.
    let input: Vec<char> = "abz".chars().collect();
    let g = render_text(&words(&["abc", "z"]), &input);
    assert_eq!(
        tags(&g),
        vec![Tag::Matched, Tag::Matched, Tag::Mismatched, Tag::Separator, Tag::Matched]
    );
}

#[test]
fn render_of_nothing_typed_is_all_pending() {
    let g = render_text(&words(&["hi", "yo"]), &Vec::new());
    assert_eq!(
        tags(&g),
        vec![Tag::Pending, Tag::Pending, Tag::Separator, Tag::Pending, Tag::Pending]
    );
    assert!(render_text(&Vec::new(), &vec!['a']).is_empty());
}

#[test]
fn end_to_end_five_characters_in_two_seconds() {
    let mut app = App::new();
    app.start();
    for c in "speed".chars() {
        app.on_key_event(Modifiers::NoModifier, Key::Char(c), 7000);
    }
    app.update_wpm(9000);
    assert_eq!(app.current_wpm(), 30);
}

#[test]
fn key_dispatch() {
    assert_eq!(action_for(Modifiers::NoModifier, Key::Esc), Action::Quit);
    assert_eq!(action_for(Modifiers::Other, Key::Esc), Action::Quit);
    assert_eq!(action_for(Modifiers::Control, Key::Char('c')), Action::Quit);
    assert_eq!(action_for(Modifiers::Control, Key::Char('C')), Action::Quit);
    assert_eq!(action_for(Modifiers::Control, Key::Char('r')), Action::Reset);
    assert_eq!(action_for(Modifiers::Control, Key::Char('x')), Action::Ignore);
    assert_eq!(action_for(Modifiers::NoModifier, Key::Char('r')), Action::Type('r'));
    assert_eq!(action_for(Modifiers::Other, Key::Char('a')), Action::Ignore);
    assert_eq!(action_for(Modifiers::NoModifier, Key::Other), Action::Ignore);
}

#[test]
fn key_events_change_the_session() {
    let mut app = App::from_words(words(&["cat"]));
    app.start();
    app.on_key_event(Modifiers::NoModifier, Key::Char('c'), 10);
    assert_eq!(app.input(), &vec!['c']);
    app.on_key_event(Modifiers::Other, Key::Char('a'), 20);
    app.on_key_event(Modifiers::NoModifier, Key::Other, 30);
    assert_eq!(app.input(), &vec!['c']);
    assert!(app.is_running());
    app.on_key_event(Modifiers::Control, Key::Char('r'), 40);
    assert!(app.input().is_empty());
    assert_eq!(app.words().len(), 10);
    assert!(app.is_running());
    app.on_key_event(Modifiers::NoModifier, Key::Esc, 50);
    assert!(!app.is_running());
}

#[test]
fn quit_stops_the_loop() {
    let mut app = App::new();
    app.start();
    assert!(app.is_running());
    app.quit();
    assert!(!app.is_running());
}

#[test]
fn default_is_a_fresh_session() {
    let app = App::default();
    assert_eq!(app.words().len(), 10);
    assert!(app.input().is_empty());
    assert_eq!(app.start_time(), None);
    assert_eq!(app.current_wpm(), 0);
    assert!(!app.is_running());
}
