use sunshine_core::editor::TextBuffer;
use sunshine_core::store::TextSequence;

const BREAKS: [char; 7] = ['\n', '\u{0B}', '\u{0C}', '\r', '\u{85}', '\u{2028}', '\u{2029}'];

fn ends_break(s: &[char], i: usize) -> bool {
    BREAKS.contains(&s[i]) && !(s[i] == '\r' && i + 1 < s.len() && s[i + 1] == '\n')
}

fn line_starts(s: &[char]) -> Vec<usize> {
    let mut starts = vec![0];
    for i in 0..s.len() {
        if ends_break(s, i) {
            starts.push(i + 1);
        }
    }
    starts
}

fn texts(alphabet: &[char], max_len: usize) -> Vec<Vec<char>> {
    let mut all: Vec<Vec<char>> = vec![Vec::new()];
    let mut last: Vec<Vec<char>> = vec![Vec::new()];
    for _ in 0..max_len {
        let mut next = Vec::new();
        for t in &last {
            for c in alphabet {
                let mut longer = t.clone();
                longer.push(*c);
                next.push(longer);
            }
        }
        all.extend(next.iter().cloned());
        last = next;
    }
    all
}

fn check_lines(s: &[char]) {
    let text: String = s.iter().collect();
    let seq = TextSequence::from_str(&text);
    let starts = line_starts(s);
    assert_eq!(seq.len(), s.len());
    assert_eq!(seq.line_count(), starts.len(), "{:?}", text);
    for k in 0..starts.len() {
        let end = if k + 1 < starts.len() { starts[k + 1] } else { s.len() };
        assert_eq!(seq.line_to_char(k), starts[k], "{:?} line {}", text, k);
        assert_eq!(seq.line_len(k), end - starts[k], "{:?} line {}", text, k);
        let line: String = s[starts[k]..end].iter().collect();
        assert_eq!(seq.line(k), line, "{:?} line {}", text, k);
        assert_eq!(seq.char_to_line(starts[k]), k, "{:?} line {}", text, k);
    }
    assert_eq!(seq.line_to_char(starts.len()), s.len());
    for n in 0..=s.len() {
        let before = (0..n).filter(|i| ends_break(s, *i)).count();
        assert_eq!(seq.char_to_line(n), before, "{:?} index {}", text, n);
    }
}

#[test]
fn lines_of_all_short_texts_over_the_common_breaks() {
    for s in texts(&['a', '\n', '\r'], 7) {
        check_lines(&s);
    }
}

#[test]
fn lines_of_all_short_texts_over_every_break() {
    let mut alphabet = vec!['a', '\u{e9}'];
    alphabet.extend(BREAKS);
    for s in texts(&alphabet, 4) {
        check_lines(&s);
    }
}

#[test]
fn lines_of_a_long_text() {
    let mut s = Vec::new();
    for i in 0..5000 {
        s.extend("line ".chars());
        s.extend(i.to_string().chars());
        s.extend(if i % 3 == 0 { "\r\n" } else if i % 3 == 1 { "\n" } else { "\r" }.chars());
    }
    let text: String = s.iter().collect();
    let seq = TextSequence::from_str(&text);
    let starts = line_starts(&s);
    assert_eq!(seq.line_count(), starts.len());
    assert_eq!(seq.line_count(), 5001);
    for k in 0..starts.len() {
        assert_eq!(seq.line_to_char(k), starts[k]);
        assert_eq!(seq.char_to_line(starts[k]), k);
        if starts[k] > 0 {
            assert_eq!(seq.char_to_line(starts[k] - 1), k - 1);
        }
    }
}

fn next(state: &mut u64) -> usize {
    *state = state.wrapping_mul(6364136223846793005).wrapping_add(1442695040888963407);
    (*state >> 33) as usize
}

#[test]
fn a_sequence_under_many_edits_matches_a_plain_vector() {
    let pieces = ["a", "\n", "\r", "\r\n", "bc\u{2028}", "line\n\n", "\u{e9}\u{85}", "xyz"];
    let mut state = 7u64;
    let mut seq = TextSequence::new();
    let mut plain: Vec<char> = Vec::new();
    for round in 0..4000 {
        let roll = next(&mut state) % 10;
        if roll < 6 {
            let at = next(&mut state) % (plain.len() + 1);
            let piece = pieces[next(&mut state) % pieces.len()];
            seq.insert(at, piece);
            for (i, c) in piece.chars().enumerate() {
                plain.insert(at + i, c);
            }
        } else if roll < 7 {
            let at = next(&mut state) % (plain.len() + 1);
            seq.insert_char(at, '\r');
            plain.insert(at, '\r');
        } else {
            let at = next(&mut state) % (plain.len() + 2);
            let count = next(&mut state) % 4;
            seq.remove(at, count);
            if at + count <= plain.len() {
                plain.drain(at..at + count);
            }
        }
        assert_eq!(seq.len(), plain.len());
        if round % 50 == 0 || round > 3950 {
            assert_eq!(seq.to_text(), plain.iter().collect::<String>());
            let starts = line_starts(&plain);
            assert_eq!(seq.line_count(), starts.len());
            for k in 0..starts.len() {
                assert_eq!(seq.line_to_char(k), starts[k]);
                assert_eq!(seq.char_to_line(starts[k]), k);
            }
        }
    }
    assert!(plain.len() > 1000);
}

#[test]
fn sequence_edits() {
    let mut seq = TextSequence::new();
    assert_eq!(seq.len(), 0);
    assert_eq!(seq.line_count(), 1);
    seq.insert(0, "hello\nworld");
    seq.insert_char(5, '!');
    assert_eq!(seq.to_text(), "hello!\nworld");
    seq.insert(12, "\n");
    assert_eq!(seq.line_count(), 3);
    seq.remove(0, 6);
    assert_eq!(seq.to_text(), "\nworld\n");
    seq.remove(6, 1);
    assert_eq!(seq.to_text(), "\nworld");
    seq.remove(3, 0);
    assert_eq!(seq.to_text(), "\nworld");
    assert_eq!(seq.rope().len_chars(), 6);
}

#[test]
fn remove_out_of_bounds_changes_nothing() {
    let mut seq = TextSequence::from_str("abc");
    seq.remove(2, 2);
    assert_eq!(seq.to_text(), "abc");
    seq.remove(4, 0);
    assert_eq!(seq.to_text(), "abc");
    seq.remove(3, 1);
    assert_eq!(seq.to_text(), "abc");
    seq.remove(1, usize::MAX);
    assert_eq!(seq.to_text(), "abc");
    seq.remove(usize::MAX, usize::MAX);
    assert_eq!(seq.to_text(), "abc");
    seq.remove(3, 0);
    assert_eq!(seq.to_text(), "abc");
    seq.remove(0, 3);
    assert_eq!(seq.to_text(), "");
}

fn at(buffer: &TextBuffer) -> (usize, usize) {
    (buffer.cursor().line, buffer.cursor().column)
}

fn valid_cursors(s: &[char]) -> Vec<(usize, usize)> {
    let starts = line_starts(s);
    let mut all = Vec::new();
    for k in 0..starts.len() {
        let end = if k + 1 < starts.len() { starts[k + 1] } else { s.len() };
        let last = (end - starts[k]).saturating_sub(1);
        for c in 0..=last {
            all.push((k, c));
        }
    }
    all
}

fn buffer_at(text: &str, cursor: (usize, usize)) -> TextBuffer {
    let mut buffer = TextBuffer::from_str(text);
    let mut steps = 0;
    while at(&buffer) != cursor {
        buffer.move_cursor_right();
        steps += 1;
        assert!(steps < 1000, "{:?} never reaches {:?}", text, cursor);
    }
    buffer
}

#[test]
fn typing_then_backspace_gives_back_text_and_cursor() {
    for s in texts(&['a', '\n', '\r'], 5) {
        let text: String = s.iter().collect();
        let starts = line_starts(&s);
        for cursor in valid_cursors(&s) {
            let index = starts[cursor.0] + cursor.1;
            let splits = index > 0 && index < s.len() && s[index - 1] == '\r' && s[index] == '\n';
            if splits {
                continue;
            }
            let mut buffer = buffer_at(&text, cursor);
            buffer.insert_char('x');
            assert_eq!(at(&buffer), (cursor.0, cursor.1 + 1));
            buffer.backspace();
            assert_eq!(buffer.text(), text, "{:?} at {:?}", text, cursor);
            assert_eq!(at(&buffer), cursor, "{:?} at {:?}", text, cursor);
        }
    }
}

#[test]
fn typing_between_cr_and_lf_is_not_undone_by_backspace() {
    let mut buffer = buffer_at("a\r\nb", (0, 2));
    buffer.insert_char('x');
    assert_eq!(buffer.text(), "a\rx\nb");
    buffer.backspace();
    assert_eq!(buffer.text(), "ax\nb");
}

#[test]
fn typing_from_a_column_beyond_the_line_is_not_undone_by_backspace() {
    let mut buffer = TextBuffer::new();
    buffer.insert_char('a');
    assert_eq!(at(&buffer), (0, 1));
    buffer.insert_char('x');
    assert_eq!(buffer.text(), "xa");
    buffer.backspace();
    assert_eq!(buffer.text(), "x");
}

#[test]
fn typing_on_an_empty_line_is_undone_from_any_column() {
    let mut buffer = TextBuffer::from_str("ab");
    buffer.move_cursor_right();
    buffer.delete_char();
    buffer.delete_char();
    assert_eq!(buffer.text(), "");
    assert_eq!(at(&buffer), (0, 1));
    buffer.insert_char('x');
    assert_eq!(buffer.text(), "x");
    assert_eq!(at(&buffer), (0, 2));
    buffer.backspace();
    assert_eq!(buffer.text(), "");
    assert_eq!(at(&buffer), (0, 1));
}

#[test]
fn backspace_at_line_start_takes_one_line_away() {
    for s in texts(&['a', '\n', '\r'], 6) {
        let text: String = s.iter().collect();
        let starts = line_starts(&s);
        for k in 1..starts.len() {
            let at_break = starts[k] - 1;
            let unsettles = at_break > 0
                && s[at_break - 1] == '\r'
                && ((s[at_break] == '\n')
                    != (at_break + 1 < s.len() && s[at_break + 1] == '\n'));
            if unsettles {
                continue;
            }
            let mut buffer = buffer_at(&text, (k, 0));
            buffer.backspace();
            assert_eq!(buffer.len_lines(), starts.len() - 1, "{:?} line {}", text, k);
            let mut joined = s.clone();
            joined.remove(at_break);
            assert_eq!(buffer.text(), joined.iter().collect::<String>());
            assert_eq!(buffer.cursor().line, k - 1);
            let seq = TextSequence::from_str(&buffer.text());
            assert_eq!(seq.line_to_char(k - 1) + buffer.cursor().column, at_break);
        }
    }
}

#[test]
fn cursor_line_stays_in_the_text_under_any_edits() {
    let keys = ['a', '\n', '\r'];
    for script in texts(&['a', '\n', '\r', 'B', 'D', 'U', 'V', 'L', 'R'], 5) {
        let mut buffer = TextBuffer::from_str("a\r\n\nb\r");
        for step in &script {
            match step {
                'B' => buffer.backspace(),
                'D' => buffer.delete_char(),
                'U' => buffer.move_cursor_up(),
                'V' => buffer.move_cursor_down(),
                'L' => buffer.move_cursor_left(),
                'R' => buffer.move_cursor_right(),
                c => {
                    assert!(keys.contains(c));
                    buffer.insert_char(*c)
                }
            }
            assert!(buffer.cursor().line < buffer.len_lines());
        }
    }
}
