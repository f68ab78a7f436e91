use vaajoor_solver::errors::SolveError;
use vaajoor_solver::feedback::{Color, VaagoorResponse, Word};

#[test]
fn color_try_from_decodes_each_code() {
    assert_eq!(Color::try_from('r'), Ok(Color::Red));
    assert_eq!(Color::try_from('y'), Ok(Color::Yellow));
    assert_eq!(Color::try_from('g'), Ok(Color::Green));
}

#[test]
fn color_try_from_rejects_unknown_code() {
    assert_eq!(Color::try_from('x'), Err(SolveError::MalformedFeedback));
    assert_eq!(Color::try_from('G'), Err(SolveError::MalformedFeedback));
    assert_eq!(Color::try_from(' '), Err(SolveError::MalformedFeedback));
}

#[test]
fn word_new_builds_aligned_characters() {
    let codes = vec!['g', 'y', 'r', 'g', 'y'];
    let word = Word::new("crane", &codes).unwrap();
    for (i, c) in word.characters.iter().enumerate() {
        assert_eq!(c.index, i);
    }
    assert_eq!(word.characters[0].value, 'c');
    assert_eq!(word.characters[0].color, Color::Green);
    assert_eq!(word.characters[1].value, 'r');
    assert_eq!(word.characters[1].color, Color::Yellow);
    assert_eq!(word.characters[2].value, 'a');
    assert_eq!(word.characters[2].color, Color::Red);
    assert_eq!(word.characters[3].value, 'n');
    assert_eq!(word.characters[3].color, Color::Green);
    assert_eq!(word.characters[4].value, 'e');
    assert_eq!(word.characters[4].color, Color::Yellow);
}

#[test]
fn word_new_rejects_unknown_code() {
    // An oracle answer of codes g, g, x, r, y has an unrecognized code.
    let codes = vec!['g', 'g', 'x', 'r', 'y'];
    match Word::new("abcde", &codes) {
        Err(e) => assert_eq!(e, SolveError::MalformedFeedback),
        Ok(_) => panic!("malformed codes must be rejected"),
    }
}

#[test]
fn word_new_rejects_wrong_lengths() {
    let five = vec!['g', 'g', 'g', 'g', 'g'];
    assert!(matches!(Word::new("abcd", &five), Err(SolveError::MalformedFeedback)));
    assert!(matches!(Word::new("abcdef", &five), Err(SolveError::MalformedFeedback)));
    let four = vec!['g', 'g', 'g', 'g'];
    assert!(matches!(Word::new("abcde", &four), Err(SolveError::MalformedFeedback)));
    let six = vec!['g', 'g', 'g', 'g', 'g', 'g'];
    assert!(matches!(Word::new("abcde", &six), Err(SolveError::MalformedFeedback)));
}

#[test]
fn is_solve_only_when_all_green() {
    let all_green = vec!['g', 'g', 'g', 'g', 'g'];
    assert!(Word::new("crane", &all_green).unwrap().is_solve());
    let one_off = vec!['g', 'g', 'g', 'r', 'g'];
    assert!(!Word::new("crate", &one_off).unwrap().is_solve());
}

#[test]
fn is_green_reports_green_positions() {
    let codes = vec!['g', 'y', 'r', 'g', 'r'];
    let word = Word::new("crane", &codes).unwrap();
    assert!(word.is_green(0));
    assert!(!word.is_green(1));
    assert!(!word.is_green(2));
    assert!(word.is_green(3));
    assert!(!word.is_green(4));
    assert!(!word.is_green(7));
}

#[test]
fn is_before_green_reports_green_values() {
    // In "sassy" with s green at 0 and the rest red, only 's' was correct.
    let codes = vec!['g', 'r', 'r', 'r', 'r'];
    let word = Word::new("sassy", &codes).unwrap();
    assert!(word.is_before_green('s'));
    assert!(!word.is_before_green('a'));
    assert!(!word.is_before_green('y'));
}

#[test]
fn response_codes_lists_matches_in_order() {
    let resp = VaagoorResponse { error: false, matchs: ['g', 'y', 'r', 'g', 'y'] };
    assert_eq!(resp.codes(), vec!['g', 'y', 'r', 'g', 'y']);
}

#[test]
fn error_descriptions() {
    assert_eq!(SolveError::MalformedFeedback.describe(), "malformed oracle feedback");
    assert_eq!(SolveError::OracleError.describe(), "oracle call failed");
    assert_eq!(SolveError::ExhaustedCandidates.describe(), "candidate set exhausted");
}
