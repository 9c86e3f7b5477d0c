use utilix::password_generator::{AbortCause, GenerationError, PasswordGenerator};

const SIMILAR: &str = "ilLo0O";
const SYMBOLS: &str = "!@#$%^&*()_+-=[]{}|;:,.<>?";

fn in_enabled_class(g: &PasswordGenerator, c: char) -> bool {
    (g.include_uppercase && c.is_ascii_uppercase())
        || (g.include_lowercase && c.is_ascii_lowercase())
        || (g.include_numbers && c.is_ascii_digit())
        || (g.include_symbols && SYMBOLS.contains(c))
}

fn check_password(g: &PasswordGenerator, p: &str) {
    let chars: Vec<char> = p.chars().collect();
    assert_eq!(chars.len(), g.length);
    for (i, &c) in chars.iter().enumerate() {
        assert!(in_enabled_class(g, c), "{c:?} is not from an enabled class");
        if g.exclude_similar {
            assert!(!SIMILAR.contains(c));
        }
        if !g.allow_duplicates {
            assert!(!chars[..i].contains(&c), "{c:?} repeats in {p}");
        }
        if !g.allow_sequential && i > 0 {
            let prev = chars[i - 1] as i64;
            let cur = c as i64;
            assert!(cur != prev + 1 && cur != prev - 1, "sequential pair in {p}");
        }
    }
}

#[test]
fn defaults_match_the_documented_settings() {
    let g = PasswordGenerator::new();
    assert_eq!(g.length, 12);
    assert_eq!(g.quantity, 1);
    assert!(g.include_uppercase && g.include_lowercase && g.include_numbers && g.include_symbols);
    assert!(!g.exclude_similar && !g.allow_duplicates && !g.allow_sequential);
    assert!(g.generated_password.is_empty());
    let d = PasswordGenerator::default();
    assert_eq!(d.length, 12);
}

#[test]
fn charset_holds_every_enabled_class_in_order() {
    let mut g = PasswordGenerator::new();
    let all = g.build_charset();
    assert_eq!(all.len(), 26 + 26 + 10 + 26);
    assert_eq!(all[0], 'A');
    assert_eq!(all[26], 'a');
    assert_eq!(all[52], '0');
    assert_eq!(all[62], '!');
    g.toggle_similar_characters();
    let reduced = g.build_charset();
    assert_eq!(reduced.len(), 88 - 6);
    assert!(!reduced.iter().any(|c| SIMILAR.contains(*c)));
}

#[test]
fn checker_rejects_repeats_neighbours_and_similar_glyphs() {
    let mut g = PasswordGenerator::new();
    let built = vec!['a', 'x'];
    assert!(!g.accepts_candidate(&built, 'a'));
    assert!(!g.accepts_candidate(&built, 'y'));
    assert!(!g.accepts_candidate(&built, 'w'));
    assert!(g.accepts_candidate(&built, 'q'));
    assert!(g.accepts_candidate(&built, 'O'));
    g.toggle_similar_characters();
    assert!(!g.accepts_candidate(&built, 'O'));
    g.toggle_duplicate_characters();
    g.toggle_sequential_characters();
    assert!(g.accepts_candidate(&built, 'a'));
    assert!(g.accepts_candidate(&built, 'y'));
    assert!(g.accepts_candidate(&Vec::new(), 'b'));
}

#[test]
fn default_generation_satisfies_every_constraint() {
    let mut g = PasswordGenerator::new();
    for _ in 0..50 {
        assert_eq!(g.generate_password(), Ok(()));
        let p = g.generated_password.clone();
        check_password(&g, &p);
    }
}

#[test]
fn letters_without_similar_scenario() {
    let mut g = PasswordGenerator::new();
    g.set_length(8);
    g.toggle_numbers();
    g.toggle_symbols();
    g.toggle_similar_characters();
    assert!(g.include_uppercase && g.include_lowercase && !g.include_numbers && !g.include_symbols);
    assert!(g.exclude_similar && !g.allow_duplicates && !g.allow_sequential);
    for _ in 0..100 {
        assert_eq!(g.generate_password(), Ok(()));
        let p = g.generated_password.clone();
        assert_eq!(p.chars().count(), 8);
        assert!(p.chars().all(|c| c.is_ascii_alphabetic() && !SIMILAR.contains(c)));
        check_password(&g, &p);
    }
}

#[test]
fn twenty_unique_digits_are_unsatisfiable() {
    let mut g = PasswordGenerator::new();
    g.toggle_uppercase();
    g.toggle_lowercase();
    g.toggle_symbols();
    g.set_length(20);
    g.generated_password = String::from("previous");
    assert_eq!(g.generate_password(), Err(GenerationError::Unsatisfiable));
    assert_eq!(g.generated_password, "previous");
}

#[test]
fn ten_unique_digits_use_every_digit() {
    let mut g = PasswordGenerator::new();
    g.toggle_uppercase();
    g.toggle_lowercase();
    g.toggle_symbols();
    g.toggle_sequential_characters();
    g.set_length(10);
    assert_eq!(g.generate_password(), Ok(()));
    let mut digits: Vec<char> = g.generated_password.chars().collect();
    digits.sort();
    assert_eq!(digits.into_iter().collect::<String>(), "0123456789");
}

#[test]
fn no_class_gives_empty_alphabet() {
    let mut g = PasswordGenerator::new();
    g.toggle_uppercase();
    g.toggle_lowercase();
    g.toggle_numbers();
    g.toggle_symbols();
    assert!(g.build_charset().is_empty());
    assert_eq!(g.generate_password(), Err(GenerationError::EmptyAlphabet));
    assert!(g.generated_password.is_empty());
}

#[test]
fn duplicates_allowed_can_exceed_the_alphabet() {
    let mut g = PasswordGenerator::new();
    g.toggle_uppercase();
    g.toggle_lowercase();
    g.toggle_symbols();
    g.toggle_duplicate_characters();
    g.toggle_sequential_characters();
    g.set_length(40);
    assert_eq!(g.generate_password(), Ok(()));
    assert_eq!(g.generated_password.chars().count(), 40);
    assert!(g.generated_password.chars().all(|c| c.is_ascii_digit()));
}

#[test]
fn batch_returns_quantity_valid_passwords() {
    let mut g = PasswordGenerator::new();
    g.set_quantity(5);
    let batch = g.generate_multiple_passwords().unwrap();
    assert_eq!(batch.len(), 5);
    for p in &batch {
        check_password(&g, p);
    }
    assert_eq!(&g.generated_password, batch.last().unwrap());
    assert_eq!(g.quantity, 5);
}

#[test]
fn batch_aborts_on_empty_alphabet() {
    let mut g = PasswordGenerator::new();
    g.toggle_uppercase();
    g.toggle_lowercase();
    g.toggle_numbers();
    g.toggle_symbols();
    g.set_quantity(3);
    assert_eq!(
        g.generate_multiple_passwords(),
        Err(GenerationError::BatchAborted { at_index: 0, cause: AbortCause::EmptyAlphabet })
    );
}

#[test]
fn batch_aborts_when_unsatisfiable() {
    let mut g = PasswordGenerator::new();
    g.toggle_uppercase();
    g.toggle_lowercase();
    g.toggle_symbols();
    g.set_length(11);
    g.set_quantity(2);
    assert_eq!(
        g.generate_multiple_passwords(),
        Err(GenerationError::BatchAborted { at_index: 0, cause: AbortCause::Unsatisfiable })
    );
    assert!(g.generated_password.is_empty());
}

#[test]
fn batch_with_every_draw_acceptable_succeeds() {
    let mut g = PasswordGenerator::new();
    g.toggle_uppercase();
    g.toggle_lowercase();
    g.toggle_symbols();
    g.toggle_duplicate_characters();
    g.toggle_sequential_characters();
    g.set_length(30);
    g.set_quantity(4);
    let batch = g.generate_multiple_passwords().unwrap();
    assert_eq!(batch.len(), 4);
    for p in &batch {
        assert_eq!(p.chars().count(), 30);
        assert!(p.chars().all(|c| c.is_ascii_digit()));
    }
}

#[test]
fn decrements_stop_at_one() {
    let mut g = PasswordGenerator::new();
    g.set_length(1);
    g.decrease_length();
    assert_eq!(g.length, 1);
    g.decrease_quantity();
    assert_eq!(g.quantity, 1);
    g.increase_length();
    g.increase_quantity();
    assert_eq!((g.length, g.quantity), (2, 2));
    g.decrease_length();
    g.decrease_quantity();
    assert_eq!((g.length, g.quantity), (1, 1));
    g.set_quantity(0);
    assert_eq!(g.quantity, 1);
    g.set_length(0);
    assert_eq!(g.length, 1);
    g.length = usize::MAX;
    g.increase_length();
    assert_eq!(g.length, usize::MAX);
}

#[test]
fn toggles_flip_one_setting_and_clear_keeps_them() {
    let mut g = PasswordGenerator::new();
    g.toggle_uppercase();
    assert!(!g.include_uppercase);
    g.toggle_uppercase();
    assert!(g.include_uppercase);
    g.toggle_duplicate_characters();
    assert!(g.allow_duplicates);
    g.toggle_sequential_characters();
    assert!(g.allow_sequential);
    g.generate_password().unwrap();
    assert!(!g.generated_password.is_empty());
    g.clear_password();
    assert!(g.generated_password.is_empty());
    assert!(g.allow_duplicates && g.allow_sequential);
}

#[test]
fn select_candidate_takes_the_first_acceptable_draw() {
    let g = PasswordGenerator::new();
    let alphabet = g.build_charset();
    assert_eq!(alphabet[26], 'a');
    let built = vec!['a'];
    assert_eq!(g.select_candidate(&alphabet, &built, &vec![26, 27, 30, 31]), Some('e'));
    assert_eq!(g.select_candidate(&alphabet, &built, &vec![26, 27, 26]), None);
    assert_eq!(g.select_candidate(&alphabet, &built, &Vec::new()), None);
    assert_eq!(g.select_candidate(&alphabet, &Vec::new(), &vec![26]), Some('a'));
}
