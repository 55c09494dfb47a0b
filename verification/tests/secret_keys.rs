use auth_core::secret_key::{draw_alphanumeric, generate_secret_key, text_of, SECRET_KEY_LENGTH};

#[test]
fn secret_has_fixed_length_and_alphabet() {
    for _ in 0..200 {
        let key = generate_secret_key();
        assert_eq!(key.chars().count(), 32);
        assert_eq!(key.len(), 32);
        assert!(key.chars().all(|c| c.is_ascii_alphanumeric()));
    }
}

#[test]
fn secret_length_is_thirty_two() {
    assert_eq!(SECRET_KEY_LENGTH, 32);
}

#[test]
fn successive_secrets_differ() {
    let first = generate_secret_key();
    let second = generate_secret_key();
    let third = generate_secret_key();
    assert_ne!(first, second);
    assert_ne!(second, third);
    assert_ne!(first, third);
}

#[test]
fn secrets_use_the_whole_alphabet() {
    let mut seen = [false; 128];
    for _ in 0..400 {
        for b in generate_secret_key().bytes() {
            seen[b as usize] = true;
        }
    }
    let distinct = seen.iter().filter(|s| **s).count();
    assert_eq!(distinct, 62);
}

#[test]
fn drawn_bytes_are_letters_and_digits() {
    assert_eq!(draw_alphanumeric(0), Vec::<u8>::new());
    let one = draw_alphanumeric(1);
    assert_eq!(one.len(), 1);
    let many = draw_alphanumeric(1000);
    assert_eq!(many.len(), 1000);
    assert!(many.iter().all(|b| b.is_ascii_alphanumeric()));
}

#[test]
fn text_spells_out_its_bytes() {
    assert_eq!(text_of(&vec![]), "");
    assert_eq!(text_of(&vec![65]), "A");
    assert_eq!(text_of(&vec![97, 98, 99, 48, 57, 90]), "abc09Z");
    assert_eq!(text_of(&vec![0x24, 0x32, 0x62, 0x24]), "$2b$");
    assert_eq!(text_of(&vec![0xe9]), "\u{e9}");
}
