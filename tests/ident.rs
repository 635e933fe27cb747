use std::collections::HashSet;

use paste::ident::{generate_id, id_alphabet_chars, ID_LENGTH};

#[test]
fn alphabet_is_crockford_base32() {
    let a: String = id_alphabet_chars().into_iter().collect();
    assert_eq!(a, "0123456789ABCDEFGHJKMNPQRSTVWXYZ");
}

#[test]
fn ids_are_short_and_safe() {
    let alphabet = id_alphabet_chars();
    for _ in 0..1000 {
        let id = generate_id();
        assert_eq!(id.chars().count(), ID_LENGTH);
        assert!(id.chars().all(|c| alphabet.contains(&c)));
        assert!(!id.contains('/') && !id.contains('.'));
    }
}

#[test]
fn ids_do_not_repeat() {
    let n = 20000;
    let ids: HashSet<String> = (0..n).map(|_| generate_id()).collect();
    assert_eq!(ids.len(), n);
}
