use human_id::words::{ADJECTIVES, NOUNS, VERBS};

fn is_word(word: &str) -> bool {
    !word.is_empty() && word.chars().all(|c| c.is_ascii_lowercase())
}

#[test]
fn no_list_is_empty() {
    assert!(!ADJECTIVES.is_empty());
    assert!(!NOUNS.is_empty());
    assert!(!VERBS.is_empty());
}

#[test]
fn every_entry_is_a_lowercase_word() {
    for word in ADJECTIVES.iter().chain(NOUNS.iter()).chain(VERBS.iter()) {
        assert!(is_word(word), "{}", word);
    }
}

#[test]
fn the_lists_share_no_word() {
    for adjective in ADJECTIVES.iter() {
        assert!(!NOUNS.contains(adjective), "{}", adjective);
        assert!(!VERBS.contains(adjective), "{}", adjective);
    }
    for noun in NOUNS.iter() {
        assert!(!VERBS.contains(noun), "{}", noun);
    }
}

#[test]
fn the_lists_hold_the_words_of_the_examples() {
    assert!(ADJECTIVES.contains(&"tame"));
    assert!(NOUNS.contains(&"lions"));
    assert!(VERBS.contains(&"retire"));
    assert!(ADJECTIVES.contains(&"chatty"));
    assert!(NOUNS.contains(&"wombats"));
    assert!(VERBS.contains(&"care"));
}
