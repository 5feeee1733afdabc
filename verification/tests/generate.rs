use human_id::case::capitalize;
use human_id::generator::compose;
use human_id::id;
use human_id::words::{ADJECTIVES, NOUNS, VERBS};
use std::collections::HashSet;

fn extract_capitals<S>(s: S, separator: Option<String>) -> String
where
    S: Into<String>,
{
    s.into()
        .chars()
        .filter_map(|c| {
            let ch = c.to_string();

            // Remove separators.
            if separator == Some(ch.to_owned()) {
                return None;
            }

            // Extract uppercased characters.
            if c.to_uppercase().collect::<String>() == ch {
                Some(c)
            } else {
                None
            }
        })
        .collect::<String>()
}

fn lowercase_first(word: &str) -> String {
    let mut chars = word.chars();
    match chars.next() {
        None => String::new(),
        Some(first) => first.to_lowercase().collect::<String>() + chars.as_str(),
    }
}

#[test]
fn it_works_with_separator_and_no_capitalize() {
    let the_id = id("-", false);
    let capitals = extract_capitals(&the_id, Some("-".to_owned()));
    let parts = the_id.split("-").collect::<Vec<&str>>();
    assert_eq!(capitals.len(), 0);
    assert_eq!(parts.len(), 3);
    assert_eq!(ADJECTIVES.contains(&parts[0]), true);
    assert_eq!(NOUNS.contains(&parts[1]), true);
    assert_eq!(VERBS.contains(&parts[2]), true);
}

#[test]
fn it_works_without_separator_and_capitalized() {
    let the_id = id("", true);
    let uppercase_chars = extract_capitals(&the_id, None);
    assert_eq!(uppercase_chars.len(), 3);
}

#[test]
fn id_splits_into_three_non_empty_words() {
    for separator in ["-", "_", " ", "::", "-a-", "é"] {
        for capital in [false, true] {
            let the_id = id(separator, capital);
            let parts = the_id.split(separator).collect::<Vec<&str>>();
            assert_eq!(parts.len(), 3, "{}", the_id);
            assert!(parts.iter().all(|part| !part.is_empty()), "{}", the_id);
        }
    }
}

#[test]
fn id_parts_come_from_their_lists_in_order() {
    for _ in 0..200 {
        let the_id = id("-", true);
        let parts = the_id.split("-").collect::<Vec<&str>>();
        assert_eq!(parts.len(), 3);
        assert!(ADJECTIVES.contains(&lowercase_first(parts[0]).as_str()), "{}", the_id);
        assert!(NOUNS.contains(&lowercase_first(parts[1]).as_str()), "{}", the_id);
        assert!(VERBS.contains(&lowercase_first(parts[2]).as_str()), "{}", the_id);
    }
}

#[test]
fn id_is_what_compose_makes_of_some_pick() {
    for (separator, capital) in [("-", false), ("", true), ("::", true), ("", false)] {
        let the_id = id(separator, capital);
        let mut found = false;
        for adjective in ADJECTIVES.iter() {
            for noun in NOUNS.iter() {
                for verb in VERBS.iter() {
                    if compose(adjective, noun, verb, separator, capital) == the_id {
                        found = true;
                    }
                }
            }
        }
        assert!(found, "{}", the_id);
    }
}

#[test]
fn id_without_capitalisation_has_no_uppercase_character() {
    for _ in 0..200 {
        let the_id = id("-", false);
        assert!(the_id.chars().all(|c| !c.is_uppercase()), "{}", the_id);
    }
}

#[test]
fn id_with_capitalisation_has_one_capital_at_the_head_of_each_word() {
    for _ in 0..200 {
        let the_id = id("-", true);
        assert_eq!(the_id.chars().filter(|c| c.is_uppercase()).count(), 3, "{}", the_id);
        for part in the_id.split("-") {
            assert!(part.chars().next().unwrap().is_ascii_uppercase(), "{}", the_id);
            assert_eq!(capitalize(&lowercase_first(part)), part);
        }
    }
}

#[test]
fn id_with_an_empty_separator_is_one_unbroken_string() {
    for _ in 0..200 {
        let the_id = id("", true);
        assert!(the_id.chars().all(|c| c.is_ascii_alphabetic()), "{}", the_id);
        assert_eq!(the_id.chars().filter(|c| c.is_ascii_uppercase()).count(), 3);
        assert!(the_id.chars().next().unwrap().is_ascii_uppercase());
    }
}

#[test]
fn id_puts_the_separator_between_the_words_only() {
    let the_id = id("--", false);
    assert_eq!(the_id.matches("--").count(), 2);
    assert!(!the_id.starts_with("--"));
    assert!(!the_id.ends_with("--"));
}

#[test]
fn id_varies_over_many_calls() {
    let mut seen = HashSet::new();
    for _ in 0..1000 {
        seen.insert(id("-", false));
    }
    assert!(seen.len() > 1);
}

#[test]
fn id_draws_each_word_on_its_own() {
    let mut adjectives = HashSet::new();
    let mut nouns = HashSet::new();
    let mut verbs = HashSet::new();
    for _ in 0..1000 {
        let the_id = id("-", false);
        let parts = the_id.split("-").map(|part| part.to_owned()).collect::<Vec<String>>();
        adjectives.insert(parts[0].clone());
        nouns.insert(parts[1].clone());
        verbs.insert(parts[2].clone());
    }
    assert!(adjectives.len() > 1);
    assert!(nouns.len() > 1);
    assert!(verbs.len() > 1);
}
