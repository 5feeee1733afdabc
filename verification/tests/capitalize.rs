use human_id::case::{capitalize, replace_first};

#[test]
fn capitalize_of_the_empty_string_is_empty() {
    assert_eq!(capitalize(""), "");
}

#[test]
fn capitalize_turns_ant_into_a_capitalised_ant() {
    assert_eq!(capitalize("ant"), "Ant");
}

#[test]
fn capitalize_touches_only_the_first_character() {
    assert_eq!(capitalize("wombats"), "Wombats");
    assert_eq!(capitalize("aaa"), "Aaa");
    assert_eq!(capitalize("z"), "Z");
    assert_eq!(capitalize("tame lions"), "Tame lions");
}

#[test]
fn capitalize_leaves_what_has_no_uppercase_form() {
    assert_eq!(capitalize("Ant"), "Ant");
    assert_eq!(capitalize("1ant"), "1ant");
    assert_eq!(capitalize("-ant"), "-ant");
    assert_eq!(capitalize(" ant"), " ant");
    assert_eq!(capitalize("山ant"), "山ant");
}

#[test]
fn capitalize_follows_unicode_beyond_ascii() {
    assert_eq!(capitalize("élan"), "Élan");
    assert_eq!(capitalize("ñu"), "Ñu");
    assert_eq!(capitalize("ωmega"), "Ωmega");
}

#[test]
fn capitalize_keeps_every_character_of_a_longer_mapping() {
    assert_eq!(capitalize("ß"), "SS");
    assert_eq!(capitalize("ßa"), "SSa");
    assert_eq!(capitalize("ﬁsh"), "FIsh");
}

#[test]
fn capitalize_never_shortens() {
    for word in ["", "a", "ant", "ßa", "山", "Ant", "é"] {
        assert!(capitalize(word).chars().count() >= word.chars().count());
    }
}

#[test]
fn replace_first_puts_the_head_before_the_rest() {
    assert_eq!(replace_first("ant", "A"), "Ant");
    assert_eq!(replace_first("ant", "XYZ"), "XYZnt");
    assert_eq!(replace_first("ant", ""), "nt");
    assert_eq!(replace_first("a", "B"), "B");
}

#[test]
fn replace_first_counts_characters_not_bytes() {
    assert_eq!(replace_first("éa", "E"), "Ea");
    assert_eq!(replace_first("山川", "x"), "x川");
}

#[test]
fn replace_first_of_the_empty_string_is_empty() {
    assert_eq!(replace_first("", "A"), "");
    assert_eq!(replace_first("", ""), "");
}
