use human_id::generator::compose;

#[test]
fn compose_joins_with_a_dash() {
    assert_eq!(compose("tame", "lions", "retire", "-", false), "tame-lions-retire");
}

#[test]
fn compose_capitalises_each_word() {
    assert_eq!(compose("chatty", "wombats", "care", "", true), "ChattyWombatsCare");
    assert_eq!(compose("tame", "lions", "retire", "-", true), "Tame-Lions-Retire");
}

#[test]
fn compose_with_an_empty_separator_puts_nothing_between() {
    assert_eq!(compose("tame", "lions", "retire", "", false), "tamelionsretire");
    assert_eq!(compose("tame", "lions", "retire", "", false).len(), 4 + 5 + 6);
}

#[test]
fn compose_takes_any_separator() {
    assert_eq!(compose("odd", "owls", "sing", "::", false), "odd::owls::sing");
    assert_eq!(compose("odd", "owls", "sing", " ", true), "Odd Owls Sing");
    assert_eq!(compose("odd", "owls", "sing", "é山", false), "oddé山owlsé山sing");
    assert_eq!(compose("odd", "owls", "sing", "T", true), "OddTOwlsTSing");
}

#[test]
fn compose_puts_the_separator_twice_and_never_at_an_end() {
    let text = compose("odd", "owls", "sing", "--", false);
    assert_eq!(text.matches("--").count(), 2);
    assert!(!text.starts_with("--"));
    assert!(!text.ends_with("--"));
}

#[test]
fn compose_keeps_the_order_of_the_words() {
    assert_eq!(compose("a", "b", "c", "-", false), "a-b-c");
    assert_eq!(compose("c", "b", "a", "-", false), "c-b-a");
}

#[test]
fn compose_takes_words_outside_the_vocabulary() {
    assert_eq!(compose("", "", "", "-", true), "--");
    assert_eq!(compose("ßa", "Ant", "1x", "+", true), "SSa+Ant+1x");
    assert_eq!(compose("ßa", "Ant", "1x", "+", false), "ßa+Ant+1x");
}

#[test]
fn compose_splits_back_on_a_separator_that_no_word_holds() {
    for capital in [false, true] {
        for separator in ["-", "--", "-a-", "a-", "é", "1", " "] {
            let text = compose("tame", "lions", "retire", separator, capital);
            let first = compose("tame", "", "", "", capital);
            let second = compose("", "lions", "", "", capital);
            let third = compose("", "", "retire", "", capital);
            let parts = text.split(separator).collect::<Vec<&str>>();
            assert_eq!(parts, vec![first.as_str(), second.as_str(), third.as_str()]);
        }
    }
}

#[test]
fn compose_does_not_split_back_on_a_separator_found_in_a_word() {
    let text = compose("tame", "lions", "retire", "T", true);
    assert_eq!(text, "TameTLionsTRetire");
    assert_eq!(text.split("T").collect::<Vec<&str>>(), vec!["", "ame", "Lions", "Retire"]);
    let text = compose("tame", "lions", "retire", "on", false);
    assert_eq!(text.split("on").collect::<Vec<&str>>(), vec!["tame", "li", "s", "retire"]);
}

#[test]
fn compose_splits_back_on_letters_that_meet_no_word() {
    let text = compose("tame", "ants", "agree", "aa", false);
    assert_eq!(text, "tameaaantsaaagree");
    assert_eq!(text.split("aa").collect::<Vec<&str>>(), vec!["tame", "ants", "agree"]);
}
