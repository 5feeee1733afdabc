//! The vocabulary: three fixed lists of lowercase words.

use crate::case::is_lowercase;
use vstd::prelude::*;

verus! {

/// The words that come first in an identifier.
pub const ADJECTIVES: [&'static str; 48] = [
    "able", "brave", "calm", "chatty", "clever", "cool", "cuddly", "curly",
    "dark", "eager", "early", "fair", "fancy", "fast", "fluffy", "funny",
    "gentle", "giant", "happy", "honest", "humble", "icy", "jolly", "kind",
    "large", "lazy", "lively", "lucky", "mighty", "modern", "neat", "odd",
    "polite", "proud", "purple", "quick", "quiet", "rare", "shiny", "silly",
    "slimy", "smart", "tame", "tidy", "tiny", "warm", "wise", "young",
];

/// The words that come second in an identifier.
pub const NOUNS: [&'static str; 48] = [
    "ants", "apes", "bats", "bears", "bees", "birds", "cats", "clowns",
    "cows", "crabs", "deer", "dogs", "donkeys", "doves", "ducks", "eagles",
    "eels", "foxes", "frogs", "geese", "goats", "hawks", "horses", "lions",
    "lizards", "llamas", "mice", "moles", "moose", "otters", "owls", "pandas",
    "parrots", "pigs", "ponies", "rabbits", "rats", "ravens", "seals", "sharks",
    "sheep", "snails", "snakes", "spiders", "tigers", "turtles", "wolves", "wombats",
];

/// The words that come last in an identifier.
pub const VERBS: [&'static str; 48] = [
    "agree", "argue", "arrive", "attack", "bake", "bathe", "beg", "behave",
    "boil", "bow", "brush", "buy", "care", "carry", "chew", "clap",
    "cough", "cry", "dance", "decide", "dream", "dress", "drive", "drum",
    "eat", "enjoy", "explain", "fail", "fetch", "fly", "greet", "grin",
    "hide", "hug", "jog", "juggle", "jump", "kick", "kiss", "knock",
    "laugh", "lie", "listen", "march", "nail", "play", "retire", "sing",
];

/// A word is a non-empty run of lowercase ASCII letters.
pub open spec fn is_word(s: Seq<char>) -> bool {
    s.len() > 0 && is_lowercase(s)
}

/// A vocabulary is a non-empty list of words.
pub open spec fn is_vocabulary(list: Seq<&'static str>) -> bool {
    &&& list.len() > 0
    &&& forall|i: int| 0 <= i < list.len() ==> is_word(#[trigger] list[i]@)
}

/// No word stands in both lists.
pub open spec fn disjoint(left: Seq<&'static str>, right: Seq<&'static str>) -> bool {
    forall|i: int, j: int|
        0 <= i < left.len() && 0 <= j < right.len() ==> #[trigger] left[i]@ != #[trigger] right[j]@
}

/// Each of the three lists is a vocabulary, and no word stands in two of them.
pub proof fn lemma_vocabulary_is_sound()
    ensures
        is_vocabulary(ADJECTIVES@),
        is_vocabulary(NOUNS@),
        is_vocabulary(VERBS@),
        disjoint(ADJECTIVES@, NOUNS@),
        disjoint(ADJECTIVES@, VERBS@),
        disjoint(NOUNS@, VERBS@),
{
    reveal_strlit("able");
    assert(is_word(ADJECTIVES@[0]@));
    reveal_strlit("brave");
    assert(is_word(ADJECTIVES@[1]@));
    reveal_strlit("calm");
    assert(is_word(ADJECTIVES@[2]@));
    reveal_strlit("chatty");
    assert(is_word(ADJECTIVES@[3]@));
    reveal_strlit("clever");
    assert(is_word(ADJECTIVES@[4]@));
    reveal_strlit("cool");
    assert(is_word(ADJECTIVES@[5]@));
    reveal_strlit("cuddly");
    assert(is_word(ADJECTIVES@[6]@));
    reveal_strlit("curly");
    assert(is_word(ADJECTIVES@[7]@));
    reveal_strlit("dark");
    assert(is_word(ADJECTIVES@[8]@));
    reveal_strlit("eager");
    assert(is_word(ADJECTIVES@[9]@));
    reveal_strlit("early");
    assert(is_word(ADJECTIVES@[10]@));
    reveal_strlit("fair");
    assert(is_word(ADJECTIVES@[11]@));
    reveal_strlit("fancy");
    assert(is_word(ADJECTIVES@[12]@));
    reveal_strlit("fast");
    assert(is_word(ADJECTIVES@[13]@));
    reveal_strlit("fluffy");
    assert(is_word(ADJECTIVES@[14]@));
    reveal_strlit("funny");
    assert(is_word(ADJECTIVES@[15]@));
    reveal_strlit("gentle");
    assert(is_word(ADJECTIVES@[16]@));
    reveal_strlit("giant");
    assert(is_word(ADJECTIVES@[17]@));
    reveal_strlit("happy");
    assert(is_word(ADJECTIVES@[18]@));
    reveal_strlit("honest");
    assert(is_word(ADJECTIVES@[19]@));
    reveal_strlit("humble");
    assert(is_word(ADJECTIVES@[20]@));
    reveal_strlit("icy");
    assert(is_word(ADJECTIVES@[21]@));
    reveal_strlit("jolly");
    assert(is_word(ADJECTIVES@[22]@));
    reveal_strlit("kind");
    assert(is_word(ADJECTIVES@[23]@));
    reveal_strlit("large");
    assert(is_word(ADJECTIVES@[24]@));
    reveal_strlit("lazy");
    assert(is_word(ADJECTIVES@[25]@));
    reveal_strlit("lively");
    assert(is_word(ADJECTIVES@[26]@));
    reveal_strlit("lucky");
    assert(is_word(ADJECTIVES@[27]@));
    reveal_strlit("mighty");
    assert(is_word(ADJECTIVES@[28]@));
    reveal_strlit("modern");
    assert(is_word(ADJECTIVES@[29]@));
    reveal_strlit("neat");
    assert(is_word(ADJECTIVES@[30]@));
    reveal_strlit("odd");
    assert(is_word(ADJECTIVES@[31]@));
    reveal_strlit("polite");
    assert(is_word(ADJECTIVES@[32]@));
    reveal_strlit("proud");
    assert(is_word(ADJECTIVES@[33]@));
    reveal_strlit("purple");
    assert(is_word(ADJECTIVES@[34]@));
    reveal_strlit("quick");
    assert(is_word(ADJECTIVES@[35]@));
    reveal_strlit("quiet");
    assert(is_word(ADJECTIVES@[36]@));
    reveal_strlit("rare");
    assert(is_word(ADJECTIVES@[37]@));
    reveal_strlit("shiny");
    assert(is_word(ADJECTIVES@[38]@));
    reveal_strlit("silly");
    assert(is_word(ADJECTIVES@[39]@));
    reveal_strlit("slimy");
    assert(is_word(ADJECTIVES@[40]@));
    reveal_strlit("smart");
    assert(is_word(ADJECTIVES@[41]@));
    reveal_strlit("tame");
    assert(is_word(ADJECTIVES@[42]@));
    reveal_strlit("tidy");
    assert(is_word(ADJECTIVES@[43]@));
    reveal_strlit("tiny");
    assert(is_word(ADJECTIVES@[44]@));
    reveal_strlit("warm");
    assert(is_word(ADJECTIVES@[45]@));
    reveal_strlit("wise");
    assert(is_word(ADJECTIVES@[46]@));
    reveal_strlit("young");
    assert(is_word(ADJECTIVES@[47]@));
    reveal_strlit("ants");
    assert(is_word(NOUNS@[0]@));
    reveal_strlit("apes");
    assert(is_word(NOUNS@[1]@));
    reveal_strlit("bats");
    assert(is_word(NOUNS@[2]@));
    reveal_strlit("bears");
    assert(is_word(NOUNS@[3]@));
    reveal_strlit("bees");
    assert(is_word(NOUNS@[4]@));
    reveal_strlit("birds");
    assert(is_word(NOUNS@[5]@));
    reveal_strlit("cats");
    assert(is_word(NOUNS@[6]@));
    reveal_strlit("clowns");
    assert(is_word(NOUNS@[7]@));
    reveal_strlit("cows");
    assert(is_word(NOUNS@[8]@));
    reveal_strlit("crabs");
    assert(is_word(NOUNS@[9]@));
    reveal_strlit("deer");
    assert(is_word(NOUNS@[10]@));
    reveal_strlit("dogs");
    assert(is_word(NOUNS@[11]@));
    reveal_strlit("donkeys");
    assert(is_word(NOUNS@[12]@));
    reveal_strlit("doves");
    assert(is_word(NOUNS@[13]@));
    reveal_strlit("ducks");
    assert(is_word(NOUNS@[14]@));
    reveal_strlit("eagles");
    assert(is_word(NOUNS@[15]@));
    reveal_strlit("eels");
    assert(is_word(NOUNS@[16]@));
    reveal_strlit("foxes");
    assert(is_word(NOUNS@[17]@));
    reveal_strlit("frogs");
    assert(is_word(NOUNS@[18]@));
    reveal_strlit("geese");
    assert(is_word(NOUNS@[19]@));
    reveal_strlit("goats");
    assert(is_word(NOUNS@[20]@));
    reveal_strlit("hawks");
    assert(is_word(NOUNS@[21]@));
    reveal_strlit("horses");
    assert(is_word(NOUNS@[22]@));
    reveal_strlit("lions");
    assert(is_word(NOUNS@[23]@));
    reveal_strlit("lizards");
    assert(is_word(NOUNS@[24]@));
    reveal_strlit("llamas");
    assert(is_word(NOUNS@[25]@));
    reveal_strlit("mice");
    assert(is_word(NOUNS@[26]@));
    reveal_strlit("moles");
    assert(is_word(NOUNS@[27]@));
    reveal_strlit("moose");
    assert(is_word(NOUNS@[28]@));
    reveal_strlit("otters");
    assert(is_word(NOUNS@[29]@));
    reveal_strlit("owls");
    assert(is_word(NOUNS@[30]@));
    reveal_strlit("pandas");
    assert(is_word(NOUNS@[31]@));
    reveal_strlit("parrots");
    assert(is_word(NOUNS@[32]@));
    reveal_strlit("pigs");
    assert(is_word(NOUNS@[33]@));
    reveal_strlit("ponies");
    assert(is_word(NOUNS@[34]@));
    reveal_strlit("rabbits");
    assert(is_word(NOUNS@[35]@));
    reveal_strlit("rats");
    assert(is_word(NOUNS@[36]@));
    reveal_strlit("ravens");
    assert(is_word(NOUNS@[37]@));
    reveal_strlit("seals");
    assert(is_word(NOUNS@[38]@));
    reveal_strlit("sharks");
    assert(is_word(NOUNS@[39]@));
    reveal_strlit("sheep");
    assert(is_word(NOUNS@[40]@));
    reveal_strlit("snails");
    assert(is_word(NOUNS@[41]@));
    reveal_strlit("snakes");
    assert(is_word(NOUNS@[42]@));
    reveal_strlit("spiders");
    assert(is_word(NOUNS@[43]@));
    reveal_strlit("tigers");
    assert(is_word(NOUNS@[44]@));
    reveal_strlit("turtles");
    assert(is_word(NOUNS@[45]@));
    reveal_strlit("wolves");
    assert(is_word(NOUNS@[46]@));
    reveal_strlit("wombats");
    assert(is_word(NOUNS@[47]@));
    reveal_strlit("agree");
    assert(is_word(VERBS@[0]@));
    reveal_strlit("argue");
    assert(is_word(VERBS@[1]@));
    reveal_strlit("arrive");
    assert(is_word(VERBS@[2]@));
    reveal_strlit("attack");
    assert(is_word(VERBS@[3]@));
    reveal_strlit("bake");
    assert(is_word(VERBS@[4]@));
    reveal_strlit("bathe");
    assert(is_word(VERBS@[5]@));
    reveal_strlit("beg");
    assert(is_word(VERBS@[6]@));
    reveal_strlit("behave");
    assert(is_word(VERBS@[7]@));
    reveal_strlit("boil");
    assert(is_word(VERBS@[8]@));
    reveal_strlit("bow");
    assert(is_word(VERBS@[9]@));
    reveal_strlit("brush");
    assert(is_word(VERBS@[10]@));
    reveal_strlit("buy");
    assert(is_word(VERBS@[11]@));
    reveal_strlit("care");
    assert(is_word(VERBS@[12]@));
    reveal_strlit("carry");
    assert(is_word(VERBS@[13]@));
    reveal_strlit("chew");
    assert(is_word(VERBS@[14]@));
    reveal_strlit("clap");
    assert(is_word(VERBS@[15]@));
    reveal_strlit("cough");
    assert(is_word(VERBS@[16]@));
    reveal_strlit("cry");
    assert(is_word(VERBS@[17]@));
    reveal_strlit("dance");
    assert(is_word(VERBS@[18]@));
    reveal_strlit("decide");
    assert(is_word(VERBS@[19]@));
    reveal_strlit("dream");
    assert(is_word(VERBS@[20]@));
    reveal_strlit("dress");
    assert(is_word(VERBS@[21]@));
    reveal_strlit("drive");
    assert(is_word(VERBS@[22]@));
    reveal_strlit("drum");
    assert(is_word(VERBS@[23]@));
    reveal_strlit("eat");
    assert(is_word(VERBS@[24]@));
    reveal_strlit("enjoy");
    assert(is_word(VERBS@[25]@));
    reveal_strlit("explain");
    assert(is_word(VERBS@[26]@));
    reveal_strlit("fail");
    assert(is_word(VERBS@[27]@));
    reveal_strlit("fetch");
    assert(is_word(VERBS@[28]@));
    reveal_strlit("fly");
    assert(is_word(VERBS@[29]@));
    reveal_strlit("greet");
    assert(is_word(VERBS@[30]@));
    reveal_strlit("grin");
    assert(is_word(VERBS@[31]@));
    reveal_strlit("hide");
    assert(is_word(VERBS@[32]@));
    reveal_strlit("hug");
    assert(is_word(VERBS@[33]@));
    reveal_strlit("jog");
    assert(is_word(VERBS@[34]@));
    reveal_strlit("juggle");
    assert(is_word(VERBS@[35]@));
    reveal_strlit("jump");
    assert(is_word(VERBS@[36]@));
    reveal_strlit("kick");
    assert(is_word(VERBS@[37]@));
    reveal_strlit("kiss");
    assert(is_word(VERBS@[38]@));
    reveal_strlit("knock");
    assert(is_word(VERBS@[39]@));
    reveal_strlit("laugh");
    assert(is_word(VERBS@[40]@));
    reveal_strlit("lie");
    assert(is_word(VERBS@[41]@));
    reveal_strlit("listen");
    assert(is_word(VERBS@[42]@));
    reveal_strlit("march");
    assert(is_word(VERBS@[43]@));
    reveal_strlit("nail");
    assert(is_word(VERBS@[44]@));
    reveal_strlit("play");
    assert(is_word(VERBS@[45]@));
    reveal_strlit("retire");
    assert(is_word(VERBS@[46]@));
    reveal_strlit("sing");
    assert(is_word(VERBS@[47]@));
    // Equal words would agree in length and in each of their first seven letters,
    // which is as long as the words of the vocabulary get.
    assert forall|i: int, j: int| 0 <= i < ADJECTIVES@.len() && 0 <= j < NOUNS@.len() implies
        #[trigger] ADJECTIVES@[i]@ != #[trigger] NOUNS@[j]@ by {
        let a = ADJECTIVES@[i]@;
        let b = NOUNS@[j]@;
        if a == b {
            assert(a.len() == b.len());
            assert(a[0] == b[0] && a[1] == b[1] && a[2] == b[2]);
            assert(a[3] == b[3] && a[4] == b[4] && a[5] == b[5] && a[6] == b[6]);
        }
    }
    assert forall|i: int, j: int| 0 <= i < ADJECTIVES@.len() && 0 <= j < VERBS@.len() implies
        #[trigger] ADJECTIVES@[i]@ != #[trigger] VERBS@[j]@ by {
        let a = ADJECTIVES@[i]@;
        let b = VERBS@[j]@;
        if a == b {
            assert(a.len() == b.len());
            assert(a[0] == b[0] && a[1] == b[1] && a[2] == b[2]);
            assert(a[3] == b[3] && a[4] == b[4] && a[5] == b[5] && a[6] == b[6]);
        }
    }
    assert forall|i: int, j: int| 0 <= i < NOUNS@.len() && 0 <= j < VERBS@.len() implies
        #[trigger] NOUNS@[i]@ != #[trigger] VERBS@[j]@ by {
        let a = NOUNS@[i]@;
        let b = VERBS@[j]@;
        if a == b {
            assert(a.len() == b.len());
            assert(a[0] == b[0] && a[1] == b[1] && a[2] == b[2]);
            assert(a[3] == b[3] && a[4] == b[4] && a[5] == b[5] && a[6] == b[6]);
        }
    }
}

} // verus!
