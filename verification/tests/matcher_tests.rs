use solana_vanity::matcher::fold_char;
use solana_vanity::matcher::VanityPosition;

#[test]
fn prefix_matches_ignoring_case() {
    assert!(solana_vanity::matcher::matches("AbCdef", "abc", VanityPosition::Prefix));
    assert!(solana_vanity::matcher::matches("abcdef", "ABC", VanityPosition::Prefix));
    assert!(!solana_vanity::matcher::matches("xabcdef", "abc", VanityPosition::Prefix));
    assert!(!solana_vanity::matcher::matches("abxdef", "abc", VanityPosition::Prefix));
}

#[test]
fn suffix_matches_ignoring_case() {
    assert!(solana_vanity::matcher::matches("defXyZ", "xyz", VanityPosition::Suffix));
    assert!(solana_vanity::matcher::matches("defxyz", "XYZ", VanityPosition::Suffix));
    assert!(!solana_vanity::matcher::matches("xyzdef", "xyz", VanityPosition::Suffix));
    assert!(!solana_vanity::matcher::matches("defxyq", "xyz", VanityPosition::Suffix));
}

#[test]
fn short_address_never_matches() {
    assert!(!solana_vanity::matcher::matches("ab", "abc", VanityPosition::Prefix));
    assert!(!solana_vanity::matcher::matches("bc", "abc", VanityPosition::Suffix));
    assert!(!solana_vanity::matcher::matches("", "a", VanityPosition::Suffix));
    assert!(!solana_vanity::matcher::matches("", "a", VanityPosition::Prefix));
}

#[test]
fn whole_address_is_both_prefix_and_suffix() {
    assert!(solana_vanity::matcher::matches("AbC", "aBc", VanityPosition::Prefix));
    assert!(solana_vanity::matcher::matches("AbC", "aBc", VanityPosition::Suffix));
}

#[test]
fn empty_pattern_matches_every_address() {
    assert!(solana_vanity::matcher::matches("anything", "", VanityPosition::Prefix));
    assert!(solana_vanity::matcher::matches("anything", "", VanityPosition::Suffix));
    assert!(solana_vanity::matcher::matches("", "", VanityPosition::Prefix));
}

#[test]
fn only_ascii_letters_are_folded() {
    assert_eq!(fold_char('A'), 'a');
    assert_eq!(fold_char('Z'), 'z');
    assert_eq!(fold_char('a'), 'a');
    assert_eq!(fold_char('5'), '5');
    assert_eq!(fold_char('@'), '@');
    assert_eq!(fold_char('['), '[');
    assert_eq!(fold_char('É'), 'É');
    assert!(!solana_vanity::matcher::matches("Émile", "émi", VanityPosition::Prefix));
    assert!(solana_vanity::matcher::matches("éMILE", "Émi", VanityPosition::Prefix) == false);
    assert!(solana_vanity::matcher::matches("éMILE", "émi", VanityPosition::Prefix));
}

#[test]
fn positions_count_characters_not_bytes() {
    assert!(solana_vanity::matcher::matches("ééabc", "ABC", VanityPosition::Suffix));
    assert!(solana_vanity::matcher::matches("abcéé", "éé", VanityPosition::Suffix));
    assert!(!solana_vanity::matcher::matches("é", "abc", VanityPosition::Suffix));
}
