use dosomekamas::ocr::parser::{
    normalise_stat_name, parse_stats, parse_stats_from_text, ParsedStat, StatValue,
};

/// The numeric value of a parsed stat, as the application computes it: the
/// number, or the midpoint of a range.
fn numeric_value(stat: &ParsedStat) -> f64 {
    match &stat.value {
        StatValue::Single(n) => n.parse().unwrap_or(0.0),
        StatValue::Range(lo, hi) => {
            let lo: f64 = lo.parse().unwrap_or(0.0);
            let hi: f64 = hi.parse().unwrap_or(0.0);
            (lo + hi) / 2.0
        }
    }
}

#[test]
fn test_parse_simple_positive_stat() {
    let text = "+15 Force";
    let result = parse_stats(text);
    assert_eq!(result.stats.len(), 1);
    let s = &result.stats[0];
    assert_eq!(s.name, "Force");
    assert!((numeric_value(s) - 15.0).abs() < f64::EPSILON);
    assert!(!s.is_negative);
}

#[test]
fn test_parse_simple_negative_stat() {
    let text = "-5 Intelligence";
    let result = parse_stats(text);
    assert_eq!(result.stats.len(), 1);
    let s = &result.stats[0];
    assert_eq!(s.name, "Intelligence");
    assert!((numeric_value(s) - 5.0).abs() < f64::EPSILON);
    assert!(s.is_negative);
}

#[test]
fn test_parse_range_stat_midpoint() {
    let text = "10 à 20 Sagesse";
    let result = parse_stats(text);
    assert_eq!(result.stats.len(), 1);
    let s = &result.stats[0];
    assert_eq!(s.name, "Sagesse");
    assert!((numeric_value(s) - 15.0).abs() < f64::EPSILON);
    assert!(!s.is_negative);
}

#[test]
fn test_parse_multiple_stats() {
    let text = "+15 Force\n-5 Intelligence\n10 à 20 Sagesse";
    let result = parse_stats(text);
    assert_eq!(result.stats.len(), 3);
}

#[test]
fn test_item_name_detected() {
    let text = "Chapeau du Bouftou\n+15 Force\n+10 Vitalité";
    let result = parse_stats(text);
    assert_eq!(result.item_name, Some("Chapeau du Bouftou".to_string()));
}

#[test]
fn test_empty_text_returns_empty_stats() {
    let result = parse_stats("");
    assert!(result.stats.is_empty());
    assert!(result.item_name.is_none());
}

#[test]
fn test_parse_stats_from_text_command() {
    let result = parse_stats_from_text("+20 Chance".into()).unwrap();
    assert_eq!(result.stats.len(), 1);
    assert_eq!(result.stats[0].name, "Chance");
}

#[test]
fn test_negative_range_stat() {
    let text = "-10 à 20 Sagesse";
    let result = parse_stats(text);
    assert_eq!(result.stats.len(), 1);
    let s = &result.stats[0];
    assert!(s.is_negative);
    assert!((numeric_value(s) - 15.0).abs() < f64::EPSILON);
}

#[test]
fn range_stat_keeps_both_numbers_as_written() {
    let result = parse_stats("10 à 20 Sagesse");
    assert_eq!(
        result.stats[0].value,
        StatValue::Range("10".to_string(), "20".to_string())
    );
}

#[test]
fn simple_line_with_a_ranged_label_is_not_repeated() {
    // The ranged pass finds Sagesse first; a simple line with the same label
    // is then left out.
    let result = parse_stats("10 à 20 Sagesse\n+5 Sagesse\n+3 Force");
    assert_eq!(result.stats.len(), 2);
    assert_eq!(result.stats[0].name, "Sagesse");
    assert_eq!(result.stats[1].name, "Force");
    assert_eq!(result.stats[1].value, StatValue::Single("3".to_string()));
}

#[test]
fn ranged_stats_come_before_simple_ones() {
    let result = parse_stats("+15 Force\n10 à 20 Sagesse");
    assert_eq!(result.stats.len(), 2);
    assert_eq!(result.stats[0].name, "Sagesse");
    assert_eq!(result.stats[1].name, "Force");
}

#[test]
fn item_name_skips_blank_and_digit_lines() {
    let result = parse_stats("\n   \n2 Bouftous\n  Coiffe du Bouftou  \n+15 Force");
    assert_eq!(result.item_name, Some("Coiffe du Bouftou".to_string()));
}

#[test]
fn text_without_name_line_has_no_item_name() {
    let result = parse_stats("+15 Force\n-5 Intelligence");
    assert!(result.item_name.is_none());
    assert_eq!(result.stats.len(), 2);
}

#[test]
fn normalise_maps_case_variants_to_known_labels() {
    assert_eq!(normalise_stat_name("  force "), "Force");
    assert_eq!(normalise_stat_name("PM"), "PM");
    assert_eq!(normalise_stat_name("sagesse"), "Sagesse");
}

#[test]
fn normalise_matches_fragments_of_known_labels() {
    // A lower-case fragment of a known label picks the first label holding it.
    assert_eq!(normalise_stat_name("sistance feu"), "% Résistance Feu");
    assert_eq!(normalise_stat_name("tali"), "Vitalité");
}

#[test]
fn carriage_returns_before_line_feeds_are_dropped() {
    let result = parse_stats("Coiffe\r\n+15 Force\r\n");
    assert_eq!(result.item_name, Some("Coiffe".to_string()));
    assert_eq!(result.stats.len(), 1);
}

#[test]
fn known_labels_are_their_own_canonical_form() {
    let labels = [
        "Force", "Intelligence", "Chance", "Agilité", "Vitalité", "Sagesse",
        "Puissance", "Dommages", "Soins", "PA", "PM", "Portée", "Invocations",
        "Prospection", "Initiative", "Pods", "% Résistance Terre", "% Résistance Feu",
        "% Résistance Eau", "% Résistance Air", "% Résistance Neutre",
        "Résistance Terre", "Résistance Feu", "Résistance Eau", "Résistance Air",
        "Résistance Neutre", "Esquive PA", "Esquive PM", "Retrait PA", "Retrait PM",
        "Tacle", "Fuite",
    ];
    for label in labels {
        assert_eq!(normalise_stat_name(label), label);
        assert_eq!(normalise_stat_name(&normalise_stat_name(label)), label);
    }
}

#[test]
fn flat_resistance_stays_flat() {
    assert_eq!(normalise_stat_name("résistance feu"), "Résistance Feu");
    assert_eq!(normalise_stat_name(" \tRésistance Terre\u{a0}"), "Résistance Terre");
    let result = parse_stats("12 Résistance Feu\n+5 % Résistance Feu");
    assert_eq!(result.stats.len(), 2);
    assert_eq!(result.stats[0].name, "Résistance Feu");
    assert_eq!(result.stats[1].name, "% Résistance Feu");
}

#[test]
fn repeated_simple_label_is_kept_once() {
    let result = parse_stats("+15 Force\n+10 Force");
    assert_eq!(result.stats.len(), 1);
    assert_eq!(result.stats[0].name, "Force");
    assert!((numeric_value(&result.stats[0]) - 15.0).abs() < f64::EPSILON);
    assert!(!result.stats[0].is_negative);
}

#[test]
fn normalise_keeps_unknown_labels_trimmed() {
    assert_eq!(normalise_stat_name("  Bouclier  "), "Bouclier");
}
