use epoch_pipeline::notes::{note_value, note_value_from, JsonNumber, NoteValue, StructuredNotes};
use epoch_pipeline::rules::{bind_captures, extract_line, extract_notes, NoteRule};
use epoch_pipeline::table::{note_rules, read_epoch_notes};

fn lines(items: &[&str]) -> Vec<String> {
    items.iter().map(|item| item.to_string()).collect()
}

fn number(value: u64) -> NoteValue {
    NoteValue::Number(JsonNumber::PosInt(value))
}

fn float(value: f64) -> NoteValue {
    NoteValue::Number(JsonNumber::Float(value.to_bits()))
}

fn rule(fields: &[&str], pattern: &str) -> NoteRule {
    NoteRule { fields: lines(fields), pattern: pattern.to_string() }
}

#[test]
fn maximum_commission_is_numeric() {
    let extraction = read_epoch_notes(&lines(&["Maximum commission: 100%"]));
    assert_eq!(extraction.notes.len(), 1);
    assert_eq!(extraction.notes.get("max_commission"), Some(&number(100)));
    assert_ne!(
        extraction.notes.get("max_commission"),
        Some(&NoteValue::Text("100".to_string()))
    );
    assert!(extraction.unmatched.is_empty());
}

#[test]
fn minimum_vote_credits_binds_three_fields() {
    let extraction = read_epoch_notes(&lines(&[
        "Minimum vote credits required for epoch 198: 104483 (cluster average: 160744, grace: 35%)",
    ]));
    assert_eq!(extraction.notes.len(), 3);
    assert_eq!(extraction.notes.get("min_vote_credits"), Some(&number(104483)));
    assert_eq!(extraction.notes.get("avg_vote_credits"), Some(&number(160744)));
    assert_eq!(extraction.notes.get("vote_credits_grace_percent"), Some(&number(35)));
}

#[test]
fn every_rule_reads_its_sample_line() {
    let extraction = read_epoch_notes(&lines(&[
        "Minimum vote credits required for epoch 198: 104483 (cluster average: 160744, grace: 35%)",
        "Maximum allowed skip rate for epoch 198: 61% (cluster average: 26%, grace: 35%)",
        "Solana release 1.7.0 or greater required",
        "Maximum commission: 100%",
        "Minimum required self stake: ◎0.000000000",
        "Maximum active stake allowed: ◎3500000.000000000",
        "Maximum infrastructure concentration: 30%",
        "2036 validators processed",
        "Active stake: ◎77812810.078959202",
        "Stake pool size: ◎77646465.639826297 (available for delegation: ◎3667127.924089391)",
        "Baseline stake amount: ◎5000.000000000",
        "Bonus stake amount: ◎46269.599541788",
        "Validators by stake level: None=200, Baseline=177, Bonus=1659",
        "Participants must maintain Baseline or Bonus stake level for 5 of the last 10 Testnet epochs",
    ]));
    assert!(extraction.unmatched.is_empty());
    assert_eq!(extraction.notes.len(), 22);
    let notes = &extraction.notes;
    assert_eq!(notes.get("min_vote_credits"), Some(&number(104483)));
    assert_eq!(notes.get("avg_vote_credits"), Some(&number(160744)));
    assert_eq!(notes.get("vote_credits_grace_percent"), Some(&number(35)));
    assert_eq!(notes.get("max_skip_rate"), Some(&number(61)));
    assert_eq!(notes.get("avg_skip_rate"), Some(&number(26)));
    assert_eq!(notes.get("skip_rate_grace"), Some(&number(35)));
    assert_eq!(notes.get("min_solana_version"), Some(&NoteValue::Text("1.7.0".to_string())));
    assert_eq!(notes.get("max_commission"), Some(&number(100)));
    assert_eq!(notes.get("min_self_stake"), Some(&float(0.0)));
    assert_eq!(notes.get("max_self_stake"), Some(&float(3500000.0)));
    assert_eq!(notes.get("max_infrastructure_concentration"), Some(&number(30)));
    assert_eq!(notes.get("num_validators_processed"), Some(&number(2036)));
    assert_eq!(notes.get("active_stake"), Some(&float(77812810.078959202)));
    assert_eq!(notes.get("stake_pool_size"), Some(&float(77646465.639826297)));
    assert_eq!(notes.get("stake_pool_available_for_delegation"), Some(&float(3667127.924089391)));
    assert_eq!(notes.get("baseline_stake_amount"), Some(&float(5000.0)));
    assert_eq!(notes.get("bonus_stake_amount"), Some(&float(46269.599541788)));
    assert_eq!(notes.get("num_no_stake_validators"), Some(&number(200)));
    assert_eq!(notes.get("num_baseline_stake_validators"), Some(&number(177)));
    assert_eq!(notes.get("num_bonus_stake_validators"), Some(&number(1659)));
    assert_eq!(notes.get("min_testnet_participation_numerator"), Some(&number(5)));
    assert_eq!(notes.get("min_testnet_participation_denominator"), Some(&number(10)));
}

#[test]
fn the_table_holds_fourteen_rules_in_order() {
    let rules = note_rules();
    assert_eq!(rules.len(), 14);
    assert_eq!(
        rules[0].fields,
        lines(&["min_vote_credits", "avg_vote_credits", "vote_credits_grace_percent"])
    );
    assert_eq!(rules[3].fields, lines(&["max_commission"]));
    assert_eq!(rules[3].pattern, r"Maximum commission: ([\d\\.]+)%");
    assert_eq!(
        rules[13].fields,
        lines(&["min_testnet_participation_numerator", "min_testnet_participation_denominator"])
    );
}

#[test]
fn an_unmatched_line_is_left_out_and_reported() {
    let extraction = read_epoch_notes(&lines(&[
        "Maximum commission: 100%",
        "nothing to see here",
        "2036 validators processed",
        "",
    ]));
    assert_eq!(extraction.unmatched, vec![1, 3]);
    assert_eq!(extraction.notes.len(), 2);
    assert_eq!(extraction.notes.get("max_commission"), Some(&number(100)));
    assert_eq!(extraction.notes.get("num_validators_processed"), Some(&number(2036)));
    assert_eq!(extraction.notes.get("nothing"), None);
}

#[test]
fn no_lines_give_an_empty_mapping() {
    let extraction = read_epoch_notes(&Vec::new());
    assert_eq!(extraction.notes.len(), 0);
    assert!(extraction.unmatched.is_empty());
}

#[test]
fn a_pattern_matches_part_of_a_line() {
    let extraction = read_epoch_notes(&lines(&["note: Maximum commission: 7% (as of today)"]));
    assert_eq!(extraction.notes.get("max_commission"), Some(&number(7)));
}

#[test]
fn a_later_note_overwrites_an_earlier_field() {
    let extraction = read_epoch_notes(&lines(&[
        "Maximum commission: 100%",
        "Active stake: ◎1",
        "Maximum commission: 10%",
    ]));
    assert_eq!(extraction.notes.len(), 2);
    assert_eq!(extraction.notes.get("max_commission"), Some(&number(10)));
    assert_eq!(extraction.notes.get("active_stake"), Some(&number(1)));
}

#[test]
fn extraction_is_deterministic() {
    let input = lines(&[
        "Maximum commission: 100%",
        "Solana release 1.7.0 or greater required",
        "unreadable",
    ]);
    let first = read_epoch_notes(&input);
    let second = read_epoch_notes(&input);
    assert_eq!(first.notes, second.notes);
    assert_eq!(first.unmatched, second.unmatched);
}

#[test]
fn reading_the_same_lines_again_changes_nothing() {
    let input = lines(&[
        "Maximum commission: 100%",
        "Maximum commission: 5%",
        "Stake pool size: ◎10 (available for delegation: ◎2.5)",
    ]);
    let once = read_epoch_notes(&input);
    let mut doubled = input.clone();
    doubled.extend(input.clone());
    let twice = read_epoch_notes(&doubled);
    assert_eq!(once.notes.len(), twice.notes.len());
    for field in ["max_commission", "stake_pool_size", "stake_pool_available_for_delegation"] {
        assert_eq!(once.notes.get(field), twice.notes.get(field));
    }
    assert_eq!(twice.notes.get("max_commission"), Some(&number(5)));
    assert_eq!(twice.notes.get("stake_pool_available_for_delegation"), Some(&float(2.5)));
}

#[test]
fn the_first_matching_rule_wins() {
    let rules = vec![
        rule(&["specific"], r"stake: (\d+) of pool"),
        rule(&["loose"], r"stake: (\d+)"),
    ];
    let extraction = extract_notes(&rules, &lines(&["stake: 12 of pool", "stake: 7"]));
    assert_eq!(extraction.notes.get("specific"), Some(&number(12)));
    assert_eq!(extraction.notes.get("loose"), Some(&number(7)));
    assert_eq!(extraction.notes.len(), 2);

    let shadowed = vec![
        rule(&["loose"], r"stake: (\d+)"),
        rule(&["specific"], r"stake: (\d+) of pool"),
    ];
    let extraction = extract_notes(&shadowed, &lines(&["stake: 12 of pool"]));
    assert_eq!(extraction.notes.get("loose"), Some(&number(12)));
    assert_eq!(extraction.notes.get("specific"), None);
}

#[test]
fn extract_line_tells_whether_a_rule_matched() {
    let rules = note_rules();
    let mut notes = StructuredNotes::new();
    assert!(extract_line(&rules, "Bonus stake amount: ◎42", &mut notes));
    assert!(!extract_line(&rules, "Bonus stake amount unknown", &mut notes));
    assert_eq!(notes.len(), 1);
    assert_eq!(notes.get("bonus_stake_amount"), Some(&number(42)));
}

#[test]
fn a_pattern_that_does_not_compile_matches_nothing() {
    let rules = vec![rule(&["broken"], r"unclosed (group"), rule(&["fine"], r"value (\d+)")];
    let extraction = extract_notes(&rules, &lines(&["value 3", "unclosed (group"]));
    assert_eq!(extraction.notes.get("fine"), Some(&number(3)));
    assert_eq!(extraction.notes.get("broken"), None);
    assert_eq!(extraction.unmatched, vec![1]);
}

#[test]
fn a_group_that_took_no_part_binds_nothing() {
    let rules = vec![rule(&["digits", "letters"], r"item (?:(\d+)|([a-z]+))")];
    let extraction = extract_notes(&rules, &lines(&["item abc"]));
    assert_eq!(extraction.notes.get("digits"), None);
    assert_eq!(extraction.notes.get("letters"), Some(&NoteValue::Text("abc".to_string())));
    assert!(extraction.unmatched.is_empty());
}

#[test]
fn a_field_without_a_group_binds_nothing() {
    let rules = vec![rule(&["first", "second"], r"only (\d+)")];
    let extraction = extract_notes(&rules, &lines(&["only 1"]));
    assert_eq!(extraction.notes.len(), 1);
    assert_eq!(extraction.notes.get("first"), Some(&number(1)));
    assert_eq!(extraction.notes.get("second"), None);
}

#[test]
fn bind_captures_binds_groups_by_position() {
    let mut notes = StructuredNotes::new();
    notes.insert("b".to_string(), NoteValue::Text("old".to_string()));
    let groups = vec![
        Some("whole match".to_string()),
        Some("17".to_string()),
        None,
        Some("x1".to_string()),
    ];
    bind_captures(&lines(&["a", "b", "c", "d"]), &groups, &mut notes);
    assert_eq!(notes.get("a"), Some(&number(17)));
    assert_eq!(notes.get("b"), Some(&NoteValue::Text("old".to_string())));
    assert_eq!(notes.get("c"), Some(&NoteValue::Text("x1".to_string())));
    assert_eq!(notes.get("d"), None);
    assert_eq!(notes.len(), 3);
}

#[test]
fn captured_text_is_a_number_where_it_parses_as_one() {
    assert_eq!(note_value("0"), number(0));
    assert_eq!(note_value("18446744073709551615"), number(u64::MAX));
    assert_eq!(note_value("-12"), NoteValue::Number(JsonNumber::NegInt(-12)));
    assert_eq!(note_value("0.35"), float(0.35));
    assert_eq!(note_value("1e3"), float(1000.0));
    assert_eq!(note_value("18446744073709551616"), float(18446744073709551616.0));
    assert_eq!(note_value("1.7.0"), NoteValue::Text("1.7.0".to_string()));
    assert_eq!(note_value("007"), NoteValue::Text("007".to_string()));
    assert_eq!(note_value("1."), NoteValue::Text("1.".to_string()));
    assert_eq!(note_value("\\."), NoteValue::Text("\\.".to_string()));
    assert_eq!(note_value(""), NoteValue::Text(String::new()));
    assert_eq!(note_value("v1"), NoteValue::Text("v1".to_string()));
}

#[test]
fn note_value_from_follows_the_parse() {
    assert_eq!(note_value_from("abc", Some(JsonNumber::PosInt(4))), number(4));
    assert_eq!(note_value_from("4", None), NoteValue::Text("4".to_string()));
}

#[test]
fn insert_replaces_and_get_finds() {
    let mut notes = StructuredNotes::new();
    assert_eq!(notes.get("a"), None);
    notes.insert("a".to_string(), number(1));
    notes.insert("b".to_string(), NoteValue::Text("two".to_string()));
    notes.insert("a".to_string(), number(3));
    assert_eq!(notes.len(), 2);
    assert_eq!(notes.get("a"), Some(&number(3)));
    assert_eq!(notes.get("b"), Some(&NoteValue::Text("two".to_string())));
    assert_eq!(notes.position(&"b".to_string()), Some(1));
    assert_eq!(notes.position(&"c".to_string()), None);
    let copy = notes.clone();
    assert_eq!(copy, notes);
}

#[test]
fn every_name_is_held_once() {
    let mut notes = StructuredNotes::new();
    assert_eq!(notes.len(), 0);
    assert!(notes.fields().is_empty());
    notes.insert("a".to_string(), number(1));
    notes.insert("b".to_string(), number(2));
    notes.insert("a".to_string(), number(3));
    notes.insert("b".to_string(), number(4));
    assert_eq!(notes.len(), 2);
    let names: Vec<&str> = notes.fields().iter().map(|field| field.name.as_str()).collect();
    assert_eq!(names, vec!["a", "b"]);
    assert_eq!(notes.fields()[0].value, number(3));
    assert_eq!(notes.fields()[1].value, number(4));
}
