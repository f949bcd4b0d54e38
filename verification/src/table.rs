//! The extraction rules for the notes of an epoch snapshot, and the
//! extraction of an epoch's notes by them.

use crate::rules::{extract_notes, extracted, unmatched_lines, NoteExtraction, NoteRule, NoteRuleView};
use vstd::prelude::*;

verus! {

pub const MIN_VOTE_CREDITS_PATTERN: &'static str =
    r"Minimum vote credits required for epoch \d+: (\d+) \(cluster average: ([\d\\.]+), grace: ([\d\\.]+)%\)";

pub const MAX_SKIP_RATE_PATTERN: &'static str =
    r"Maximum allowed skip rate for epoch \d+: ([\d+\\.]+)% \(cluster average: ([\d\\.]+)%, grace: ([\d\\.]+)%\)";

pub const MIN_SOLANA_VERSION_PATTERN: &'static str = r"Solana release (\S+) or greater required";

pub const MAX_COMMISSION_PATTERN: &'static str = r"Maximum commission: ([\d\\.]+)%";

pub const MIN_SELF_STAKE_PATTERN: &'static str = r"Minimum required self stake: ◎([\d\\.]+)";

pub const MAX_SELF_STAKE_PATTERN: &'static str = r"Maximum active stake allowed: ◎([\d\\.]+)";

pub const MAX_INFRASTRUCTURE_CONCENTRATION_PATTERN: &'static str =
    r"Maximum infrastructure concentration: ([\d\\.]+)%";

pub const VALIDATORS_PROCESSED_PATTERN: &'static str = r"(\d+) validators processed";

pub const ACTIVE_STAKE_PATTERN: &'static str = r"Active stake: ◎([\d\\.]+)";

pub const STAKE_POOL_SIZE_PATTERN: &'static str =
    r"Stake pool size: ◎([\d\\.]+) \(available for delegation: ◎([\d\\.]+)\)";

pub const BASELINE_STAKE_AMOUNT_PATTERN: &'static str = r"Baseline stake amount: ◎([\d\\.]+)";

pub const BONUS_STAKE_AMOUNT_PATTERN: &'static str = r"Bonus stake amount: ◎([\d\\.]+)";

pub const STAKE_LEVELS_PATTERN: &'static str =
    r"Validators by stake level: None=(\d+), Baseline=(\d+), Bonus=(\d+)";

pub const TESTNET_PARTICIPATION_PATTERN: &'static str =
    r"Participants must maintain Baseline or Bonus stake level for (\d+) of the last (\d+) Testnet epochs";

/// A rule that binds the groups of `pattern` to `fields`.
pub fn rule(fields: Vec<String>, pattern: &str) -> (rule: NoteRule)
    ensures
        rule@ == (NoteRuleView { fields: fields.deep_view(), pattern: pattern@ }),
{
    NoteRule { fields, pattern: pattern.to_owned() }
}

/// A list of one field name.
fn one_field(first: &str) -> (fields: Vec<String>)
    ensures
        fields.deep_view() == seq![first@],
{
    let mut fields: Vec<String> = Vec::new();
    fields.push(first.to_owned());
    fields
}

/// A list of two field names.
fn two_fields(first: &str, second: &str) -> (fields: Vec<String>)
    ensures
        fields.deep_view() == seq![first@, second@],
{
    let mut fields: Vec<String> = Vec::new();
    fields.push(first.to_owned());
    fields.push(second.to_owned());
    fields
}

/// A list of three field names.
fn three_fields(first: &str, second: &str, third: &str) -> (fields: Vec<String>)
    ensures
        fields.deep_view() == seq![first@, second@, third@],
{
    let mut fields: Vec<String> = Vec::new();
    fields.push(first.to_owned());
    fields.push(second.to_owned());
    fields.push(third.to_owned());
    fields
}

/// The rules for an epoch's notes, the more specific pattern before the
/// looser one. Their order is part of the rule: a line is read by the first
/// rule that matches it.
pub open spec fn epoch_note_rules() -> Seq<NoteRuleView> {
    seq![
        NoteRuleView {
            fields: seq![
                "min_vote_credits"@,
                "avg_vote_credits"@,
                "vote_credits_grace_percent"@,
            ],
            pattern: MIN_VOTE_CREDITS_PATTERN@,
        },
        NoteRuleView {
            fields: seq!["max_skip_rate"@, "avg_skip_rate"@, "skip_rate_grace"@],
            pattern: MAX_SKIP_RATE_PATTERN@,
        },
        NoteRuleView { fields: seq!["min_solana_version"@], pattern: MIN_SOLANA_VERSION_PATTERN@ },
        NoteRuleView { fields: seq!["max_commission"@], pattern: MAX_COMMISSION_PATTERN@ },
        NoteRuleView { fields: seq!["min_self_stake"@], pattern: MIN_SELF_STAKE_PATTERN@ },
        NoteRuleView { fields: seq!["max_self_stake"@], pattern: MAX_SELF_STAKE_PATTERN@ },
        NoteRuleView {
            fields: seq!["max_infrastructure_concentration"@],
            pattern: MAX_INFRASTRUCTURE_CONCENTRATION_PATTERN@,
        },
        NoteRuleView {
            fields: seq!["num_validators_processed"@],
            pattern: VALIDATORS_PROCESSED_PATTERN@,
        },
        NoteRuleView { fields: seq!["active_stake"@], pattern: ACTIVE_STAKE_PATTERN@ },
        NoteRuleView {
            fields: seq!["stake_pool_size"@, "stake_pool_available_for_delegation"@],
            pattern: STAKE_POOL_SIZE_PATTERN@,
        },
        NoteRuleView {
            fields: seq!["baseline_stake_amount"@],
            pattern: BASELINE_STAKE_AMOUNT_PATTERN@,
        },
        NoteRuleView { fields: seq!["bonus_stake_amount"@], pattern: BONUS_STAKE_AMOUNT_PATTERN@ },
        NoteRuleView {
            fields: seq![
                "num_no_stake_validators"@,
                "num_baseline_stake_validators"@,
                "num_bonus_stake_validators"@,
            ],
            pattern: STAKE_LEVELS_PATTERN@,
        },
        NoteRuleView {
            fields: seq![
                "min_testnet_participation_numerator"@,
                "min_testnet_participation_denominator"@,
            ],
            pattern: TESTNET_PARTICIPATION_PATTERN@,
        },
    ]
}

/// Builds the rules for an epoch's notes.
pub fn note_rules() -> (rules: Vec<NoteRule>)
    ensures
        rules.deep_view() == epoch_note_rules(),
{
    let mut rules: Vec<NoteRule> = Vec::new();
    rules.push(
        rule(
            three_fields("min_vote_credits", "avg_vote_credits", "vote_credits_grace_percent"),
            MIN_VOTE_CREDITS_PATTERN,
        ),
    );
    rules.push(
        rule(three_fields("max_skip_rate", "avg_skip_rate", "skip_rate_grace"), MAX_SKIP_RATE_PATTERN),
    );
    rules.push(rule(one_field("min_solana_version"), MIN_SOLANA_VERSION_PATTERN));
    rules.push(rule(one_field("max_commission"), MAX_COMMISSION_PATTERN));
    rules.push(rule(one_field("min_self_stake"), MIN_SELF_STAKE_PATTERN));
    rules.push(rule(one_field("max_self_stake"), MAX_SELF_STAKE_PATTERN));
    rules.push(
        rule(
            one_field("max_infrastructure_concentration"),
            MAX_INFRASTRUCTURE_CONCENTRATION_PATTERN,
        ),
    );
    rules.push(rule(one_field("num_validators_processed"), VALIDATORS_PROCESSED_PATTERN));
    rules.push(rule(one_field("active_stake"), ACTIVE_STAKE_PATTERN));
    rules.push(
        rule(
            two_fields("stake_pool_size", "stake_pool_available_for_delegation"),
            STAKE_POOL_SIZE_PATTERN,
        ),
    );
    rules.push(rule(one_field("baseline_stake_amount"), BASELINE_STAKE_AMOUNT_PATTERN));
    rules.push(rule(one_field("bonus_stake_amount"), BONUS_STAKE_AMOUNT_PATTERN));
    rules.push(
        rule(
            three_fields(
                "num_no_stake_validators",
                "num_baseline_stake_validators",
                "num_bonus_stake_validators",
            ),
            STAKE_LEVELS_PATTERN,
        ),
    );
    rules.push(
        rule(
            two_fields(
                "min_testnet_participation_numerator",
                "min_testnet_participation_denominator",
            ),
            TESTNET_PARTICIPATION_PATTERN,
        ),
    );
    rules
}

/// Reads the notes of an epoch snapshot into structured fields.
pub fn read_epoch_notes(notes: &Vec<String>) -> (extraction: NoteExtraction)
    ensures
        extraction.notes@ == extracted(epoch_note_rules(), notes.deep_view()),
        extraction.unmatched@ == unmatched_lines(epoch_note_rules(), notes.deep_view()),
{
    let rules = note_rules();
    extract_notes(&rules, notes)
}

} // verus!
