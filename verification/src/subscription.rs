//! Human-readable subscription labels derived from the stored credential.

use vstd::prelude::*;
use vstd::string::*;

verus! {

/// Whether `needle` occurs in `hay` as a run of consecutive characters.
pub open spec fn occurs_in(needle: Seq<char>, hay: Seq<char>) -> bool {
    exists|start: int|
        0 <= start && start + needle.len() <= hay.len() && #[trigger] hay.subrange(
            start,
            start + needle.len(),
        ) == needle
}

/// The multiplier suffix that a rate-limit tier stands for: the larger one
/// wins where a tier names both.
pub open spec fn max_label(rate_limit_tier: Option<Seq<char>>) -> Seq<char> {
    match rate_limit_tier {
        Some(tier) => if occurs_in("20x"@, tier) {
            "Max 20x"@
        } else if occurs_in("5x"@, tier) {
            "Max 5x"@
        } else {
            "Max"@
        },
        None => "Max"@,
    }
}

/// The label of a subscription: the three known kinds get their display
/// names, a missing kind counts as free, and any other kind is shown as it is.
pub open spec fn subscription_label(
    subscription_type: Option<Seq<char>>,
    rate_limit_tier: Option<Seq<char>>,
) -> Seq<char> {
    match subscription_type {
        None => "Free"@,
        Some(kind) => if kind == "max"@ {
            max_label(rate_limit_tier)
        } else if kind == "pro"@ {
            "Pro"@
        } else if kind == "free"@ {
            "Free"@
        } else {
            kind
        },
    }
}

/// `str::contains` with a string pattern: true exactly when the pattern
/// occurs somewhere in the text. Matching whole UTF-8 encodings byte by byte
/// is matching the characters they encode.
#[verifier::external_body]
fn contains_text(hay: &str, needle: &str) -> (found: bool)
    ensures
        found == occurs_in(needle@, hay@),
{
    hay.contains(needle)
}

/// Compares two texts character by character.
pub fn same_text(left: &str, right: &str) -> (same: bool)
    ensures
        same == (left@ == right@),
{
    left.to_owned() == right.to_owned()
}

/// Computes the label for the "max" subscription from its rate-limit tier.
fn format_max(rate_limit_tier: Option<&str>) -> (label: String)
    ensures
        label@ == max_label(
            match rate_limit_tier {
                Some(tier) => Some(tier@),
                None => None,
            },
        ),
{
    match rate_limit_tier {
        Some(tier) => {
            if contains_text(tier, "20x") {
                String::from_str("Max 20x")
            } else if contains_text(tier, "5x") {
                String::from_str("Max 5x")
            } else {
                String::from_str("Max")
            }
        },
        None => String::from_str("Max"),
    }
}

/// Computes the subscription label shown beside an account. The result is
/// always present.
pub fn format_subscription(subscription_type: Option<&str>, rate_limit_tier: Option<&str>) -> (label:
    Option<String>)
    ensures
        label is Some,
        label.unwrap()@ == subscription_label(
            match subscription_type {
                Some(kind) => Some(kind@),
                None => None,
            },
            match rate_limit_tier {
                Some(tier) => Some(tier@),
                None => None,
            },
        ),
{
    match subscription_type {
        None => Some(String::from_str("Free")),
        Some(kind) => {
            if same_text(kind, "max") {
                Some(format_max(rate_limit_tier))
            } else if same_text(kind, "pro") {
                Some(String::from_str("Pro"))
            } else if same_text(kind, "free") {
                Some(String::from_str("Free"))
            } else {
                Some(String::from_str(kind))
            }
        },
    }
}

} // verus!
