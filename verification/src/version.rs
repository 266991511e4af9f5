//! Versions: how a release tag becomes a version, and how versions rank in a
//! listing.

use std::cmp::Ordering;
use vstd::prelude::*;
use crate::text::chars_of;
use crate::text::is_text_less;
use crate::text::lemma_text_less_below;
use crate::text::lemma_text_less_total;
use crate::text::starts_with;
use crate::text::text_less;

verus! {

/// The prefix of a tag of the tool's own release line.
pub const TOOL_TAG_PREFIX: &'static str = "rust-v";

/// The prefix of a plain version tag.
pub const PLAIN_TAG_PREFIX: &'static str = "v";

/// The version that a tag stands for: the tag without its `rust-v` prefix,
/// else without its `v` prefix, else the tag itself. One prefix is taken off
/// at most.
pub open spec fn normalized_version(tag: Seq<char>) -> Seq<char> {
    if TOOL_TAG_PREFIX@.is_prefix_of(tag) {
        tag.skip(TOOL_TAG_PREFIX@.len() as int)
    } else if PLAIN_TAG_PREFIX@.is_prefix_of(tag) {
        tag.skip(PLAIN_TAG_PREFIX@.len() as int)
    } else {
        tag
    }
}

/// Turns a release tag into a version.
pub fn parse_version_from_tag(tag_name: &str) -> (version: String)
    ensures
        version@ == normalized_version(tag_name@),
{
    let tag = chars_of(tag_name);
    let tool_prefix = chars_of(TOOL_TAG_PREFIX);
    let plain_prefix = chars_of(PLAIN_TAG_PREFIX);
    let stripped = if starts_with(tag.as_slice(), tool_prefix.as_slice()) {
        tool_prefix.len()
    } else if starts_with(tag.as_slice(), plain_prefix.as_slice()) {
        plain_prefix.len()
    } else {
        0
    };
    tag_name.substring_char(stripped, tag.len()).to_owned()
}

/// Normalizing takes off one recognized prefix and no more: a tag made of a
/// prefix and a text that begins with neither prefix stands for that text, and
/// so does the text alone.
pub proof fn lemma_normalization_strips_one_prefix(text: Seq<char>)
    requires
        !TOOL_TAG_PREFIX@.is_prefix_of(text),
        !PLAIN_TAG_PREFIX@.is_prefix_of(text),
    ensures
        normalized_version(TOOL_TAG_PREFIX@ + text) == text,
        normalized_version(PLAIN_TAG_PREFIX@ + text) == text,
        normalized_version(text) == text,
{
    reveal_strlit("rust-v");
    reveal_strlit("v");
    let plain = PLAIN_TAG_PREFIX@ + text;
    if TOOL_TAG_PREFIX@.is_prefix_of(plain) {
        assert(plain.subrange(0, 6)[0] == TOOL_TAG_PREFIX@[0]);
    }
}

/// Whether `semver::Version::parse` accepts the text as a semantic version.
pub uninterp spec fn semver_valid(text: Seq<char>) -> bool;

/// Whether the first of two semantic versions has the lower precedence: what
/// comparing the parsed versions with `semver::Version::cmp` gives.
pub uninterp spec fn semver_less(lower: Seq<char>, higher: Seq<char>) -> bool;

/// Calls `semver::Version::parse` and tells whether it accepted the text; the
/// contract names that answer.
#[verifier::external_body]
fn is_semver(text: &str) -> (valid: bool)
    ensures
        valid == semver_valid(text@),
{
    semver::Version::parse(text).is_ok()
}

/// Compares two semantic versions with `semver::Version::cmp`, after
/// `semver::Version::parse` has turned each text into a version. The contract
/// names the outcome: `Less` exactly where the first has the lower precedence,
/// `Greater` exactly where the second has. The crate documents the order as
/// total; of that the contract states what a sort needs: where the first is
/// not above the second, a version below the first is below the second.
#[verifier::external_body]
fn compare_semver(first: &str, second: &str) -> (order: Ordering)
    requires
        semver_valid(first@),
        semver_valid(second@),
    ensures
        order is Less <==> semver_less(first@, second@),
        order is Greater <==> semver_less(second@, first@),
        forall|third: Seq<char>|
            semver_valid(third) && !(order is Greater) && semver_less(third, first@)
                ==> #[trigger] semver_less(third, second@),
{
    semver::Version::parse(first).unwrap().cmp(&semver::Version::parse(second).unwrap())
}

/// Whether `version` is a semantic version above `current`. A text that is
/// no semantic version is newer than nothing, and nothing is newer than it.
pub open spec fn newer_than(version: Seq<char>, current: Seq<char>) -> bool {
    semver_valid(version) && semver_valid(current) && semver_less(current, version)
}

/// Whether `version` is newer than `current`.
pub fn is_newer_version(version: &str, current: &str) -> (newer: bool)
    ensures
        newer == newer_than(version@, current@),
{
    if is_semver(version) && is_semver(current) {
        match compare_semver(version, current) {
            Ordering::Greater => true,
            _ => false,
        }
    } else {
        false
    }
}

/// Whether a release with version `a` stands before one with version `b` in
/// a listing: semantic versions stand before other texts; among semantic
/// versions the higher stands first; among other texts the lexically greater
/// stands first.
pub open spec fn listed_before(a: Seq<char>, b: Seq<char>) -> bool {
    if semver_valid(a) && semver_valid(b) {
        semver_less(b, a)
    } else if semver_valid(a) || semver_valid(b) {
        semver_valid(a)
    } else {
        text_less(b, a)
    }
}

/// The place of one version relative to another, from what is known of the
/// two: whether each is a semantic version, and how the second compares with
/// the first among its kind (by precedence if both are semantic versions, by
/// lexical order if neither is). A semantic version stands before any other
/// text, and the greater of a kind stands first: the first version stands
/// before the second where the second is the lesser.
pub open spec fn listing_order_of(
    a_semantic: bool,
    b_semantic: bool,
    second_to_first: Ordering,
) -> Ordering {
    if a_semantic && !b_semantic {
        Ordering::Less
    } else if !a_semantic && b_semantic {
        Ordering::Greater
    } else {
        second_to_first
    }
}

/// Decides the place of one version relative to another: `Less` where the
/// first stands before the second in a listing.
pub fn listing_order(a_semantic: bool, b_semantic: bool, second_to_first: Ordering) -> (order:
    Ordering)
    ensures
        order == listing_order_of(a_semantic, b_semantic, second_to_first),
{
    if a_semantic && !b_semantic {
        Ordering::Less
    } else if !a_semantic && b_semantic {
        Ordering::Greater
    } else {
        second_to_first
    }
}

/// Compares two texts lexically.
fn compare_text(a: &str, b: &str) -> (order: Ordering)
    ensures
        order is Less <==> text_less(a@, b@),
        order is Greater <==> text_less(b@, a@),
{
    let first = chars_of(a);
    let second = chars_of(b);
    proof {
        lemma_text_less_total(a@, b@);
    }
    if is_text_less(first.as_slice(), second.as_slice()) {
        Ordering::Less
    } else if is_text_less(second.as_slice(), first.as_slice()) {
        Ordering::Greater
    } else {
        Ordering::Equal
    }
}

/// Compares two versions for a listing: `Less` where the first stands before
/// the second, `Greater` where the second stands before the first, `Equal`
/// where neither does. Where the first does not stand after the second, it
/// stands before every version that the second stands before.
pub fn compare_versions(a: &str, b: &str) -> (order: Ordering)
    ensures
        order is Less <==> listed_before(a@, b@),
        order is Greater <==> listed_before(b@, a@),
        !(order is Greater) ==> forall|c: Seq<char>|
            listed_before(b@, c) ==> #[trigger] listed_before(a@, c),
{
    let a_semantic = is_semver(a);
    let b_semantic = is_semver(b);
    let second_to_first = if a_semantic && b_semantic {
        compare_semver(b, a)
    } else if !a_semantic && !b_semantic {
        compare_text(b, a)
    } else {
        Ordering::Equal
    };
    let order = listing_order(a_semantic, b_semantic, second_to_first);
    proof {
        if !(order is Greater) {
            assert forall|c: Seq<char>| listed_before(b@, c) implies #[trigger] listed_before(
                a@,
                c,
            ) by {
                if !a_semantic && !b_semantic && !semver_valid(c) {
                    lemma_text_less_below(b@, a@, c);
                }
            }
        }
    }
    order
}

/// Whether a release with version `a` stands before one with version `b` in
/// a listing. Of two versions at most one stands before the other; and where
/// `a` does not stand before `b`, `b` stands before every version that `a`
/// stands before.
pub fn stands_before(a: &str, b: &str) -> (before: bool)
    ensures
        before == listed_before(a@, b@),
        before ==> !listed_before(b@, a@),
        !before ==> forall|c: Seq<char>| listed_before(a@, c) ==> #[trigger] listed_before(b@, c),
{
    match compare_versions(b, a) {
        Ordering::Greater => true,
        _ => false,
    }
}

} // verus!
