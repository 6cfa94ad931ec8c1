//! Parsing of command arguments: record identifiers (with or without their
//! `LOTR-` prefix, in any letter case, repeated prefixes stripped), link
//! identifiers (leading `#` stripped), ordering and edition keywords, and
//! status names.

use vstd::prelude::*;
use crate::errors::EngineError;
use crate::status::{BugOrder, BugStatus};
use crate::text::{ci_matches, lower_char, spec_ci_matches, spec_lower_char};

verus! {

pub open spec fn spec_is_digit(c: char) -> bool {
    c == '0' || c == '1' || c == '2' || c == '3' || c == '4' || c == '5' || c == '6' || c == '7'
        || c == '8' || c == '9'
}

pub open spec fn spec_digit_val(c: char) -> int
    recommends
        spec_is_digit(c),
{
    if c == '0' {
        0
    } else if c == '1' {
        1
    } else if c == '2' {
        2
    } else if c == '3' {
        3
    } else if c == '4' {
        4
    } else if c == '5' {
        5
    } else if c == '6' {
        6
    } else if c == '7' {
        7
    } else if c == '8' {
        8
    } else {
        9
    }
}

fn is_digit(c: char) -> (r: bool)
    ensures
        r == spec_is_digit(c),
{
    match c {
        '0' | '1' | '2' | '3' | '4' | '5' | '6' | '7' | '8' | '9' => true,
        _ => false,
    }
}

fn digit_val(c: char) -> (r: u64)
    requires
        spec_is_digit(c),
    ensures
        r == spec_digit_val(c),
{
    match c {
        '0' => 0,
        '1' => 1,
        '2' => 2,
        '3' => 3,
        '4' => 4,
        '5' => 5,
        '6' => 6,
        '7' => 7,
        '8' => 8,
        _ => 9,
    }
}

pub open spec fn spec_all_digits(s: Seq<char>) -> bool {
    forall|i: int| 0 <= i < s.len() ==> spec_is_digit(#[trigger] s[i])
}

/// Numeric value of a digit string, most significant digit first.
pub open spec fn spec_dec_value(s: Seq<char>) -> int
    decreases s.len(),
{
    if s.len() == 0 {
        0
    } else {
        spec_dec_value(s.drop_last()) * 10 + spec_digit_val(s.last())
    }
}

proof fn lemma_dec_value_nonneg(s: Seq<char>)
    requires
        spec_all_digits(s),
    ensures
        spec_dec_value(s) >= 0,
    decreases s.len(),
{
    if s.len() > 0 {
        assert(spec_all_digits(s.drop_last()));
        lemma_dec_value_nonneg(s.drop_last());
    }
}

/// A digit string is worth at least any of its prefixes.
proof fn lemma_dec_value_mono(s: Seq<char>, i: int)
    requires
        spec_all_digits(s),
        0 <= i <= s.len(),
    ensures
        spec_dec_value(s.take(i)) <= spec_dec_value(s),
    decreases s.len() - i,
{
    if i == s.len() {
        assert(s.take(i) =~= s);
    } else {
        assert(s.take(i + 1).drop_last() =~= s.take(i));
        assert(spec_all_digits(s.take(i + 1)));
        lemma_dec_value_nonneg(s.take(i));
        assert(spec_dec_value(s.take(i + 1)) == spec_dec_value(s.take(i)) * 10 + spec_digit_val(
            s.take(i + 1).last(),
        ));
        lemma_dec_value_mono(s, i + 1);
    }
}

/// The digits of a number, past its optional leading plus sign.
pub open spec fn spec_u64_body(s: Seq<char>) -> Seq<char> {
    if s.len() > 0 && s[0] == '+' {
        s.drop_first()
    } else {
        s
    }
}

/// What 64-bit parsing accepts of a piece of text: an optional leading
/// plus sign, then at least one digit, with a value that fits the type.
pub open spec fn spec_parse_u64(s: Seq<char>) -> Option<u64> {
    let body = spec_u64_body(s);
    if body.len() > 0 && spec_all_digits(body) && spec_dec_value(body) <= u64::MAX {
        Some(spec_dec_value(body) as u64)
    } else {
        None
    }
}

/// Parses the tail of `s`, from character `from` on, as a 64-bit number.
fn parse_u64_from(s: &str, from: usize) -> (r: Option<u64>)
    requires
        from <= s@.len(),
    ensures
        r == spec_parse_u64(s@.skip(from as int)),
{
    let n = s.unicode_len();
    let ghost piece = s@.skip(from as int);
    let mut i: usize = from;
    if i < n && s.get_char(i) == '+' {
        i = i + 1;
    }
    let ghost body = spec_u64_body(piece);
    proof {
        assert(body =~= s@.skip(i as int));
    }
    if i >= n {
        return None;
    }
    let mut acc: u64 = 0;
    let mut j: usize = i;
    proof {
        assert(body.take(0) =~= Seq::<char>::empty());
    }
    while j < n
        invariant
            i <= j <= n,
            i < n,
            from <= i,
            n == s@.len(),
            body == spec_u64_body(s@.skip(from as int)),
            body == s@.skip(i as int),
            body.len() == n - i,
            spec_all_digits(body.take(j - i)),
            acc == spec_dec_value(body.take(j - i)),
        decreases n - j,
    {
        let c = s.get_char(j);
        proof {
            assert(body[j - i] == s@[j as int]);
        }
        if !is_digit(c) {
            proof {
                assert(!spec_is_digit(body[j - i]));
                assert(!spec_all_digits(body));
            }
            return None;
        }
        let d = digit_val(c);
        let wide: u128 = acc as u128 * 10 + d as u128;
        proof {
            assert(body.take(j - i + 1).drop_last() =~= body.take(j - i));
            assert(body.take(j - i + 1).last() == body[j - i]);
            assert(spec_dec_value(body.take(j - i + 1)) == acc * 10 + spec_digit_val(
                body[j - i],
            ));
        }
        if wide > u64::MAX as u128 {
            proof {
                if spec_all_digits(body) {
                    lemma_dec_value_mono(body, j - i + 1);
                    assert(spec_dec_value(body) > u64::MAX);
                }
            }
            return None;
        }
        acc = wide as u64;
        j = j + 1;
    }
    proof {
        assert(body.take(n - i) =~= body);
    }
    Some(acc)
}

/// A five-character, case-insensitive `LOTR-` prefix.
pub open spec fn spec_is_report_prefix(s: Seq<char>) -> bool {
    s.len() == 5 && spec_lower_char(s[0]) == 'l' && spec_lower_char(s[1]) == 'o'
        && spec_lower_char(s[2]) == 't' && spec_lower_char(s[3]) == 'r' && s[4] == '-'
}

/// The identifier text with every leading `LOTR-` prefix removed.
pub open spec fn spec_strip_report_prefix(s: Seq<char>) -> Seq<char>
    decreases s.len(),
{
    if s.len() >= 5 && spec_is_report_prefix(s.take(5)) {
        spec_strip_report_prefix(s.skip(5))
    } else {
        s
    }
}

/// What a record-identifier argument accepts: any number of leading
/// `LOTR-` prefixes in any letter case, then a 64-bit number.
pub open spec fn spec_parse_bug_id(s: Seq<char>) -> Option<u64> {
    spec_parse_u64(spec_strip_report_prefix(s))
}

/// Whether a case-insensitive `LOTR-` prefix stands at position `at`.
fn has_report_prefix_at(s: &str, at: usize) -> (r: bool)
    requires
        at <= s@.len(),
    ensures
        r == (s@.len() - at >= 5 && spec_is_report_prefix(s@.skip(at as int).take(5))),
{
    let n = s.unicode_len();
    let ghost tail = s@.skip(at as int);
    if n - at < 5 {
        return false;
    }
    let r = lower_char(s.get_char(at)) == 'l' && lower_char(s.get_char(at + 1)) == 'o'
        && lower_char(s.get_char(at + 2)) == 't' && lower_char(s.get_char(at + 3)) == 'r'
        && s.get_char(at + 4) == '-';
    proof {
        assert(tail.len() == n - at);
        assert forall|k: int| 0 <= k < 5 implies tail.take(5)[k] == s@[at + k] by {}
        assert(r == spec_is_report_prefix(tail.take(5)));
    }
    r
}

/// Parses a record-identifier argument.
pub fn parse_bug_id(s: &str) -> (r: Option<u64>)
    ensures
        r == spec_parse_bug_id(s@),
{
    let n = s.unicode_len();
    let mut start: usize = 0;
    proof {
        assert(s@.skip(0) =~= s@);
    }
    while has_report_prefix_at(s, start)
        invariant
            start <= n,
            n == s@.len(),
            spec_strip_report_prefix(s@) == spec_strip_report_prefix(s@.skip(start as int)),
        decreases n - start,
    {
        proof {
            let tail = s@.skip(start as int);
            assert(tail.skip(5) =~= s@.skip(start + 5));
        }
        start = start + 5;
    }
    proof {
        let tail = s@.skip(start as int);
        assert(spec_strip_report_prefix(tail) == tail);
    }
    parse_u64_from(s, start)
}

/// The supplementary-link identifier text with every leading `#` removed.
pub open spec fn spec_strip_hash(s: Seq<char>) -> Seq<char>
    decreases s.len(),
{
    if s.len() > 0 && s[0] == '#' {
        spec_strip_hash(s.drop_first())
    } else {
        s
    }
}

/// What a link-identifier argument accepts: any number of leading `#`
/// marks, then a 64-bit number.
pub open spec fn spec_parse_link_id(s: Seq<char>) -> Option<u64> {
    spec_parse_u64(spec_strip_hash(s))
}

/// Parses a link-identifier argument.
pub fn parse_link_id(s: &str) -> (r: Option<u64>)
    ensures
        r == spec_parse_link_id(s@),
{
    let n = s.unicode_len();
    let mut start: usize = 0;
    proof {
        assert(s@.skip(0) =~= s@);
    }
    while start < n && s.get_char(start) == '#'
        invariant
            start <= n,
            n == s@.len(),
            spec_strip_hash(s@) == spec_strip_hash(s@.skip(start as int)),
        decreases n - start,
    {
        proof {
            let tail = s@.skip(start as int);
            assert(tail[0] == s@[start as int]);
            assert(tail.drop_first() =~= s@.skip(start + 1));
        }
        start = start + 1;
    }
    proof {
        let tail = s@.skip(start as int);
        if tail.len() > 0 {
            assert(tail[0] == s@[start as int]);
        }
        assert(spec_strip_hash(tail) == tail);
    }
    parse_u64_from(s, start)
}

/// The ordering a listing keyword selects, if it is one.
pub open spec fn spec_parse_order(s: Seq<char>) -> Option<BugOrder> {
    if s == "latest"@ {
        Some(BugOrder::Chronological(false))
    } else if s == "oldest"@ {
        Some(BugOrder::Chronological(true))
    } else if s == "highest"@ {
        Some(BugOrder::Priority(false))
    } else if s == "lowest"@ {
        Some(BugOrder::Priority(true))
    } else {
        None
    }
}

pub fn parse_order(s: &str) -> (r: Option<BugOrder>)
    ensures
        r == spec_parse_order(s@),
{
    if crate::text::str_eq(s, "latest") {
        Some(BugOrder::Chronological(false))
    } else if crate::text::str_eq(s, "oldest") {
        Some(BugOrder::Chronological(true))
    } else if crate::text::str_eq(s, "highest") {
        Some(BugOrder::Priority(false))
    } else if crate::text::str_eq(s, "lowest") {
        Some(BugOrder::Priority(true))
    } else {
        None
    }
}

/// The edition a listing keyword selects, if it is one.
pub open spec fn spec_parse_edition(s: Seq<char>) -> Option<bool> {
    if s == "legacy"@ {
        Some(true)
    } else if s == "renewed"@ {
        Some(false)
    } else {
        None
    }
}

pub fn parse_edition(s: &str) -> (r: Option<bool>)
    ensures
        r == spec_parse_edition(s@),
{
    if crate::text::str_eq(s, "legacy") {
        Some(true)
    } else if crate::text::str_eq(s, "renewed") {
        Some(false)
    } else {
        None
    }
}

/// The status a name denotes, letter case ignored.
pub open spec fn spec_parse_status(s: Seq<char>) -> Option<BugStatus> {
    if spec_ci_matches(s, "resolved"@) {
        Some(BugStatus::Resolved)
    } else if spec_ci_matches(s, "low"@) {
        Some(BugStatus::Low)
    } else if spec_ci_matches(s, "medium"@) {
        Some(BugStatus::Medium)
    } else if spec_ci_matches(s, "high"@) {
        Some(BugStatus::High)
    } else if spec_ci_matches(s, "critical"@) {
        Some(BugStatus::Critical)
    } else if spec_ci_matches(s, "closed"@) {
        Some(BugStatus::Closed)
    } else if spec_ci_matches(s, "forgevanilla"@) {
        Some(BugStatus::ForgeVanilla)
    } else {
        None
    }
}

pub fn parse_status(s: &str) -> (r: Option<BugStatus>)
    ensures
        r == spec_parse_status(s@),
{
    if ci_matches(s, "resolved") {
        Some(BugStatus::Resolved)
    } else if ci_matches(s, "low") {
        Some(BugStatus::Low)
    } else if ci_matches(s, "medium") {
        Some(BugStatus::Medium)
    } else if ci_matches(s, "high") {
        Some(BugStatus::High)
    } else if ci_matches(s, "critical") {
        Some(BugStatus::Critical)
    } else if ci_matches(s, "closed") {
        Some(BugStatus::Closed)
    } else if ci_matches(s, "forgevanilla") {
        Some(BugStatus::ForgeVanilla)
    } else {
        None
    }
}

/// A title or link label must not be empty; raised before any store call.
pub fn validate_text(s: &str) -> (r: Result<(), EngineError>)
    ensures
        r == if s@.len() == 0 {
            Err::<(), EngineError>(EngineError::Validation)
        } else {
            Ok::<(), EngineError>(())
        },
{
    if s.unicode_len() == 0 {
        Err(EngineError::Validation)
    } else {
        Ok(())
    }
}

} // verus!
