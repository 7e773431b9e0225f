//! Rules that decide whether a submitted name or email address is acceptable.
//!
//! A name is acceptable when it is not blank, has at most
//! [`MAX_NAME_GRAPHEMES`] extended grapheme clusters and holds none of the
//! forbidden characters. An address is acceptable when it has the shape
//! `local-part "@" domain` with both sides non-empty and the HTML5 grammar for
//! email addresses accepts it.

use vstd::prelude::*;

verus! {

/// The longest name accepted, counted in extended grapheme clusters.
pub const MAX_NAME_GRAPHEMES: usize = 256;

// ---------------------------------------------------------------------------
// Model
// ---------------------------------------------------------------------------

/// The characters with the Unicode property `White_Space`.
pub open spec fn is_white_space(c: char) -> bool {
    let n = c as u32;
    ||| 0x09 <= n <= 0x0D
    ||| n == 0x20
    ||| n == 0x85
    ||| n == 0xA0
    ||| n == 0x1680
    ||| 0x2000 <= n <= 0x200A
    ||| n == 0x2028
    ||| n == 0x2029
    ||| n == 0x202F
    ||| n == 0x205F
    ||| n == 0x3000
}

/// Every character of `s` is white space; the empty string is blank.
pub open spec fn is_blank(s: Seq<char>) -> bool {
    forall|i: int| 0 <= i < s.len() ==> is_white_space(#[trigger] s[i])
}

/// The characters that no name may contain.
pub open spec fn is_forbidden_char(c: char) -> bool {
    c == '/' || c == '(' || c == ')' || c == '"' || c == '<' || c == '>' || c == '\\' || c == '{'
        || c == '}'
}

/// Some character of `s` is forbidden in names.
pub open spec fn has_forbidden_char(s: Seq<char>) -> bool {
    exists|i: int| 0 <= i < s.len() && is_forbidden_char(#[trigger] s[i])
}

/// The number of extended grapheme clusters of `s`, as Unicode Standard
/// Annex #29 delimits them.
pub uninterp spec fn grapheme_count(s: Seq<char>) -> nat;

/// The rule for names, given the number of grapheme clusters of `s`.
pub open spec fn name_rule(s: Seq<char>, graphemes: nat) -> bool {
    !(is_blank(s) || graphemes > MAX_NAME_GRAPHEMES || has_forbidden_char(s))
}

/// `s` is an acceptable subscriber name.
pub open spec fn valid_name(s: Seq<char>) -> bool {
    name_rule(s, grapheme_count(s))
}

/// `k` is the position of the last `@` of `s`.
pub open spec fn is_last_at(s: Seq<char>, k: int) -> bool {
    &&& 0 <= k < s.len()
    &&& s[k] == '@'
    &&& forall|j: int| k < j < s.len() ==> s[j] != '@'
}

/// `s` reads `local-part "@" domain`, split at its last `@`, with at least one
/// character on each side.
pub open spec fn address_shape(s: Seq<char>) -> bool {
    exists|k: int| #[trigger] is_last_at(s, k) && 0 < k && k + 1 < s.len()
}

/// The HTML5 grammar for email addresses accepts `s`.
pub uninterp spec fn email_grammar(s: Seq<char>) -> bool;

/// The rule for addresses, given what the grammar says of `s`.
pub open spec fn email_rule(s: Seq<char>, grammar_accepts: bool) -> bool {
    address_shape(s) && grammar_accepts
}

/// `s` is an acceptable subscriber email address.
pub open spec fn valid_email(s: Seq<char>) -> bool {
    email_rule(s, email_grammar(s))
}

// ---------------------------------------------------------------------------
// Calls into other crates, whose contracts are taken on trust
// ---------------------------------------------------------------------------

/// `unicode_segmentation::UnicodeSegmentation::graphemes` with extended
/// clusters, counted. Trusted: the count depends on the characters of `s`
/// alone; it is what [`grapheme_count`] names.
#[verifier::external_body]
fn count_graphemes(s: &str) -> (n: usize)
    ensures
        n == grapheme_count(s@),
{
    unicode_segmentation::UnicodeSegmentation::graphemes(s, true).count()
}

/// `validator::validate_email`. Trusted: the verdict depends on the characters
/// of `s` alone; it is what [`email_grammar`] names.
#[verifier::external_body]
fn validate_email(s: &str) -> (accepted: bool)
    ensures
        accepted == email_grammar(s@),
{
    validator::validate_email(s)
}

// ---------------------------------------------------------------------------
// Names
// ---------------------------------------------------------------------------

fn forbidden(c: char) -> (b: bool)
    ensures
        b == is_forbidden_char(c),
{
    c == '/' || c == '(' || c == ')' || c == '"' || c == '<' || c == '>' || c == '\\' || c == '{'
        || c == '}'
}

fn contains_forbidden_char(s: &str) -> (found: bool)
    ensures
        found == has_forbidden_char(s@),
{
    let mut found = false;
    for c in it: s.chars()
        invariant
            it.seq() == s@,
            found == (exists|i: int| 0 <= i < it.index() && is_forbidden_char(#[trigger] s@[i])),
    {
        if forbidden(c) {
            found = true;
        }
    }
    found
}

/// Whether `c` has the Unicode property `White_Space`.
pub fn white_space(c: char) -> (b: bool)
    ensures
        b == is_white_space(c),
{
    let n = c as u32;
    (0x09 <= n && n <= 0x0D) || n == 0x20 || n == 0x85 || n == 0xA0 || n == 0x1680 || (0x2000 <= n
        && n <= 0x200A) || n == 0x2028 || n == 0x2029 || n == 0x202F || n == 0x205F || n == 0x3000
}

fn blank(s: &str) -> (b: bool)
    ensures
        b == is_blank(s@),
{
    let mut b = true;
    for c in it: s.chars()
        invariant
            it.seq() == s@,
            b == (forall|i: int| 0 <= i < it.index() ==> is_white_space(#[trigger] s@[i])),
    {
        if !white_space(c) {
            b = false;
        }
    }
    b
}

/// Decides whether `name` is acceptable, given the number of extended grapheme
/// clusters it has.
pub fn check_name(name: &str, graphemes: usize) -> (ok: bool)
    ensures
        ok == name_rule(name@, graphemes as nat),
{
    let is_empty_or_whitespace = blank(name);
    let is_too_long = graphemes > MAX_NAME_GRAPHEMES;
    let contains_forbidden_char = contains_forbidden_char(name);
    !(is_empty_or_whitespace || is_too_long || contains_forbidden_char)
}

/// Whether `name` is an acceptable subscriber name: not blank, at most
/// [`MAX_NAME_GRAPHEMES`] grapheme clusters long, free of forbidden characters.
pub fn is_valid_name(name: &str) -> (ok: bool)
    ensures
        ok == valid_name(name@),
{
    let graphemes = count_graphemes(name);
    check_name(name, graphemes)
}

// ---------------------------------------------------------------------------
// Addresses
// ---------------------------------------------------------------------------

fn has_address_shape(s: &str) -> (ok: bool)
    ensures
        ok == address_shape(s@),
{
    let mut seen_any = false;
    let mut seen_at = false;
    let mut local_part = false;
    let mut domain_part = false;
    let ghost mut last: int = -1;
    for c in it: s.chars()
        invariant
            it.seq() == s@,
            seen_any == (it.index() > 0),
            seen_at == (last >= 0),
            -1 <= last < it.index(),
            last >= 0 ==> s@[last] == '@',
            forall|j: int| last < j < it.index() ==> s@[j] != '@',
            local_part == (last > 0),
            domain_part == (last >= 0 && last + 1 < it.index()),
    {
        if c == '@' {
            local_part = seen_any;
            seen_at = true;
            domain_part = false;
            proof {
                last = it.index();
            }
        } else if seen_at {
            domain_part = true;
        }
        seen_any = true;
    }
    proof {
        if last >= 0 {
            assert(is_last_at(s@, last));
        }
        if address_shape(s@) {
            let k = choose|k: int| #[trigger] is_last_at(s@, k) && 0 < k && k + 1 < s@.len();
            assert(k == last);
        }
    }
    seen_at && local_part && domain_part
}

/// Decides whether `email` is acceptable, given what the grammar for email
/// addresses says of it.
pub fn check_email(email: &str, grammar_accepts: bool) -> (ok: bool)
    ensures
        ok == email_rule(email@, grammar_accepts),
{
    has_address_shape(email) && grammar_accepts
}

/// Whether `email` is an acceptable subscriber email address: it reads
/// `local-part "@" domain` with neither part empty, and the HTML5 grammar for
/// email addresses accepts it. The first is decided here, so it holds of
/// every accepted address whatever the grammar lets through.
pub fn is_valid_email(email: &str) -> (ok: bool)
    ensures
        ok == valid_email(email@),
{
    let grammar_accepts = validate_email(email);
    check_email(email, grammar_accepts)
}

// ---------------------------------------------------------------------------
// Laws
// ---------------------------------------------------------------------------

/// A name of more than [`MAX_NAME_GRAPHEMES`] grapheme clusters, that is of
/// more than 256, is not valid.
pub proof fn lemma_long_name_is_invalid(s: Seq<char>)
    requires
        grapheme_count(s) > MAX_NAME_GRAPHEMES,
    ensures
        !valid_name(s),
{
}

/// A string that is empty or made of white space only is neither a valid name
/// nor a valid email address.
pub proof fn lemma_blank_is_invalid(s: Seq<char>)
    requires
        is_blank(s),
    ensures
        !valid_name(s),
        !valid_email(s),
{
    if address_shape(s) {
        let k = choose|k: int| #[trigger] is_last_at(s, k) && 0 < k && k + 1 < s.len();
        assert(is_white_space(s[k]));
    }
}

/// A string that holds one of `/ ( ) " < > \ { }` is not a valid name.
pub proof fn lemma_forbidden_char_is_invalid(s: Seq<char>, i: int)
    requires
        0 <= i < s.len(),
        is_forbidden_char(s[i]),
    ensures
        !valid_name(s),
{
}

/// A string without `@` is not a valid email address.
pub proof fn lemma_email_needs_at(s: Seq<char>)
    requires
        !s.contains('@'),
    ensures
        !valid_email(s),
{
    if address_shape(s) {
        let k = choose|k: int| #[trigger] is_last_at(s, k) && 0 < k && k + 1 < s.len();
        assert(s.contains(s[k]));
    }
}

/// An address with nothing before its last `@`, or nothing after it, is not a
/// valid email address.
pub proof fn lemma_email_needs_both_parts(s: Seq<char>, k: int)
    requires
        is_last_at(s, k),
        k == 0 || k == s.len() - 1,
    ensures
        !valid_email(s),
{
    if address_shape(s) {
        let m = choose|m: int| #[trigger] is_last_at(s, m) && 0 < m && m + 1 < s.len();
        assert(m == k);
    }
}

/// A valid email address splits at its last `@` into a local part and a
/// domain, neither of them empty, and the domain holds no `@`.
pub proof fn lemma_valid_email_has_two_parts(s: Seq<char>) -> (k: int)
    requires
        valid_email(s),
    ensures
        0 < k < s.len() - 1,
        s == s.take(k).push('@') + s.skip(k + 1),
        s.take(k).len() > 0,
        s.skip(k + 1).len() > 0,
        !s.skip(k + 1).contains('@'),
{
    let k = choose|k: int| #[trigger] is_last_at(s, k) && 0 < k && k + 1 < s.len();
    assert(s =~= s.take(k).push('@') + s.skip(k + 1));
    let domain = s.skip(k + 1);
    if domain.contains('@') {
        let j = choose|j: int| 0 <= j < domain.len() && domain[j] == '@';
        assert(s[k + 1 + j] == '@');
    }
    k
}

} // verus!
