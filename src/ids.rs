//! Content-derived identifiers of banks and partnerships.
use std::cmp::Ordering;
use std::collections::hash_map::DefaultHasher;
use std::hash::{Hash, Hasher};
use vstd::prelude::*;
use vstd::std_specs::hash::DefaultHasherAdditionalSpecFns;
use vstd::string::*;

verus! {

/// The writes that hashing one name makes into a hasher.
pub uninterp spec fn name_feed(name: Seq<char>) -> Seq<Seq<u8>>;

/// The writes that hashing an ordered pair of names makes into a hasher.
pub uninterp spec fn name_pair_feed(first: Seq<char>, second: Seq<char>) -> Seq<Seq<u8>>;

/// Relies on `<str as Hash>::hash`: what it feeds the hasher depends on the
/// characters of the name alone.
#[verifier::external_body]
fn feed_name(name: &str, hasher: &mut DefaultHasher)
    ensures
        final(hasher)@ == old(hasher)@ + name_feed(name@),
{
    name.hash(hasher)
}

/// Relies on `<(&str, &str) as Hash>::hash`: what it feeds the hasher
/// depends on the characters of the two names, in order, alone.
#[verifier::external_body]
fn feed_name_pair(first: &str, second: &str, hasher: &mut DefaultHasher)
    ensures
        final(hasher)@ == old(hasher)@ + name_pair_feed(first@, second@),
{
    (first, second).hash(hasher)
}

/// The digest of one name.
pub open spec fn name_hash(name: Seq<char>) -> u64 {
    DefaultHasher::spec_finish(name_feed(name))
}

/// The digest of an ordered pair of names.
pub open spec fn name_pair_hash(first: Seq<char>, second: Seq<char>) -> u64 {
    DefaultHasher::spec_finish(name_pair_feed(first, second))
}

/// Hashes a name with a fresh `DefaultHasher`.
fn hash_name(name: &str) -> (r: u64)
    ensures
        r == name_hash(name@),
{
    let mut hasher = DefaultHasher::new();
    feed_name(name, &mut hasher);
    assert(hasher@ =~= name_feed(name@));
    hasher.finish()
}

/// Hashes an ordered pair of names with a fresh `DefaultHasher`.
fn hash_name_pair(first: &str, second: &str) -> (r: u64)
    ensures
        r == name_pair_hash(first@, second@),
{
    let mut hasher = DefaultHasher::new();
    feed_name_pair(first, second, &mut hasher);
    assert(hasher@ =~= name_pair_feed(first@, second@));
    hasher.finish()
}

/// Lexicographic order of two names, character by character by code point.
pub open spec fn name_order(a: Seq<char>, b: Seq<char>) -> Ordering
    decreases a.len(),
{
    if a.len() == 0 {
        if b.len() == 0 {
            Ordering::Equal
        } else {
            Ordering::Less
        }
    } else if b.len() == 0 {
        Ordering::Greater
    } else if (a[0] as u32) < (b[0] as u32) {
        Ordering::Less
    } else if (a[0] as u32) > (b[0] as u32) {
        Ordering::Greater
    } else {
        name_order(a.drop_first(), b.drop_first())
    }
}

/// Relies on `Ord for str`: strings are ordered lexicographically, which
/// orders characters by their code points.
#[verifier::external_body]
fn compare_names(a: &str, b: &str) -> (r: Ordering)
    ensures
        r == name_order(a@, b@),
{
    a.cmp(b)
}

/// Two names compare equal exactly when they are the same.
pub proof fn lemma_name_order_equal(a: Seq<char>, b: Seq<char>)
    ensures
        (name_order(a, b) == Ordering::Equal) <==> (a == b),
    decreases a.len(),
{
    if a.len() > 0 && b.len() > 0 {
        if (a[0] as u32) == (b[0] as u32) {
            vstd::utf8::char_u32_cast(a[0], a[0] as u32);
            vstd::utf8::char_u32_cast(b[0], b[0] as u32);
            lemma_name_order_equal(a.drop_first(), b.drop_first());
            assert(a =~= seq![a[0]] + a.drop_first());
            assert(b =~= seq![b[0]] + b.drop_first());
        } else {
            vstd::utf8::char_u32_cast(a[0], a[0] as u32);
            vstd::utf8::char_u32_cast(b[0], b[0] as u32);
        }
    } else if a.len() > 0 {
        assert(a.len() != b.len());
    } else if b.len() > 0 {
        assert(a.len() != b.len());
    } else {
        assert(a =~= b);
    }
}

/// Swapping the two names reverses their order.
pub proof fn lemma_name_order_swap(a: Seq<char>, b: Seq<char>)
    ensures
        name_order(b, a) == match name_order(a, b) {
            Ordering::Less => Ordering::Greater,
            Ordering::Greater => Ordering::Less,
            Ordering::Equal => Ordering::Equal,
        },
    decreases a.len(),
{
    if a.len() > 0 && b.len() > 0 && (a[0] as u32) == (b[0] as u32) {
        lemma_name_order_swap(a.drop_first(), b.drop_first());
    }
}

/// The lowercase hexadecimal digit of a value below sixteen.
pub open spec fn hex_char(d: nat) -> char {
    "0123456789abcdef"@[d as int]
}

/// The lowercase hexadecimal numeral of `n`, without leading zeros.
pub open spec fn hex_of(n: nat) -> Seq<char>
    decreases n,
{
    if n < 16 {
        seq![hex_char(n)]
    } else {
        hex_of(n / 16).push(hex_char(n % 16))
    }
}

/// The identifier of a bank: the hexadecimal digest of its name.
pub open spec fn bank_id_of(bank: Seq<char>) -> Seq<char> {
    hex_of(name_hash(bank) as nat)
}

/// The identifier of the partnership of two different banks: the
/// hexadecimal digest of their names, the smaller one first.
pub open spec fn partnership_id_of(bank_a: Seq<char>, bank_b: Seq<char>) -> Seq<char> {
    if name_order(bank_a, bank_b) == Ordering::Less {
        hex_of(name_pair_hash(bank_a, bank_b) as nat)
    } else {
        hex_of(name_pair_hash(bank_b, bank_a) as nat)
    }
}

/// Appends the lowercase hexadecimal numeral of `n`.
fn push_hex(out: &mut String, n: u64)
    ensures
        final(out)@ == old(out)@ + hex_of(n as nat),
    decreases n,
{
    if n >= 16 {
        push_hex(out, n / 16);
    }
    let d = (n % 16) as usize;
    let digits = "0123456789abcdef";
    proof {
        reveal_strlit("0123456789abcdef");
    }
    let digit = digits.substring_ascii(d, d + 1);
    assert(digit@ =~= seq![hex_char(d as nat)]);
    out.append(digit);
    proof {
        if n >= 16 {
            assert(hex_of(n as nat) == hex_of((n / 16) as nat).push(hex_char((n % 16) as nat)));
        }
        assert(final(out)@ =~= old(out)@ + hex_of(n as nat));
    }
}

/// The lowercase hexadecimal numeral of `n`.
pub fn hex_string(n: u64) -> (r: String)
    ensures
        r@ == hex_of(n as nat),
{
    let mut out = String::new();
    push_hex(&mut out, n);
    assert(out@ =~= hex_of(n as nat));
    out
}

/// The identifier of a bank, derived from its name alone.
pub fn get_bank_id(bank: &str) -> (r: String)
    ensures
        r@ == bank_id_of(bank@),
{
    hex_string(hash_name(bank))
}

/// The identifier of the partnership of two different banks; it does not
/// depend on the order in which the two are given.
pub fn get_partnership_id(bank_a: String, bank_b: String) -> (r: String)
    requires
        bank_a@ != bank_b@,
    ensures
        r@ == partnership_id_of(bank_a@, bank_b@),
{
    proof {
        lemma_name_order_equal(bank_a@, bank_b@);
    }
    match compare_names(bank_a.as_str(), bank_b.as_str()) {
        Ordering::Less => hex_string(hash_name_pair(bank_a.as_str(), bank_b.as_str())),
        _ => hex_string(hash_name_pair(bank_b.as_str(), bank_a.as_str())),
    }
}

/// The partnership identifier does not depend on the order of the two banks.
pub proof fn partnership_id_symmetric(bank_a: Seq<char>, bank_b: Seq<char>)
    requires
        bank_a != bank_b,
    ensures
        partnership_id_of(bank_a, bank_b) == partnership_id_of(bank_b, bank_a),
{
    lemma_name_order_equal(bank_a, bank_b);
    lemma_name_order_swap(bank_a, bank_b);
}

/// Deriving a bank identifier twice from the same name gives the same
/// identifier.
pub proof fn bank_id_deterministic(first: Seq<char>, second: Seq<char>)
    requires
        first == second,
    ensures
        bank_id_of(first) == bank_id_of(second),
{
}

} // verus!
