//! The identity generator: a readable resource name for a submission whose
//! author gave none.
//!
//! A name is the prefix `run-` and eight characters out of `0-9a-z`. The
//! eight characters are the base-36 digits of a number below 36^8, lowest
//! digit first, so that a uniform number gives a uniform name. Nothing
//! makes two names differ but chance: the control plane is the one to
//! refuse a name that is taken.

use rand::Rng;
use vstd::prelude::*;
use vstd::string::*;

verus! {

/// What every generated name begins with.
pub const NAME_PREFIX: &'static str = "run-";

/// The number of characters after the prefix.
pub const SUFFIX_LENGTH: usize = 8;

/// The number of suffixes: 36^8.
pub const SUFFIX_SPACE: u64 = 2_821_109_907_456;

/// 36 to the power of `n`.
pub open spec fn spec_power(n: nat) -> nat
    decreases n,
{
    if n == 0 {
        1
    } else {
        36 * spec_power((n - 1) as nat)
    }
}

/// The character of a digit: `0` to `9`, then `a` to `z`. A number that
/// is no digit stands for its remainder by 36.
pub open spec fn spec_symbol(digit: int) -> char {
    let d = digit % 36;
    if d < 10 {
        (48 + d) as char
    } else {
        (87 + d) as char
    }
}

/// The lowest `n` base-36 digits of `number` as characters, lowest first.
pub open spec fn spec_digits(number: nat, n: nat) -> Seq<char>
    decreases n,
{
    if n == 0 {
        Seq::empty()
    } else {
        seq![spec_symbol((number % 36) as int)] + spec_digits(number / 36, (n - 1) as nat)
    }
}

/// The name that stands for `number`.
pub open spec fn spec_name(number: nat) -> Seq<char> {
    NAME_PREFIX@ + spec_digits(number, SUFFIX_LENGTH as nat)
}

/// A character that may stand in a name after the prefix.
pub open spec fn spec_name_char(c: char) -> bool {
    ||| 'a' <= c <= 'z'
    ||| '0' <= c <= '9'
    ||| c == '-'
}

/// Whether `name` is `prefix` and at least one character more, each out
/// of `a-z`, `0-9` and `-`.
pub open spec fn spec_extends(prefix: Seq<char>, name: Seq<char>) -> bool {
    &&& name.len() > prefix.len()
    &&& name.subrange(0, prefix.len() as int) == prefix
    &&& forall|i: int| prefix.len() <= i < name.len() ==> spec_name_char(#[trigger] name[i])
}

/// A name of the form `run-` and at least one character out of `a-z`,
/// `0-9` and `-`.
pub open spec fn spec_valid_name(name: Seq<char>) -> bool {
    spec_extends(NAME_PREFIX@, name)
}

/// The character of a digit.
pub fn symbol(digit: u8) -> (c: char)
    ensures
        c == spec_symbol(digit as int),
{
    let d: u8 = digit % 36;
    if d < 10 {
        (48 + d) as char
    } else {
        (87 + d) as char
    }
}

/// The name that stands for `number`. Only the lowest eight base-36 digits
/// of the number count.
pub fn name_from(number: u64) -> (name: String)
    ensures
        name@ == spec_name(number as nat),
{
    let mut name = String::from_str(NAME_PREFIX);
    let mut rest: u64 = number;
    let mut i: usize = 0;
    while i < SUFFIX_LENGTH
        invariant
            i <= SUFFIX_LENGTH,
            name@ + spec_digits(rest as nat, (SUFFIX_LENGTH - i) as nat) == spec_name(number as nat),
        decreases SUFFIX_LENGTH - i,
    {
        let ghost before = name@;
        let digit: u8 = (rest % 36) as u8;
        name.push(symbol(digit));
        assert(name@ + spec_digits((rest / 36) as nat, (SUFFIX_LENGTH - i - 1) as nat) =~= before
            + spec_digits(rest as nat, (SUFFIX_LENGTH - i) as nat));
        rest = rest / 36;
        i = i + 1;
    }
    assert(name@ + spec_digits(rest as nat, 0) =~= name@);
    name
}

/// A number below `bound`, drawn uniformly by the thread's generator
/// (`rand::Rng::gen_range` on `rand::thread_rng()`, with the range from 0
/// up to and without `bound`). An empty range makes it panic, so `bound`
/// is not 0.
#[verifier::external_body]
fn random_below(bound: u64) -> (number: u64)
    requires
        bound > 0,
    ensures
        number < bound,
{
    rand::thread_rng().gen_range(0..bound)
}

/// A fresh name: the name of a number that is drawn uniformly from all the
/// numbers that have one of their own.
pub fn generate_name() -> (name: String)
    ensures
        exists|number: nat| number < SUFFIX_SPACE && name@ == spec_name(number),
        spec_valid_name(name@),
{
    let number = random_below(SUFFIX_SPACE);
    proof {
        lemma_name_is_valid(number as nat);
    }
    name_from(number)
}

/// Whether `name` is `prefix` and at least one character more, each out
/// of `a-z`, `0-9` and `-`.
pub fn extends(prefix: &str, name: &str) -> (r: bool)
    ensures
        r == spec_extends(prefix@, name@),
{
    let p = prefix.unicode_len();
    let n = name.unicode_len();
    if n <= p {
        return false;
    }
    let mut i: usize = 0;
    while i < p
        invariant
            i <= p,
            p == prefix@.len(),
            n == name@.len(),
            p < n,
            forall|k: int| 0 <= k < i ==> name@[k] == prefix@[k],
        decreases p - i,
    {
        if name.get_char(i) != prefix.get_char(i) {
            assert(name@.subrange(0, p as int)[i as int] == name@[i as int]);
            return false;
        }
        i = i + 1;
    }
    assert(name@.subrange(0, p as int) =~= prefix@);
    while i < n
        invariant
            p <= i <= n,
            p == prefix@.len(),
            n == name@.len(),
            forall|k: int| p <= k < i ==> spec_name_char(#[trigger] name@[k]),
        decreases n - i,
    {
        let c = name.get_char(i);
        let fits = ('a' <= c && c <= 'z') || ('0' <= c && c <= '9') || c == '-';
        if !fits {
            assert(!spec_name_char(name@[i as int]));
            return false;
        }
        i = i + 1;
    }
    true
}

/// Whether `name` has the form of a run's name.
pub fn is_valid_name(name: &str) -> (r: bool)
    ensures
        r == spec_valid_name(name@),
{
    extends(NAME_PREFIX, name)
}

/// `n` digits make `n` characters.
pub proof fn lemma_digits_length(number: nat, n: nat)
    ensures
        spec_digits(number, n).len() == n,
    decreases n,
{
    if n > 0 {
        lemma_digits_length(number / 36, (n - 1) as nat);
    }
}

/// Every character of a digit may stand in a name.
pub proof fn lemma_digits_are_name_chars(number: nat, n: nat)
    ensures
        forall|i: int| 0 <= i < n ==> spec_name_char(#[trigger] spec_digits(number, n)[i]),
    decreases n,
{
    lemma_digits_length(number, n);
    if n > 0 {
        lemma_digits_length(number / 36, (n - 1) as nat);
        lemma_digits_are_name_chars(number / 36, (n - 1) as nat);
        let tail = spec_digits(number / 36, (n - 1) as nat);
        assert forall|i: int| 0 <= i < n implies spec_name_char(
            #[trigger] spec_digits(number, n)[i],
        ) by {
            if i > 0 {
                assert(spec_digits(number, n)[i] == tail[i - 1]);
            }
        }
    }
}

/// Every generated name has the form of a run's name, and twelve
/// characters.
pub proof fn lemma_name_is_valid(number: nat)
    ensures
        spec_valid_name(spec_name(number)),
        spec_name(number).len() == 12,
{
    reveal_strlit("run-");
    lemma_digits_length(number, 8);
    lemma_digits_are_name_chars(number, 8);
    let name = spec_name(number);
    assert(name.subrange(0, 4) =~= NAME_PREFIX@);
    assert forall|i: int| 4 <= i < name.len() implies spec_name_char(#[trigger] name[i]) by {
        assert(name[i] == spec_digits(number, 8)[i - 4]);
    }
}

/// Two numbers with the same `n` digits are the same number, where both
/// are below 36 to the power of `n`.
pub proof fn lemma_digits_differ(a: nat, b: nat, n: nat)
    requires
        a < spec_power(n),
        b < spec_power(n),
        spec_digits(a, n) == spec_digits(b, n),
    ensures
        a == b,
    decreases n,
{
    if n > 0 {
        let m = (n - 1) as nat;
        let tail_a = spec_digits(a / 36, m);
        let tail_b = spec_digits(b / 36, m);
        let da = seq![spec_symbol((a % 36) as int)] + tail_a;
        let db = seq![spec_symbol((b % 36) as int)] + tail_b;
        assert(da[0] == db[0]);
        assert(a % 36 == b % 36);
        assert(tail_a =~= da.subrange(1, da.len() as int));
        assert(tail_b =~= db.subrange(1, db.len() as int));
        lemma_digits_differ(a / 36, b / 36, m);
    }
}

/// Different numbers below 36^8 have different names: two generated names
/// are the same only where the generator drew the same number twice.
pub proof fn lemma_names_differ(a: nat, b: nat)
    requires
        a < SUFFIX_SPACE,
        b < SUFFIX_SPACE,
        a != b,
    ensures
        spec_name(a) != spec_name(b),
{
    assert(spec_power(8) == SUFFIX_SPACE) by {
        reveal_with_fuel(spec_power, 9);
    }
    let da = spec_digits(a, 8);
    let db = spec_digits(b, 8);
    if spec_name(a) == spec_name(b) {
        lemma_digits_length(a, 8);
        lemma_digits_length(b, 8);
        assert(da =~= spec_name(a).subrange(NAME_PREFIX@.len() as int, spec_name(a).len() as int));
        assert(db =~= spec_name(b).subrange(NAME_PREFIX@.len() as int, spec_name(b).len() as int));
        lemma_digits_differ(a, b, 8);
    }
}

} // verus!
