//! Join codes of chat groups: the upper-case base-36 rendering of a seed
//! made from the group's id and its creation time.

use vstd::prelude::*;
use crate::text::push_char;

verus! {

/// The upper-case base-36 digit for `d < 36`: `0`-`9`, then `A`-`Z`.
pub open spec fn base36_digit(d: nat) -> char {
    if d < 10 {
        ('0' as nat + d) as char
    } else {
        ('A' as nat + (d - 10)) as char
    }
}

/// The upper-case base-36 rendering of `n` without leading zeros.
pub open spec fn base36(n: nat) -> Seq<char>
    decreases n,
{
    if n < 36 {
        seq![base36_digit(n)]
    } else {
        base36(n / 36).push(base36_digit(n % 36))
    }
}

/// The number from which a group's join code is made.
pub open spec fn code_seed(group_id: nat, unix_time: nat) -> nat {
    group_id * 10000 + unix_time % 10000
}

/// The join code of group `group_id` created at `unix_time`.
pub open spec fn join_code(group_id: nat, unix_time: nat) -> Seq<char> {
    base36(code_seed(group_id, unix_time))
}

fn base36_char(d: usize) -> (c: char)
    requires
        d < 36,
    ensures
        c == base36_digit(d as nat),
{
    let b: u8 = if d < 10 { 48u8 + d as u8 } else { 65u8 + (d - 10) as u8 };
    let c = b as char;
    assert(c as nat == base36_digit(d as nat) as nat);
    c
}

fn push_base36(s: &mut String, n: usize)
    ensures
        final(s)@ == old(s)@ + base36(n as nat),
    decreases n,
{
    if n >= 36 {
        push_base36(s, n / 36);
    }
    let c = base36_char(n % 36);
    push_char(s, c);
    proof {
        if n >= 36 {
            assert(old(s)@ + base36(n as nat) =~= old(s)@ + base36((n / 36) as nat) + seq![c]);
        } else {
            assert(old(s)@ + base36(n as nat) =~= old(s)@.push(c));
        }
    }
}

/// The join code of a new group: `group_id * 10000 + unix_time % 10000`
/// written in upper-case base 36.
pub fn generate_code(group_id: usize, unix_time: usize) -> (code: String)
    requires
        group_id * 10000 + unix_time % 10000 <= usize::MAX,
    ensures
        code@ == join_code(group_id as nat, unix_time as nat),
{
    let seed = group_id * 10000 + unix_time % 10000;
    let mut code = String::new();
    push_base36(&mut code, seed);
    assert(code@ =~= base36(seed as nat));
    code
}

/// The value of an upper-case base-36 digit.
pub open spec fn base36_digit_value(c: char) -> nat {
    if '0' <= c && c <= '9' {
        (c as nat - '0' as nat) as nat
    } else if 'A' <= c && c <= 'Z' {
        (c as nat - 'A' as nat + 10) as nat
    } else {
        0
    }
}

/// The number that a string of upper-case base-36 digits denotes.
pub open spec fn base36_value(s: Seq<char>) -> nat
    decreases s.len(),
{
    if s.len() == 0 {
        0
    } else {
        base36_value(s.drop_last()) * 36 + base36_digit_value(s.last())
    }
}

proof fn lemma_base36_digit_value(d: nat)
    requires
        d < 36,
    ensures
        base36_digit_value(base36_digit(d)) == d,
        ('0' <= base36_digit(d) && base36_digit(d) <= '9') || ('A' <= base36_digit(d) && base36_digit(d) <= 'Z'),
{
}

/// Reading a base-36 rendering back gives the number.
pub proof fn lemma_base36_value_of_base36(n: nat)
    ensures
        base36_value(base36(n)) == n,
    decreases n,
{
    if n < 36 {
        lemma_base36_digit_value(n);
        assert(base36(n).drop_last() =~= Seq::<char>::empty());
        assert(base36_value(Seq::<char>::empty()) == 0);
        assert(base36_value(base36(n)) == base36_value(base36(n).drop_last()) * 36 + base36_digit_value(base36(n).last()));
    } else {
        lemma_base36_value_of_base36(n / 36);
        lemma_base36_digit_value(n % 36);
        assert(base36(n).drop_last() =~= base36(n / 36));
        assert(base36(n).last() == base36_digit(n % 36));
        assert((n / 36) * 36 + n % 36 == n);
        assert(base36_value(base36(n)) == base36_value(base36(n / 36)) * 36 + base36_digit_value(base36_digit(n % 36)));
    }
}

/// Two groups get the same join code exactly when they have the same id
/// and their creation times agree modulo 10000; in particular groups with
/// different ids never share a code.
pub proof fn lemma_join_code_unique(g1: nat, t1: nat, g2: nat, t2: nat)
    ensures
        join_code(g1, t1) == join_code(g2, t2) <==> (g1 == g2 && t1 % 10000 == t2 % 10000),
{
    if join_code(g1, t1) == join_code(g2, t2) {
        lemma_base36_value_of_base36(code_seed(g1, t1));
        lemma_base36_value_of_base36(code_seed(g2, t2));
    }
}

/// Every character of a join code is a digit or an upper-case letter, and
/// a code is never empty.
pub proof fn lemma_join_code_alphabet(n: nat)
    ensures
        forall|i: int| 0 <= i < base36(n).len() ==> {
            let c = #[trigger] base36(n)[i];
            ('0' <= c && c <= '9') || ('A' <= c && c <= 'Z')
        },
        base36(n).len() >= 1,
    decreases n,
{
    if n >= 36 {
        lemma_join_code_alphabet(n / 36);
        lemma_base36_digit_value(n % 36);
    } else {
        lemma_base36_digit_value(n);
    }
}

} // verus!
