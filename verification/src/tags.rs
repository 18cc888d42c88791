//! Correlation-tag generation for the command channel.
//!
//! Every request sent on a command connection carries a fresh tag of the
//! form `message_<n>`, where the counter starts at 1 and increases by 1
//! on every call.  The server echoes the tag back, and the correlator
//! routes the response by it, so tags must never repeat on a connection.

use vstd::prelude::*;

use crate::strutil::dec_digits;
use crate::strutil::digit_char;
use crate::strutil::u64_to_dec;

verus! {

/// The tag text for counter value `n`.
pub open spec fn tag_of(n: nat) -> Seq<char> {
    "message_"@ + dec_digits(n)
}

/// Generator of correlation tags, one per command connection.
#[derive(Debug)]
pub struct TagMaker {
    counter: u64,
}

impl TagMaker {
    /// How many tags have been handed out so far.
    pub closed spec fn issued(&self) -> nat {
        self.counter as nat
    }

    /// A fresh generator; its first tag is `message_1`.
    pub fn new() -> (r: TagMaker)
        ensures
            r.issued() == 0,
    {
        TagMaker { counter: 0 }
    }

    /// The next tag in the series.
    ///
    /// The counter must stay below `u64::MAX`; a connection never comes
    /// near that many requests.
    pub fn next(&mut self) -> (r: String)
        requires
            old(self).issued() < u64::MAX,
        ensures
            final(self).issued() == old(self).issued() + 1,
            r@ == tag_of(old(self).issued() + 1),
    {
        self.counter = self.counter + 1;
        let mut r = "message_".to_owned();
        r.append(u64_to_dec(self.counter).as_str());
        r
    }
}

impl Default for TagMaker {
    /// Same as `TagMaker::new`.
    fn default() -> (r: TagMaker)
        ensures
            r.issued() == 0,
    {
        TagMaker::new()
    }
}

/// The decimal value written by `dec_digits`, read back.
pub open spec fn dec_val(s: Seq<char>) -> nat
    decreases s.len(),
{
    if s.len() <= 1 {
        if s.len() == 1 {
            ((s[0] as int - '0' as int) % 10) as nat
        } else {
            0
        }
    } else {
        dec_val(s.drop_last()) * 10 + ((s.last() as int - '0' as int) % 10) as nat
    }
}

proof fn lemma_digit_char_val(d: nat)
    requires
        d < 10,
    ensures
        digit_char(d) as nat == '0' as nat + d,
        digit_char(d) as nat - '0' as nat == d,
{
    assert(('0' as u8) as nat == 48);
    assert((('0' as u8) + d) as nat == 48 + d);
}

proof fn lemma_dec_digits_len(n: nat)
    ensures
        dec_digits(n).len() >= 1,
        n >= 10 ==> dec_digits(n).len() >= 2,
    decreases n,
{
    if n >= 10 {
        lemma_dec_digits_len(n / 10);
    }
}

proof fn lemma_dec_val_inverts(n: nat)
    ensures
        dec_val(dec_digits(n)) == n,
    decreases n,
{
    if n < 10 {
        assert(dec_digits(n) =~= seq![digit_char(n)]);
        lemma_digit_char_val(n);
        assert(dec_val(seq![digit_char(n)]) == n);
    } else {
        lemma_dec_val_inverts(n / 10);
        lemma_dec_digits_len(n / 10);
        let s = dec_digits(n);
        assert(s =~= dec_digits(n / 10) + seq![digit_char(n % 10)]);
        assert(s.drop_last() =~= dec_digits(n / 10));
        assert(s.last() == digit_char(n % 10));
        lemma_digit_char_val(n % 10);
        assert(dec_val(s) == dec_val(dec_digits(n / 10)) * 10 + n % 10);
        assert(n / 10 * 10 + n % 10 == n) by (nonlinear_arith);
    }
}

/// Decimal renderings of distinct values differ.
pub proof fn lemma_dec_digits_injective(m: nat, n: nat)
    requires
        m != n,
    ensures
        dec_digits(m) != dec_digits(n),
{
    if dec_digits(m) == dec_digits(n) {
        lemma_dec_val_inverts(m);
        lemma_dec_val_inverts(n);
        assert(false);
    }
}

/// Tags generated for distinct counter values are distinct, so the tags
/// handed out across the life of one connection are pairwise distinct.
pub proof fn lemma_tags_distinct(m: nat, n: nat)
    requires
        m != n,
    ensures
        tag_of(m) != tag_of(n),
{
    lemma_dec_digits_injective(m, n);
    let p = "message_"@;
    if tag_of(m) == tag_of(n) {
        assert((p + dec_digits(m)).skip(p.len() as int) =~= dec_digits(m));
        assert((p + dec_digits(n)).skip(p.len() as int) =~= dec_digits(n));
        assert(false);
    }
}

/// A tag is the fixed prefix and the decimal digits of its counter
/// value, and those digits read back as exactly that value: across
/// one connection the embedded numbers are the strictly increasing
/// series of the counter.
pub proof fn lemma_tag_embeds_counter(n: nat)
    ensures
        tag_of(n).skip("message_"@.len() as int) == dec_digits(n),
        dec_val(dec_digits(n)) == n,
{
    lemma_dec_val_inverts(n);
    assert(("message_"@ + dec_digits(n)).skip("message_"@.len() as int) =~= dec_digits(n));
}

/// The series starts at `message_1`.
pub proof fn lemma_first_tag()
    ensures
        tag_of(1) == "message_1"@,
{
    reveal_strlit("message_");
    reveal_strlit("message_1");
    lemma_digit_char_val(1);
    assert(digit_char(1) as nat == '1' as nat);
    assert(digit_char(1) == '1');
    assert(tag_of(1) =~= "message_1"@);
}

} // verus!
