//! Process-unique identifiers.
//!
//! An identifier is the decimal rendering of a wall-clock timestamp, an
//! underscore, and the decimal rendering of a strictly increasing counter.
//! Two identifiers built from distinct counter values are distinct strings,
//! whatever the timestamps were: the counter can be read back out of the
//! string as the run of digits that ends it.

use vstd::prelude::*;
use vstd::string::StringExecFns;
use vstd::arithmetic::div_mod::lemma_fundamental_div_mod;

verus! {

/// Failure of the identifier generator.
#[derive(Clone, Copy, Debug, PartialEq, Eq, Structural)]
pub enum IdError {
    /// The wall clock could not be read. An identifier must never be made up
    /// without a clock reading, so this is surfaced rather than swallowed.
    ClockUnavailable,
}

pub open spec fn is_digit_char(c: char) -> bool {
    c == '0' || c == '1' || c == '2' || c == '3' || c == '4' || c == '5' || c == '6' || c == '7'
        || c == '8' || c == '9'
}

/// The digit character for a value below ten.
pub open spec fn digit_char(d: nat) -> char {
    if d == 0 {
        '0'
    } else if d == 1 {
        '1'
    } else if d == 2 {
        '2'
    } else if d == 3 {
        '3'
    } else if d == 4 {
        '4'
    } else if d == 5 {
        '5'
    } else if d == 6 {
        '6'
    } else if d == 7 {
        '7'
    } else if d == 8 {
        '8'
    } else {
        '9'
    }
}

/// The value of a digit character; non-digits count as nine, which no proof
/// here relies on.
pub open spec fn char_val(c: char) -> nat {
    if c == '0' {
        0
    } else if c == '1' {
        1
    } else if c == '2' {
        2
    } else if c == '3' {
        3
    } else if c == '4' {
        4
    } else if c == '5' {
        5
    } else if c == '6' {
        6
    } else if c == '7' {
        7
    } else if c == '8' {
        8
    } else {
        9
    }
}

/// The decimal rendering of a number, most significant digit first, with no
/// leading zeros (zero itself renders as a single digit).
pub open spec fn dec_rep(n: nat) -> Seq<char>
    decreases n,
{
    if n < 10 {
        seq![digit_char(n)]
    } else {
        dec_rep(n / 10) + seq![digit_char(n % 10)]
    }
}

/// The numeric value of a sequence of digit characters.
pub open spec fn dec_val(s: Seq<char>) -> nat
    decreases s.len(),
{
    if s.len() == 0 {
        0
    } else {
        dec_val(s.drop_last()) * 10 + char_val(s.last())
    }
}

/// The length of the run of digit characters that ends the sequence.
pub open spec fn digit_suffix_len(s: Seq<char>) -> nat
    decreases s.len(),
{
    if s.len() == 0 {
        0
    } else if is_digit_char(s.last()) {
        1 + digit_suffix_len(s.drop_last())
    } else {
        0
    }
}

/// The counter component embedded in an identifier: the value of the run of
/// digits that ends it.
pub open spec fn counter_of(s: Seq<char>) -> nat {
    dec_val(s.subrange(s.len() - digit_suffix_len(s), s.len() as int))
}

/// The characters of an identifier built from a timestamp and a counter.
pub open spec fn id_chars(timestamp: nat, counter: nat) -> Seq<char> {
    dec_rep(timestamp) + seq!['_'] + dec_rep(counter)
}

pub proof fn lemma_dec_rep_digits(n: nat)
    ensures
        dec_rep(n).len() >= 1,
        forall|i: int| 0 <= i < dec_rep(n).len() ==> is_digit_char(#[trigger] dec_rep(n)[i]),
    decreases n,
{
    if n < 10 {
        assert(is_digit_char(digit_char(n)));
    } else {
        lemma_dec_rep_digits(n / 10);
        assert forall|i: int| 0 <= i < dec_rep(n).len() implies is_digit_char(
            #[trigger] dec_rep(n)[i],
        ) by {
            if i < dec_rep(n / 10).len() {
                assert(dec_rep(n)[i] == dec_rep(n / 10)[i]);
            } else {
                assert(dec_rep(n)[i] == digit_char(n % 10));
            }
        }
    }
}

/// The decimal rendering can be read back: its value is the number rendered.
pub proof fn lemma_dec_val_of_rep(n: nat)
    ensures
        dec_val(dec_rep(n)) == n,
    decreases n,
{
    if n < 10 {
        let s = dec_rep(n);
        assert(s =~= seq![digit_char(n)]);
        assert(s.len() == 1);
        assert(s.last() == digit_char(n));
        assert(s.drop_last() =~= Seq::<char>::empty());
        assert(dec_val(s.drop_last()) == 0);
        assert(dec_val(s) == dec_val(s.drop_last()) * 10 + char_val(s.last()));
        assert(char_val(digit_char(n)) == n);
    } else {
        lemma_dec_val_of_rep(n / 10);
        let s = dec_rep(n);
        assert(s =~= dec_rep(n / 10) + seq![digit_char(n % 10)]);
        assert(s.drop_last() =~= dec_rep(n / 10));
        assert(s.last() == digit_char(n % 10));
        assert(dec_val(s) == dec_val(s.drop_last()) * 10 + char_val(s.last()));
        assert(char_val(digit_char(n % 10)) == n % 10);
        lemma_fundamental_div_mod(n as int, 10);
    }
}

proof fn lemma_digit_suffix_after_nondigit(p: Seq<char>, d: Seq<char>)
    requires
        p.len() > 0,
        !is_digit_char(p.last()),
        forall|i: int| 0 <= i < d.len() ==> is_digit_char(#[trigger] d[i]),
    ensures
        digit_suffix_len(p + d) == d.len(),
    decreases d.len(),
{
    let s = p + d;
    if d.len() == 0 {
        assert(s =~= p);
    } else {
        assert(s.last() == d.last());
        assert(is_digit_char(d.last()));
        assert(s.drop_last() =~= p + d.drop_last());
        assert forall|i: int| 0 <= i < d.drop_last().len() implies is_digit_char(
            #[trigger] d.drop_last()[i],
        ) by {
            assert(d.drop_last()[i] == d[i]);
        }
        lemma_digit_suffix_after_nondigit(p, d.drop_last());
    }
}

/// An identifier embeds its counter recoverably: reading the digit run at the
/// end of `id_chars(timestamp, counter)` gives back exactly `counter`.
pub proof fn lemma_counter_of_id_chars(timestamp: nat, counter: nat)
    ensures
        counter_of(id_chars(timestamp, counter)) == counter,
{
    let p = dec_rep(timestamp) + seq!['_'];
    let d = dec_rep(counter);
    let s = id_chars(timestamp, counter);
    lemma_dec_rep_digits(timestamp);
    lemma_dec_rep_digits(counter);
    assert(s =~= p + d);
    assert(p.last() == '_');
    lemma_digit_suffix_after_nondigit(p, d);
    assert(s.subrange(s.len() - d.len(), s.len() as int) =~= d);
    lemma_dec_val_of_rep(counter);
}

/// Law: identifiers built from distinct counter values are pairwise distinct,
/// whatever their timestamps were.
pub proof fn lemma_ids_distinct(t1: nat, c1: nat, t2: nat, c2: nat)
    requires
        c1 != c2,
    ensures
        id_chars(t1, c1) != id_chars(t2, c2),
{
    lemma_counter_of_id_chars(t1, c1);
    lemma_counter_of_id_chars(t2, c2);
}

/// Relies on std::time::SystemTime::now and SystemTime::duration_since: the
/// wall-clock time as nanoseconds since the Unix epoch, or None when the
/// clock reads earlier than the epoch. Nothing can be promised of the value.
#[verifier::external_body]
fn read_clock_nanos() -> (r: Option<u128>) {
    match std::time::SystemTime::now().duration_since(std::time::UNIX_EPOCH) {
        Ok(d) => Some(d.as_nanos()),
        Err(_) => None,
    }
}

fn push_digit(s: &mut String, d: u8)
    requires
        d < 10,
    ensures
        final(s)@ == old(s)@ + seq![digit_char(d as nat)],
{
    if d == 0 {
        proof {
            reveal_strlit("0");
            assert("0"@ =~= seq![digit_char(d as nat)]);
        }
        s.append("0");
    } else if d == 1 {
        proof {
            reveal_strlit("1");
            assert("1"@ =~= seq![digit_char(d as nat)]);
        }
        s.append("1");
    } else if d == 2 {
        proof {
            reveal_strlit("2");
            assert("2"@ =~= seq![digit_char(d as nat)]);
        }
        s.append("2");
    } else if d == 3 {
        proof {
            reveal_strlit("3");
            assert("3"@ =~= seq![digit_char(d as nat)]);
        }
        s.append("3");
    } else if d == 4 {
        proof {
            reveal_strlit("4");
            assert("4"@ =~= seq![digit_char(d as nat)]);
        }
        s.append("4");
    } else if d == 5 {
        proof {
            reveal_strlit("5");
            assert("5"@ =~= seq![digit_char(d as nat)]);
        }
        s.append("5");
    } else if d == 6 {
        proof {
            reveal_strlit("6");
            assert("6"@ =~= seq![digit_char(d as nat)]);
        }
        s.append("6");
    } else if d == 7 {
        proof {
            reveal_strlit("7");
            assert("7"@ =~= seq![digit_char(d as nat)]);
        }
        s.append("7");
    } else if d == 8 {
        proof {
            reveal_strlit("8");
            assert("8"@ =~= seq![digit_char(d as nat)]);
        }
        s.append("8");
    } else {
        proof {
            reveal_strlit("9");
            assert("9"@ =~= seq![digit_char(d as nat)]);
        }
        s.append("9");
    }
}

fn push_decimal(s: &mut String, n: u128)
    ensures
        final(s)@ == old(s)@ + dec_rep(n as nat),
    decreases n,
{
    if n < 10 {
        push_digit(s, n as u8);
    } else {
        let q: u128 = n / 10;
        let r: u8 = (n % 10) as u8;
        push_decimal(s, q);
        push_digit(s, r);
        assert(s@ =~= old(s)@ + dec_rep(n as nat));
    }
}

/// Renders a timestamp and a counter as identifier text: the decimal digits
/// of the timestamp, an underscore, the decimal digits of the counter.
pub fn compose_id(timestamp_nanos: u128, counter: u64) -> (id: String)
    ensures
        id@ == id_chars(timestamp_nanos as nat, counter as nat),
{
    let mut id = String::new();
    push_decimal(&mut id, timestamp_nanos);
    proof {
        reveal_strlit("_");
        assert("_"@ =~= seq!['_']);
    }
    id.append("_");
    push_decimal(&mut id, counter as u128);
    proof {
        assert(id@ =~= id_chars(timestamp_nanos as nat, counter as nat));
    }
    id
}

/// Hands out identifiers unique within the process: each call embeds a fresh
/// counter value, so no two calls on the same generator return equal strings.
/// The counter starts over at zero with each new generator; uniqueness is
/// only promised among identifiers drawn from one generator.
pub struct IdGenerator {
    count: u64,
}

impl IdGenerator {
    /// The counter value the next identifier will embed.
    pub closed spec fn counter(&self) -> nat {
        self.count as nat
    }

    pub fn new() -> (g: Self)
        ensures
            g.counter() == 0,
    {
        IdGenerator { count: 0 }
    }

    /// The counter value the next identifier will embed.
    pub fn counter_value(&self) -> (c: u64)
        ensures
            c as nat == self.counter(),
    {
        self.count
    }

    /// Returns a fresh identifier: the current wall-clock nanoseconds, an
    /// underscore, and the counter, which then strictly increases. When the
    /// clock cannot be read no identifier is made up: the error is returned
    /// and the counter stands still.
    pub fn next_id(&mut self) -> (r: Result<String, IdError>)
        requires
            old(self).counter() < u64::MAX,
        ensures
            (match r {
                Ok(id) => {
                    &&& final(self).counter() == old(self).counter() + 1
                    &&& counter_of(id@) == old(self).counter()
                    &&& (exists|t: nat| id@ == id_chars(t, old(self).counter()))
                },
                Err(e) => {
                    &&& *final(self) == *old(self)
                    &&& e == IdError::ClockUnavailable
                },
            }),
    {
        match read_clock_nanos() {
            Some(t) => {
                let c = self.count;
                self.count = self.count + 1;
                let id = compose_id(t, c);
                proof {
                    lemma_counter_of_id_chars(t as nat, c as nat);
                }
                Ok(id)
            },
            None => Err(IdError::ClockUnavailable),
        }
    }
}

/// A fresh process-unique identifier from the given generator: wall-clock
/// nanoseconds, an underscore, and the generator's counter.
pub fn reasonably_unique_id(ids: &mut IdGenerator) -> (r: Result<String, IdError>)
    requires
        old(ids).counter() < u64::MAX,
    ensures
        (match r {
            Ok(id) => {
                &&& final(ids).counter() == old(ids).counter() + 1
                &&& counter_of(id@) == old(ids).counter()
                &&& (exists|t: nat| id@ == id_chars(t, old(ids).counter()))
            },
            Err(e) => {
                &&& *final(ids) == *old(ids)
                &&& e == IdError::ClockUnavailable
            },
        }),
{
    ids.next_id()
}

} // verus!
