use crate::tags::spec_nonce_target;
use crate::types::Event;
use vstd::prelude::*;

verus! {

/// The value of a lowercase hexadecimal digit.
pub open spec fn spec_hex_digit(c: char) -> Option<u8> {
    match c {
        '0' => Some(0),
        '1' => Some(1),
        '2' => Some(2),
        '3' => Some(3),
        '4' => Some(4),
        '5' => Some(5),
        '6' => Some(6),
        '7' => Some(7),
        '8' => Some(8),
        '9' => Some(9),
        'a' => Some(10),
        'b' => Some(11),
        'c' => Some(12),
        'd' => Some(13),
        'e' => Some(14),
        'f' => Some(15),
        _ => None,
    }
}

/// The value of a decimal digit.
pub open spec fn spec_dec_digit(c: char) -> Option<u8> {
    match c {
        '0' => Some(0),
        '1' => Some(1),
        '2' => Some(2),
        '3' => Some(3),
        '4' => Some(4),
        '5' => Some(5),
        '6' => Some(6),
        '7' => Some(7),
        '8' => Some(8),
        '9' => Some(9),
        _ => None,
    }
}

/// Leading zero bits of a four-bit value.
pub open spec fn spec_lz4(v: u8) -> nat {
    if v >= 8 {
        0
    } else if v >= 4 {
        1
    } else if v >= 2 {
        2
    } else if v >= 1 {
        3
    } else {
        4
    }
}

/// Leading zero bits of an id given as lowercase hexadecimal text; a
/// character that is no such digit ends the count.
pub open spec fn spec_leading_zero_bits(s: Seq<char>) -> nat
    decreases s.len(),
{
    if s.len() == 0 {
        0
    } else {
        match spec_hex_digit(s[0]) {
            None => 0,
            Some(v) => if v == 0 {
                4 + spec_leading_zero_bits(s.skip(1))
            } else {
                spec_lz4(v)
            },
        }
    }
}

/// The digits' value, read left to right.
pub open spec fn spec_digits_val(s: Seq<char>) -> nat
    decreases s.len(),
{
    if s.len() == 0 {
        0
    } else {
        match spec_dec_digit(s[s.len() - 1]) {
            Some(d) => (spec_digits_val(s.take(s.len() - 1)) * 10 + d) as nat,
            None => 0,
        }
    }
}

/// Whether every character is a decimal digit.
pub open spec fn spec_all_digits(s: Seq<char>) -> bool {
    forall|i: int| 0 <= i < s.len() ==> #[trigger] spec_dec_digit(s[i]) is Some
}

/// The proof-of-work target a nonce tag claims: the number it carries,
/// read the way an eight-bit decimal is (an optional leading plus sign,
/// then digits, worth at most 255); anything else counts as zero.
pub open spec fn spec_pow_target_of(s: Seq<char>) -> nat {
    let body = if s.len() > 0 && s[0] == '+' {
        s.skip(1)
    } else {
        s
    };
    if body.len() > 0 && spec_all_digits(body) && spec_digits_val(body) <= 255 {
        spec_digits_val(body)
    } else {
        0
    }
}

/// The proof of work an event shows and claims: the smaller of the id's
/// leading zero bits and the target named by the first nonce tag (no nonce
/// tag, or one with no readable target, claims zero).
pub open spec fn spec_pow(ev: Event) -> nat {
    let target = match spec_nonce_target(ev.tags@) {
        Some(Some(t)) => spec_pow_target_of(t),
        _ => 0,
    };
    let zeroes = spec_leading_zero_bits(ev.id@);
    if zeroes <= target {
        zeroes
    } else {
        target
    }
}

/// Read a nonce target string; everything unreadable is worth zero.
fn parse_pow_target(s: &String) -> (r: u64)
    ensures
        r == spec_pow_target_of(s@),
{
    let st = s.as_str();
    let n = st.unicode_len();
    let start: usize = if n > 0 && st.get_char(0) == '+' {
        1
    } else {
        0
    };
    if start == n {
        proof {
            let body = if s@.len() > 0 && s@[0] == '+' {
                s@.skip(1)
            } else {
                s@
            };
            assert(body.len() == 0);
        }
        return 0;
    }
    let ghost body = if s@.len() > 0 && s@[0] == '+' {
        s@.skip(1)
    } else {
        s@
    };
    proof {
        assert(body =~= s@.skip(start as int));
    }
    let mut acc: u64 = 0;
    let mut i: usize = start;
    proof {
        assert(body.take(0) =~= Seq::<char>::empty());
    }
    while i < n
        invariant
            start <= i <= n,
            n == s@.len(),
            st@ == s@,
            body == s@.skip(start as int),
            start == if s@.len() > 0 && s@[0] == '+' { 1int } else { 0int },
            spec_all_digits(body.take(i - start)),
            spec_digits_val(body.take(i - start)) <= 255 ==> acc == spec_digits_val(
                body.take(i - start),
            ),
            spec_digits_val(body.take(i - start)) > 255 ==> acc == 300,
        decreases n - i,
    {
        let c = st.get_char(i);
        let d: u64 = match c {
            '0' => 0,
            '1' => 1,
            '2' => 2,
            '3' => 3,
            '4' => 4,
            '5' => 5,
            '6' => 6,
            '7' => 7,
            '8' => 8,
            '9' => 9,
            _ => {
                proof {
                    assert(body[i - start] == s@[i as int]);
                    assert(spec_dec_digit(body[i - start]) is None);
                }
                return 0;
            },
        };
        proof {
            assert(body[i - start] == s@[i as int]);
            assert(body.take(i - start + 1).take(i - start) =~= body.take(i - start));
            assert(body.take(i - start + 1)[i - start] == body[i - start]);
            assert(spec_digits_val(body.take(i - start + 1)) == spec_digits_val(
                body.take(i - start),
            ) * 10 + spec_dec_digit(body[i - start]).unwrap());
        }
        acc = acc * 10 + d;
        if acc > 255 {
            acc = 300;
        }
        i = i + 1;
    }
    proof {
        assert(body.take(n - start) =~= body);
    }
    if acc <= 255 {
        acc
    } else {
        0
    }
}

impl Event {
    /// Count the id's leading zero bits, stopping at 255.
    fn leading_zero_bits(&self) -> (r: u64)
        ensures
            spec_leading_zero_bits(self.id@) <= 255 ==> r == spec_leading_zero_bits(self.id@),
            spec_leading_zero_bits(self.id@) > 255 ==> r == 255,
    {
        let st = self.id.hex.as_str();
        let n = st.unicode_len();
        let mut i: usize = 0;
        let mut acc: u64 = 0;
        proof {
            assert(self.id@.skip(0) =~= self.id@);
        }
        while i < n
            invariant
                0 <= i <= n,
                n == self.id@.len(),
                st@ == self.id@,
                acc == 4 * i,
                acc <= 255,
                spec_leading_zero_bits(self.id@) == acc + spec_leading_zero_bits(
                    self.id@.skip(i as int),
                ),
            decreases n - i,
        {
            proof {
                assert(self.id@.skip(i as int)[0] == self.id@[i as int]);
                assert(self.id@.skip(i as int).skip(1) =~= self.id@.skip(i + 1));
            }
            let c = st.get_char(i);
            let v: u64 = match c {
                '0' => 0,
                '1' => 1,
                '2' => 2,
                '3' => 3,
                '4' => 4,
                '5' => 5,
                '6' => 6,
                '7' => 7,
                '8' => 8,
                '9' => 9,
                'a' => 10,
                'b' => 11,
                'c' => 12,
                'd' => 13,
                'e' => 14,
                'f' => 15,
                _ => {
                    return acc;
                },
            };
            if v > 0 {
                let lz: u64 = if v >= 8 {
                    0
                } else if v >= 4 {
                    1
                } else if v >= 2 {
                    2
                } else {
                    3
                };
                return acc + lz;
            }
            acc = acc + 4;
            i = i + 1;
            if acc > 255 {
                return 255;
            }
        }
        proof {
            assert(self.id@.skip(n as int) =~= Seq::<char>::empty());
        }
        acc
    }

    /// The proof of work this event shows and claims.
    pub fn pow(&self) -> (r: u64)
        ensures
            r == spec_pow(*self),
    {
        let mut target: u64 = 0;
        let n = self.tags.len();
        proof {
            assert(self.tags@.skip(0) =~= self.tags@);
        }
        let mut found = false;
        for i in 0..n
            invariant
                n == self.tags.len(),
                !found ==> spec_nonce_target(self.tags@) == spec_nonce_target(
                    self.tags@.skip(i as int),
                ),
                found ==> match spec_nonce_target(self.tags@) {
                    Some(Some(t)) => target == spec_pow_target_of(t),
                    Some(None) => target == 0,
                    None => false,
                },
                !found ==> target == 0,
        {
            if !found {
                proof {
                    assert(self.tags@.skip(i as int).len() > 0);
                    assert(self.tags@.skip(i as int)[0] == self.tags@[i as int]);
                    assert(self.tags@.skip(i as int).skip(1) =~= self.tags@.skip(i + 1));
                }
                match &self.tags[i] {
                    crate::types::Tag::Nonce { target: t } => {
                        if let Some(ts) = t {
                            target = parse_pow_target(ts);
                        }
                        found = true;
                    },
                    _ => {},
                }
            }
        }
        proof {
            if !found {
                assert(self.tags@.skip(n as int) =~= Seq::<crate::types::Tag>::empty());
            }
        }
        let zeroes = self.leading_zero_bits();
        if zeroes <= target {
            zeroes
        } else {
            target
        }
    }
}

} // verus!
