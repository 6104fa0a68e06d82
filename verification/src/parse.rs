use vstd::prelude::*;
use vstd::string::StrSliceExecFns;

verus! {

/// A decimal digit, written through code points so that spec and exec
/// reasoning agree.
pub open spec fn is_digit(c: char) -> bool {
    48 <= c as int && c as int <= 57
}

pub open spec fn digit_val(c: char) -> int {
    c as int - 48
}

pub open spec fn all_digits(s: Seq<char>) -> bool {
    forall|i: int| 0 <= i < s.len() ==> is_digit(#[trigger] s[i])
}

/// The value of a digit string read most-significant first.
pub open spec fn digits_val(s: Seq<char>) -> int
    decreases s.len(),
{
    if s.len() == 0 {
        0
    } else {
        digits_val(s.drop_last()) * 10 + digit_val(s.last())
    }
}

/// What `u32` parsing accepts: an optional leading `+`, then one or more
/// decimal digits whose value fits.
pub open spec fn spec_parse_u32(s: Seq<char>) -> Option<u32> {
    let digits = if s.len() > 0 && s[0] == '+' {
        s.drop_first()
    } else {
        s
    };
    if digits.len() > 0 && all_digits(digits) && digits_val(digits) <= u32::MAX {
        Some(digits_val(digits) as u32)
    } else {
        None
    }
}

pub proof fn lemma_digits_val_nonneg(s: Seq<char>)
    requires
        all_digits(s),
    ensures
        digits_val(s) >= 0,
    decreases s.len(),
{
    if s.len() > 0 {
        assert(all_digits(s.drop_last())) by {
            assert(forall|i: int|
                0 <= i < s.len() - 1 ==> #[trigger] s.drop_last()[i] == s[i]);
        }
        lemma_digits_val_nonneg(s.drop_last());
    }
}

/// A digit string is worth at least any of its prefixes.
pub proof fn lemma_digits_val_take_le(s: Seq<char>, k: int)
    requires
        all_digits(s),
        0 <= k <= s.len(),
    ensures
        digits_val(s.take(k)) <= digits_val(s),
    decreases s.len() - k,
{
    if k < s.len() {
        let t = s.take(k + 1);
        assert(t.drop_last() =~= s.take(k));
        assert(t.last() == s[k]);
        assert(all_digits(s.take(k))) by {
            assert(forall|i: int| 0 <= i < k ==> #[trigger] s.take(k)[i] == s[i]);
        }
        lemma_digits_val_nonneg(s.take(k));
        assert(digits_val(t) == digits_val(s.take(k)) * 10 + digit_val(s[k]));
        assert(digits_val(s.take(k)) <= digits_val(t));
        lemma_digits_val_take_le(s, k + 1);
    } else {
        assert(s.take(k) =~= s);
    }
}

/// A field type an environment string can be parsed into. The parse is
/// pinned down as a mathematical function of the characters: the
/// implementation returns a value exactly when `spec_parse` has one, and
/// then that value.
pub trait EnvValue: View + Sized {
    /// The parse as a function of the characters alone.
    spec fn spec_parse(s: Seq<char>) -> Option<Self::V>;

    fn parse_env(s: &str) -> (r: Option<Self>)
        ensures
            r is Some <==> Self::spec_parse(s@) is Some,
            r matches Some(v) ==> Self::spec_parse(s@) == Some(v@),
    ;
}

impl EnvValue for String {
    /// Any text parses to itself.
    open spec fn spec_parse(s: Seq<char>) -> Option<Seq<char>> {
        Some(s)
    }

    fn parse_env(s: &str) -> (r: Option<Self>) {
        Some(s.to_owned())
    }
}

impl EnvValue for bool {
    /// Exactly the two canonical spellings, as a value switch should be.
    open spec fn spec_parse(s: Seq<char>) -> Option<bool> {
        if s == "true"@ {
            Some(true)
        } else if s == "false"@ {
            Some(false)
        } else {
            None
        }
    }

    fn parse_env(s: &str) -> (r: Option<Self>) {
        proof {
            reveal_strlit("true");
            reveal_strlit("false");
        }
        let n = s.unicode_len();
        if n == 4 {
            let c0 = s.get_char(0);
            let c1 = s.get_char(1);
            let c2 = s.get_char(2);
            let c3 = s.get_char(3);
            if c0 as u32 == 116 && c1 as u32 == 114 && c2 as u32 == 117 && c3 as u32 == 101 {
                proof {
                    assert(s@ =~= "true"@);
                }
                Some(true)
            } else {
                proof {
                    assert(s@ != "true"@);
                    assert(s@ != "false"@);
                }
                None
            }
        } else if n == 5 {
            let c0 = s.get_char(0);
            let c1 = s.get_char(1);
            let c2 = s.get_char(2);
            let c3 = s.get_char(3);
            let c4 = s.get_char(4);
            if c0 as u32 == 102 && c1 as u32 == 97 && c2 as u32 == 108 && c3 as u32 == 115 && c4
                as u32 == 101 {
                proof {
                    assert(s@ =~= "false"@);
                }
                Some(false)
            } else {
                proof {
                    assert(s@ != "true"@);
                    assert(s@ != "false"@);
                }
                None
            }
        } else {
            proof {
                assert(s@ != "true"@);
                assert(s@ != "false"@);
            }
            None
        }
    }
}

impl EnvValue for u32 {
    open spec fn spec_parse(s: Seq<char>) -> Option<u32> {
        spec_parse_u32(s)
    }

    fn parse_env(s: &str) -> (r: Option<Self>) {
        let n = s.unicode_len();
        if n == 0 {
            return None;
        }
        let first = s.get_char(0);
        let start: usize = if first as u32 == 43 {
            1
        } else {
            0
        };
        proof {
            assert(first as u32 == 43 <==> s@[0] == '+');
        }
        let ghost digits: Seq<char> = s@.skip(start as int);
        proof {
            if start == 1 {
                assert(digits =~= s@.drop_first());
            } else {
                assert(digits =~= s@);
            }
            assert(digits == if s@.len() > 0 && s@[0] == '+' {
                s@.drop_first()
            } else {
                s@
            });
        }
        if n == start {
            proof {
                assert(digits.len() == 0);
            }
            return None;
        }
        let mut acc: u64 = 0;
        let mut i: usize = start;
        proof {
            assert(digits.take(0) =~= Seq::<char>::empty());
        }
        while i < n
            invariant
                start <= i <= n,
                n == s@.len(),
                n > start,
                start <= 1,
                (start == 1 <==> s@[0] == '+'),
                digits == s@.skip(start as int),
                digits == if s@.len() > 0 && s@[0] == '+' {
                    s@.drop_first()
                } else {
                    s@
                },
                digits.len() == n - start,
                all_digits(digits.take(i - start)),
                acc == digits_val(digits.take(i - start)),
                acc <= u32::MAX,
            decreases n - i,
        {
            let c = s.get_char(i);
            let cv = c as u32;
            if cv < 48 || cv > 57 {
                proof {
                    assert(digits[i - start] == s@[i as int]);
                    assert(!is_digit(digits[i - start]));
                }
                return None;
            }
            let d: u64 = (cv - 48) as u64;
            let next: u64 = acc * 10 + d;
            proof {
                let t = digits.take(i - start + 1);
                assert(t.drop_last() =~= digits.take(i - start));
                assert(t.last() == digits[i - start]);
                assert(digits[i - start] == s@[i as int]);
                assert(next == digits_val(t));
            }
            if next > 0xffff_ffff {
                proof {
                    if all_digits(digits) {
                        lemma_digits_val_take_le(digits, i - start + 1);
                        assert(digits_val(digits) > u32::MAX);
                    }
                }
                return None;
            }
            acc = next;
            i += 1;
        }
        proof {
            assert(digits.take(n - start) =~= digits);
        }
        Some(acc as u32)
    }
}

} // verus!
