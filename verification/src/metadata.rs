//! Now-playing metadata from the radio's JSON API.
//!
//! The network fetch and the JSON decode happen outside the library; what
//! arrives here are the decoded records. The one computation the records
//! need — the API sends the track duration as a decimal string, the player
//! needs it as a number — is done and specified here.

use vstd::prelude::*;

verus! {

use vstd::arithmetic::div_mod::lemma_fundamental_div_mod;
use vstd::string::StrSliceExecFns;
use vstd::string::StringExecFns;

/// Title, artist and release data of the playing track.
#[derive(Debug, Clone)]
pub struct SongInfo {
    pub title: String,
    pub artist: String,
    pub album: String,
    pub year: String,
    pub circle: String,
}

/// Timing of the playing track, in seconds. The API sends `duration_str`;
/// `duration` is filled in from it by [`GRApiAnswer::fill_duration`].
#[derive(Debug, Clone)]
pub struct SongTimes {
    pub duration_str: String,
    pub duration: u64,
    pub played: u64,
    pub remaining: u64,
    pub songstart: u64,
    pub songend: u64,
}

/// Artwork and link paths of the playing track.
#[derive(Debug, Clone)]
pub struct Misc {
    pub circlelink: String,
    pub circleart: String,
    pub albumart: String,
}

/// One complete now-playing answer from the API.
#[derive(Debug, Clone)]
pub struct GRApiAnswer {
    pub songinfo: SongInfo,
    pub songtimes: SongTimes,
    pub misc: Misc,
}

/// A decimal digit, by code point.
pub open spec fn is_dec_digit(c: char) -> bool {
    48 <= c as int <= 57
}

/// The value of a decimal digit.
pub open spec fn digit_value(c: char) -> int {
    c as int - 48
}

/// Whether every character of `s` is a decimal digit.
pub open spec fn all_dec_digits(s: Seq<char>) -> bool {
    forall|i: int| 0 <= i < s.len() ==> is_dec_digit(s[i])
}

/// The number a sequence of decimal digits denotes, most significant first.
pub open spec fn dec_value(s: Seq<char>) -> int
    decreases s.len(),
{
    if s.len() == 0 {
        0
    } else {
        dec_value(s.drop_last()) * 10 + digit_value(s.last())
    }
}

/// The digits of a numeric string: everything after one optional leading
/// plus sign.
pub open spec fn dec_digits_of(s: Seq<char>) -> Seq<char> {
    if s.len() > 0 && s[0] == '+' {
        s.skip(1)
    } else {
        s
    }
}

/// The strings `str::parse::<u64>` accepts: an optional leading plus sign,
/// then at least one decimal digit, denoting a value that fits in a `u64`.
pub open spec fn u64_string(s: Seq<char>) -> bool {
    &&& dec_digits_of(s).len() > 0
    &&& all_dec_digits(dec_digits_of(s))
    &&& dec_value(dec_digits_of(s)) <= u64::MAX
}

/// The value a numeric string denotes.
pub open spec fn u64_string_value(s: Seq<char>) -> int {
    dec_value(dec_digits_of(s))
}

/// The character for one decimal digit.
pub open spec fn digit_char(d: int) -> char {
    if d == 0 {
        '0'
    } else if d == 1 {
        '1'
    } else if d == 2 {
        '2'
    } else if d == 3 {
        '3'
    } else if d == 4 {
        '4'
    } else if d == 5 {
        '5'
    } else if d == 6 {
        '6'
    } else if d == 7 {
        '7'
    } else if d == 8 {
        '8'
    } else {
        '9'
    }
}

/// The decimal rendering of a number: most significant digit first, no
/// leading zeros.
pub open spec fn dec_chars(n: int) -> Seq<char>
    decreases n,
{
    if n < 10 {
        seq![digit_char(n)]
    } else {
        dec_chars(n / 10).push(digit_char(n % 10))
    }
}

/// Rendering and parsing agree: the decimal rendering of `n` is all digits
/// and denotes exactly `n`.
pub proof fn lemma_dec_chars_value(n: int)
    requires
        0 <= n,
    ensures
        all_dec_digits(dec_chars(n)),
        dec_value(dec_chars(n)) == n,
    decreases n,
{
    if n < 10 {
        reveal_with_fuel(dec_value, 2);
        assert(dec_chars(n) =~= seq![digit_char(n)]);
        assert(dec_chars(n).drop_last() =~= Seq::<char>::empty());
        assert(digit_value(digit_char(n)) == n);
        assert(dec_value(dec_chars(n)) == digit_value(digit_char(n)));
    } else {
        lemma_fundamental_div_mod(n, 10);
        lemma_dec_chars_value(n / 10);
        let whole = dec_chars(n / 10).push(digit_char(n % 10));
        assert(whole.drop_last() =~= dec_chars(n / 10));
        assert(digit_value(digit_char(n % 10)) == n % 10);
        assert(dec_value(whole) == dec_value(dec_chars(n / 10)) * 10 + digit_value(
            digit_char(n % 10),
        ));
    }
}

/// A digit string denotes a non-negative number.
proof fn lemma_dec_value_nonneg(s: Seq<char>)
    requires
        all_dec_digits(s),
    ensures
        dec_value(s) >= 0,
    decreases s.len(),
{
    if s.len() > 0 {
        lemma_dec_value_nonneg(s.drop_last());
    }
}

/// Extending a digit string never shrinks its value: the value of the first
/// `i` digits is at most the value of all of them.
proof fn lemma_dec_value_prefix_le(s: Seq<char>, i: int)
    requires
        all_dec_digits(s),
        0 <= i <= s.len(),
    ensures
        dec_value(s.take(i)) <= dec_value(s),
    decreases s.len() - i,
{
    if i == s.len() {
        assert(s.take(i) =~= s);
    } else {
        lemma_dec_value_prefix_le(s, i + 1);
        assert(s.take(i + 1).drop_last() =~= s.take(i));
        assert(s.take(i + 1).last() == s[i]);
        lemma_dec_value_nonneg(s.take(i));
    }
}

/// Parses a decimal string — one optional leading plus sign, then digits —
/// into a number, exactly as `str::parse::<u64>` would: `Some` on precisely
/// the strings that denote a value fitting in a `u64`, and then that value.
pub fn parse_u64(s: &str) -> (r: Option<u64>)
    ensures
        r is Some <==> u64_string(s@),
        r matches Some(v) ==> v as int == u64_string_value(s@),
{
    let len = s.unicode_len();
    let start: usize = if len > 0 && s.get_char(0) == '+' {
        1
    } else {
        0
    };
    let ghost digits = dec_digits_of(s@);
    proof {
        assert(digits =~= s@.skip(start as int));
    }
    if start == len {
        return None;
    }
    let mut val: u64 = 0;
    let mut i: usize = start;
    while i < len
        invariant
            start <= i <= len,
            len == s@.len(),
            start < len,
            digits == dec_digits_of(s@),
            digits == s@.skip(start as int),
            all_dec_digits(s@.subrange(start as int, i as int)),
            val as int == dec_value(s@.subrange(start as int, i as int)),
        decreases len - i,
    {
        let ghost done = s@.subrange(start as int, i as int);
        let c = s.get_char(i);
        let cv = c as u32;
        if cv < 48 || cv > 57 {
            assert(!is_dec_digit(s@[i as int]));
            assert(digits[i - start] == s@[i as int]);
            return None;
        }
        let d: u64 = (cv - 48) as u64;
        let limit: u64 = (u64::MAX - d) / 10;
        proof {
            lemma_fundamental_div_mod(u64::MAX - d, 10);
            assert(done.push(s@[i as int]).drop_last() =~= done);
            assert(s@.subrange(start as int, i as int + 1) =~= done.push(s@[i as int]));
        }
        if val > limit {
            proof {
                if all_dec_digits(digits) {
                    let next = s@.subrange(start as int, i as int + 1);
                    assert(dec_value(next) == val as int * 10 + d);
                    assert(val as int * 10 >= (limit as int + 1) * 10);
                    assert(dec_value(next) > u64::MAX);
                    assert(next =~= digits.take(i - start + 1));
                    lemma_dec_value_prefix_le(digits, i - start + 1);
                }
            }
            return None;
        }
        proof {
            assert(val as int * 10 <= limit as int * 10);
        }
        val = val * 10 + d;
        i = i + 1;
    }
    proof {
        assert(s@.subrange(start as int, len as int) =~= digits);
    }
    Some(val)
}

impl GRApiAnswer {
    /// Fills the numeric `duration` from the textual `duration_str` the API
    /// sent, leaving everything else as it was. Returns whether the text was
    /// a number; when it was not, the stored duration is also untouched.
    pub fn fill_duration(&mut self) -> (ok: bool)
        ensures
            ok == u64_string(old(self).songtimes.duration_str@),
            final(self).songinfo == old(self).songinfo,
            final(self).misc == old(self).misc,
            final(self).songtimes.duration_str == old(self).songtimes.duration_str,
            final(self).songtimes.played == old(self).songtimes.played,
            final(self).songtimes.remaining == old(self).songtimes.remaining,
            final(self).songtimes.songstart == old(self).songtimes.songstart,
            final(self).songtimes.songend == old(self).songtimes.songend,
            ok ==> final(self).songtimes.duration as int == u64_string_value(
                old(self).songtimes.duration_str@,
            ),
            !ok ==> final(self).songtimes.duration == old(self).songtimes.duration,
    {
        match parse_u64(self.songtimes.duration_str.as_str()) {
            Some(d) => {
                self.songtimes.duration = d;
                true
            },
            None => false,
        }
    }
}

} // verus!
