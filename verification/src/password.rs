//! Password handling: a deterministic hash over the password's characters
//! (rendered as sixteen hex digits), verification against a stored hash, and
//! the complexity rules a chosen password must meet.
use vstd::prelude::*;
use vstd::string::StrSliceExecFns;
use vstd::string::StringExecFns;

use crate::errors::Error;

verus! {

/// The offset basis of the 64-bit FNV-1a hash.
pub const FNV_OFFSET: u64 = 0xcbf2_9ce4_8422_2325;

/// The prime of the 64-bit FNV-1a hash.
pub const FNV_PRIME: u64 = 0x0000_0100_0000_01b3;

/// One FNV-1a step: fold a character into the running hash.
pub open spec fn fnv64_step(h: u64, c: char) -> u64 {
    vstd::wrapping::u64_specs::wrapping_mul(h ^ (c as u64), FNV_PRIME)
}

/// The 64-bit FNV-1a hash of a character sequence.
pub open spec fn fnv64(s: Seq<char>) -> u64
    decreases s.len(),
{
    if s.len() == 0 {
        FNV_OFFSET
    } else {
        fnv64_step(fnv64(s.drop_last()), s.last())
    }
}

/// The lowercase hex digit for a value below sixteen.
pub open spec fn hex_digit(d: u64) -> char {
    if d == 0 {
        '0'
    } else if d == 1 {
        '1'
    } else if d == 2 {
        '2'
    } else if d == 3 {
        '3'
    } else if d == 4 {
        '4'
    } else if d == 5 {
        '5'
    } else if d == 6 {
        '6'
    } else if d == 7 {
        '7'
    } else if d == 8 {
        '8'
    } else if d == 9 {
        '9'
    } else if d == 10 {
        'a'
    } else if d == 11 {
        'b'
    } else if d == 12 {
        'c'
    } else if d == 13 {
        'd'
    } else if d == 14 {
        'e'
    } else {
        'f'
    }
}

/// The last `n` base-16 digits of `h`, most significant first.
pub open spec fn hex_rec(h: u64, n: nat) -> Seq<char>
    decreases n,
{
    if n == 0 {
        Seq::empty()
    } else {
        hex_rec(h / 16, (n - 1) as nat).push(hex_digit(h % 16))
    }
}

/// All sixteen hex digits of a 64-bit value, most significant first.
pub open spec fn hex64(h: u64) -> Seq<char> {
    hex_rec(h, 16)
}

/// What hashing a password yields: the FNV-1a hash of its characters,
/// rendered as sixteen hex digits.
pub open spec fn spec_hash_password(s: Seq<char>) -> Seq<char> {
    hex64(fnv64(s))
}

/// The hex characters of base-16 digits listed least significant first,
/// read back most significant first.
pub open spec fn rev_digit_chars(ds: Seq<u64>) -> Seq<char> {
    Seq::new(ds.len(), |i: int| hex_digit(ds[ds.len() - 1 - i]))
}

/// The one-character string holding the hex digit of a value below sixteen.
fn hex_digit_str(d: u64) -> (r: &'static str)
    requires
        d < 16,
    ensures
        r@ =~= seq![hex_digit(d)],
{
    proof {
        reveal_strlit("0");
        reveal_strlit("1");
        reveal_strlit("2");
        reveal_strlit("3");
        reveal_strlit("4");
        reveal_strlit("5");
        reveal_strlit("6");
        reveal_strlit("7");
        reveal_strlit("8");
        reveal_strlit("9");
        reveal_strlit("a");
        reveal_strlit("b");
        reveal_strlit("c");
        reveal_strlit("d");
        reveal_strlit("e");
        reveal_strlit("f");
    }
    if d == 0 {
        "0"
    } else if d == 1 {
        "1"
    } else if d == 2 {
        "2"
    } else if d == 3 {
        "3"
    } else if d == 4 {
        "4"
    } else if d == 5 {
        "5"
    } else if d == 6 {
        "6"
    } else if d == 7 {
        "7"
    } else if d == 8 {
        "8"
    } else if d == 9 {
        "9"
    } else if d == 10 {
        "a"
    } else if d == 11 {
        "b"
    } else if d == 12 {
        "c"
    } else if d == 13 {
        "d"
    } else if d == 14 {
        "e"
    } else {
        "f"
    }
}

/// Hashes a password deterministically; the result is exactly
/// [`spec_hash_password`] of its characters.
pub fn hash_password(password: &str) -> (r: String)
    ensures
        r@ == spec_hash_password(password@),
{
    let n = password.unicode_len();
    let mut h: u64 = FNV_OFFSET;
    let mut i: usize = 0;
    while i < n
        invariant
            n == password@.len(),
            i <= n,
            h == fnv64(password@.subrange(0, i as int)),
        decreases n - i,
    {
        let c = password.get_char(i);
        h = (h ^ (c as u64)).wrapping_mul(FNV_PRIME);
        proof {
            let pre = password@.subrange(0, (i + 1) as int);
            assert(pre.drop_last() =~= password@.subrange(0, i as int));
            assert(pre.last() == password@[i as int]);
        }
        i = i + 1;
    }
    proof {
        assert(password@.subrange(0, n as int) =~= password@);
    }
    let mut digits: Vec<u64> = Vec::new();
    let mut x = h;
    let mut k: usize = 0;
    while k < 16
        invariant
            k <= 16,
            digits@.len() == k,
            forall|j: int| 0 <= j < k ==> digits@[j] < 16,
            hex64(h) =~= hex_rec(x, (16 - k) as nat) + rev_digit_chars(digits@),
        decreases 16 - k,
    {
        let d = x % 16;
        let ghost before = digits@;
        let ghost x0 = x;
        digits.push(d);
        x = x / 16;
        proof {
            let m = (16 - k) as nat;
            assert(hex_rec(x0, m) == hex_rec(x0 / 16, (m - 1) as nat).push(hex_digit(x0 % 16)));
            assert(rev_digit_chars(digits@) =~= seq![hex_digit(d)] + rev_digit_chars(before));
            assert(hex_rec(x0, m) + rev_digit_chars(before) =~= hex_rec(x0 / 16, (m - 1) as nat)
                + rev_digit_chars(digits@));
        }
        k = k + 1;
    }
    proof {
        assert(hex_rec(x, 0) =~= Seq::<char>::empty());
        assert(hex64(h) =~= rev_digit_chars(digits@));
    }
    let mut out = String::new();
    let mut t: usize = 0;
    while t < 16
        invariant
            t <= 16,
            digits@.len() == 16,
            forall|j: int| 0 <= j < 16 ==> digits@[j] < 16,
            hex64(h) =~= rev_digit_chars(digits@),
            out@ =~= rev_digit_chars(digits@).subrange(0, t as int),
        decreases 16 - t,
    {
        let d = digits[15 - t];
        out.append(hex_digit_str(d));
        proof {
            assert(rev_digit_chars(digits@)[t as int] == hex_digit(digits@[15 - t as int]));
            assert(out@ =~= rev_digit_chars(digits@).subrange(0, (t + 1) as int));
        }
        t = t + 1;
    }
    proof {
        assert(out@ =~= rev_digit_chars(digits@));
    }
    out
}

/// Verifies a password against a stored hash: succeeds exactly when hashing
/// the password yields the stored string, and fails `Unauthorized` otherwise.
pub fn verify_password(password: &str, password_hash: &str) -> (r: Result<(), Error>)
    ensures
        r is Ok <==> spec_hash_password(password@) == password_hash@,
        r matches Err(e) ==> e@ is Unauthorized,
{
    let computed = hash_password(password);
    let stored = password_hash.to_owned();
    if computed == stored {
        Ok(())
    } else {
        Err(Error::Unauthorized)
    }
}

/// An ASCII uppercase letter.
pub open spec fn is_upper(c: char) -> bool {
    'A' <= c && c <= 'Z'
}

/// An ASCII lowercase letter.
pub open spec fn is_lower(c: char) -> bool {
    'a' <= c && c <= 'z'
}

/// An ASCII decimal digit.
pub open spec fn is_digit(c: char) -> bool {
    '0' <= c && c <= '9'
}

/// One of the accepted special characters.
pub open spec fn is_special_char(c: char) -> bool {
    c == '@' || c == '$' || c == '!' || c == '%' || c == '*' || c == '?' || c == '&'
}

/// The complexity rule on chosen passwords: at least one uppercase letter,
/// one lowercase letter and one digit, and no spaces.
pub open spec fn password_complexity_ok(s: Seq<char>) -> bool {
    &&& exists|i: int| 0 <= i < s.len() && is_upper(#[trigger] s[i])
    &&& exists|i: int| 0 <= i < s.len() && is_lower(#[trigger] s[i])
    &&& exists|i: int| 0 <= i < s.len() && is_digit(#[trigger] s[i])
    &&& !(exists|i: int| 0 <= i < s.len() && #[trigger] s[i] == ' ')
}

/// Whether the string holds one of the accepted special characters.
pub open spec fn has_special_char(s: Seq<char>) -> bool {
    exists|i: int| 0 <= i < s.len() && is_special_char(#[trigger] s[i])
}

/// Decides [`password_complexity_ok`].
pub fn validate_password(password: &str) -> (r: bool)
    ensures
        r == password_complexity_ok(password@),
{
    let n = password.unicode_len();
    let mut has_up = false;
    let mut has_low = false;
    let mut has_dig = false;
    let mut has_space = false;
    let mut i: usize = 0;
    while i < n
        invariant
            n == password@.len(),
            i <= n,
            has_up == exists|j: int| 0 <= j < i && is_upper(#[trigger] password@[j]),
            has_low == exists|j: int| 0 <= j < i && is_lower(#[trigger] password@[j]),
            has_dig == exists|j: int| 0 <= j < i && is_digit(#[trigger] password@[j]),
            has_space == exists|j: int| 0 <= j < i && #[trigger] password@[j] == ' ',
        decreases n - i,
    {
        let c = password.get_char(i);
        if 'A' <= c && c <= 'Z' {
            has_up = true;
        }
        if 'a' <= c && c <= 'z' {
            has_low = true;
        }
        if '0' <= c && c <= '9' {
            has_dig = true;
        }
        if c == ' ' {
            has_space = true;
        }
        i = i + 1;
    }
    has_up && has_low && has_dig && !has_space
}

/// Decides [`has_special_char`].
pub fn contains_special_char(password: &str) -> (r: bool)
    ensures
        r == has_special_char(password@),
{
    let n = password.unicode_len();
    let mut found = false;
    let mut i: usize = 0;
    while i < n
        invariant
            n == password@.len(),
            i <= n,
            found == exists|j: int| 0 <= j < i && is_special_char(#[trigger] password@[j]),
        decreases n - i,
    {
        let c = password.get_char(i);
        if c == '@' || c == '$' || c == '!' || c == '%' || c == '*' || c == '?' || c == '&' {
            found = true;
        }
        i = i + 1;
    }
    found
}

} // verus!
