use vstd::prelude::*;

verus! {

// ───────────── Characters ─────────────

/// Whether `c` has the Unicode `White_Space` property (what `char::is_whitespace`
/// and `str::trim` go by).
pub open spec fn je_bily(c: char) -> bool {
    ||| ('\u{9}' <= c && c <= '\u{d}')
    ||| c == ' '
    ||| c == '\u{85}'
    ||| c == '\u{a0}'
    ||| c == '\u{1680}'
    ||| ('\u{2000}' <= c && c <= '\u{200a}')
    ||| c == '\u{2028}'
    ||| c == '\u{2029}'
    ||| c == '\u{202f}'
    ||| c == '\u{205f}'
    ||| c == '\u{3000}'
}

/// Whether `c` is in the Unicode general category `Cc` (what `char::is_control` goes by).
pub open spec fn je_ridici(c: char) -> bool {
    c <= '\u{1f}' || ('\u{7f}' <= c && c <= '\u{9f}')
}

/// A decimal digit `0`..`9`.
pub open spec fn je_cifra(c: char) -> bool {
    '0' <= c && c <= '9'
}

pub fn bily_znak(c: char) -> (res: bool)
    ensures
        res == je_bily(c),
{
    ('\u{9}' <= c && c <= '\u{d}') || c == ' ' || c == '\u{85}' || c == '\u{a0}' || c
        == '\u{1680}' || ('\u{2000}' <= c && c <= '\u{200a}') || c == '\u{2028}' || c
        == '\u{2029}' || c == '\u{202f}' || c == '\u{205f}' || c == '\u{3000}'
}

pub fn ridici_znak(c: char) -> (res: bool)
    ensures
        res == je_ridici(c),
{
    c <= '\u{1f}' || ('\u{7f}' <= c && c <= '\u{9f}')
}

// ───────────── Building strings ─────────────

/// Appends one character to a string (`String::push`).
#[verifier::external_body]
pub(crate) fn pridej_znak(s: &mut String, c: char)
    ensures
        final(s)@ == old(s)@.push(c),
{
    s.push(c);
}

/// Appends a string slice to a string.
pub fn pripoj(s: &mut String, t: &str)
    ensures
        final(s)@ == old(s)@ + t@,
{
    s.append(t);
}

/// A new string with the characters of `t`.
pub fn text(t: &str) -> (res: String)
    ensures
        res@ == t@,
{
    t.to_owned()
}

/// The characters of a string slice, in order.
pub fn znaky(s: &str) -> (res: Vec<char>)
    ensures
        res@ == s@,
{
    let mut res: Vec<char> = Vec::new();
    broadcast use vstd::string::group_string_axioms;

    for c in it: s.chars()
        invariant
            it.seq() == s@,
            res@ == it.seq().take(it.index() as int),
    {
        res.push(c);
    }
    res
}

/// A string made of the given characters.
pub fn text_ze_znaku(z: &[char]) -> (res: String)
    ensures
        res@ == z@,
{
    let mut res = String::new();
    let n = z.len();
    let mut i: usize = 0;
    while i < n
        invariant
            n == z@.len(),
            i <= n,
            res@ == z@.take(i as int),
        decreases n - i,
    {
        pridej_znak(&mut res, z[i]);
        i = i + 1;
        assert(res@ =~= z@.take(i as int));
    }
    assert(z@.take(n as int) =~= z@);
    res
}

// ───────────── Trimming ─────────────

pub open spec fn orez_zleva(s: Seq<char>) -> Seq<char>
    decreases s.len(),
{
    if s.len() > 0 && je_bily(s[0]) {
        orez_zleva(s.drop_first())
    } else {
        s
    }
}

pub open spec fn orez_zprava(s: Seq<char>) -> Seq<char>
    decreases s.len(),
{
    if s.len() > 0 && je_bily(s.last()) {
        orez_zprava(s.drop_last())
    } else {
        s
    }
}

/// `s` without leading and trailing whitespace (`str::trim`).
pub open spec fn orez(s: Seq<char>) -> Seq<char> {
    orez_zprava(orez_zleva(s))
}

/// Trims whitespace from both ends (`str::trim`).
pub fn orizni<'a>(s: &'a str) -> (res: &'a str)
    ensures
        res@ == orez(s@),
{
    let z = znaky(s);
    let n = z.len();
    let mut i: usize = 0;
    assert(s@.subrange(0, n as int) =~= s@);
    while i < n && bily_znak(z[i])
        invariant
            z@ == s@,
            n == s@.len(),
            i <= n,
            orez_zleva(s@) == orez_zleva(s@.subrange(i as int, n as int)),
        decreases n - i,
    {
        assert(s@.subrange(i as int, n as int).drop_first() =~= s@.subrange(i + 1, n as int));
        i = i + 1;
    }
    let mut j: usize = n;
    while j > i && bily_znak(z[j - 1])
        invariant
            z@ == s@,
            n == s@.len(),
            i <= j <= n,
            orez_zleva(s@) == s@.subrange(i as int, n as int),
            orez(s@) == orez_zprava(s@.subrange(i as int, j as int)),
        decreases j,
    {
        assert(s@.subrange(i as int, j as int).drop_last() =~= s@.subrange(i as int, j - 1));
        j = j - 1;
    }
    s.substring_char(i, j)
}

/// The first `n` characters of `s`, or all of them when it is shorter.
pub fn prvnich<'a>(s: &'a str, n: usize) -> (res: &'a str)
    ensures
        res@ == s@.take(if s@.len() <= n { s@.len() as int } else { n as int }),
{
    let delka = s.unicode_len();
    if delka <= n {
        assert(s@.take(delka as int) =~= s@);
        s.substring_char(0, delka)
    } else {
        s.substring_char(0, n)
    }
}

// ───────────── Searching ─────────────

/// The index of the first `c` in `s`, or the length of `s` where there is none.
pub open spec fn do_znaku(s: Seq<char>, c: char) -> nat
    decreases s.len(),
{
    if s.len() == 0 {
        0
    } else if s[0] == c {
        0
    } else {
        1 + do_znaku(s.drop_first(), c)
    }
}

/// `do_znaku` stops at the first `c` and passes over no other.
pub proof fn lemma_do_znaku(s: Seq<char>, c: char)
    ensures
        do_znaku(s, c) <= s.len(),
        do_znaku(s, c) < s.len() ==> s[do_znaku(s, c) as int] == c,
        forall|k: int| 0 <= k < do_znaku(s, c) ==> s[k] != c,
    decreases s.len(),
{
    if s.len() > 0 && s[0] != c {
        lemma_do_znaku(s.drop_first(), c);
        assert forall|k: int| 0 <= k < do_znaku(s, c) implies s[k] != c by {
            if k > 0 {
                assert(s[k] == s.drop_first()[k - 1]);
            }
        }
    }
}

/// An index with no `c` before it and `c` (or the end) at it is what `do_znaku` gives.
pub proof fn lemma_do_znaku_je(s: Seq<char>, c: char, m: int)
    requires
        0 <= m <= s.len(),
        m == s.len() || s[m] == c,
        forall|k: int| 0 <= k < m ==> s[k] != c,
    ensures
        do_znaku(s, c) == m,
    decreases m,
{
    if m > 0 {
        lemma_do_znaku_je(s.drop_first(), c, m - 1);
    }
}

// ───────────── Comparing ─────────────

pub open spec fn zacina_na(s: Seq<char>, p: Seq<char>) -> bool {
    p.len() <= s.len() && s.subrange(0, p.len() as int) == p
}

pub open spec fn konci_na(s: Seq<char>, p: Seq<char>) -> bool {
    p.len() <= s.len() && s.subrange(s.len() - p.len(), s.len() as int) == p
}

pub open spec fn obsahuje_usek(s: Seq<char>, p: Seq<char>) -> bool {
    exists|i: int| 0 <= i && i + p.len() <= s.len() && #[trigger] s.subrange(i, i + p.len()) == p
}

/// Whether two string slices hold the same characters.
pub fn stejne(a: &str, b: &str) -> (res: bool)
    ensures
        res == (a@ == b@),
{
    let x = znaky(a);
    let y = znaky(b);
    if x.len() != y.len() {
        return false;
    }
    let n = x.len();
    let mut i: usize = 0;
    while i < n
        invariant
            x@ == a@,
            y@ == b@,
            n == x@.len(),
            n == y@.len(),
            i <= n,
            forall|k: int| 0 <= k < i ==> x@[k] == y@[k],
        decreases n - i,
    {
        if x[i] != y[i] {
            return false;
        }
        i = i + 1;
    }
    assert(x@ =~= y@);
    true
}

/// Whether the characters `s[od..od + p.len()]` are exactly `p`.
fn shoda_na(s: &Vec<char>, od: usize, p: &Vec<char>) -> (res: bool)
    requires
        od + p@.len() <= s@.len(),
    ensures
        res == (s@.subrange(od as int, od + p@.len()) == p@),
{
    let n = p.len();
    let mut i: usize = 0;
    while i < n
        invariant
            n == p@.len(),
            od + n <= s.len(),
            i <= n,
            forall|k: int| 0 <= k < i ==> s@[od + k] == p@[k],
        decreases n - i,
    {
        if s[od + i] != p[i] {
            assert(s@.subrange(od as int, od + n)[i as int] != p@[i as int]);
            return false;
        }
        i = i + 1;
    }
    assert(s@.subrange(od as int, od + n) =~= p@);
    true
}

/// `str::starts_with` with a string pattern.
pub fn zacina(s: &str, p: &str) -> (res: bool)
    ensures
        res == zacina_na(s@, p@),
{
    let x = znaky(s);
    let y = znaky(p);
    if y.len() > x.len() {
        return false;
    }
    shoda_na(&x, 0, &y)
}

/// `str::ends_with` with a string pattern.
pub fn konci(s: &str, p: &str) -> (res: bool)
    ensures
        res == konci_na(s@, p@),
{
    let x = znaky(s);
    let y = znaky(p);
    if y.len() > x.len() {
        return false;
    }
    shoda_na(&x, x.len() - y.len(), &y)
}

/// `str::contains` with a string pattern.
pub fn obsahuje(s: &str, p: &str) -> (res: bool)
    ensures
        res == obsahuje_usek(s@, p@),
{
    let x = znaky(s);
    let y = znaky(p);
    if y.len() > x.len() {
        return false;
    }
    if y.len() == 0 {
        assert(s@.subrange(0int, 0int + p@.len()) =~= p@);
        return true;
    }
    let posledni = x.len() - y.len();
    let mut i: usize = 0;
    while i <= posledni
        invariant
            x@ == s@,
            y@ == p@,
            posledni + y@.len() == x@.len(),
            y@.len() >= 1,
            x@.len() == x.len(),
            forall|k: int| 0 <= k < i ==> #[trigger] x@.subrange(k, k + y@.len()) != y@,
        decreases posledni + 1 - i,
    {
        if shoda_na(&x, i, &y) {
            return true;
        }
        i = i + 1;
    }
    assert forall|k: int| 0 <= k && k + p@.len() <= s@.len() implies #[trigger] s@.subrange(
        k,
        k + p@.len(),
    ) != p@ by {
        assert(k < i);
    }
    false
}

/// Whether some character of `s` is `c`.
pub fn obsahuje_znak(s: &str, c: char) -> (res: bool)
    ensures
        res == s@.contains(c),
{
    let x = znaky(s);
    let n = x.len();
    let mut i: usize = 0;
    while i < n
        invariant
            x@ == s@,
            n == x@.len(),
            i <= n,
            forall|k: int| 0 <= k < i ==> x@[k] != c,
        decreases n - i,
    {
        if x[i] == c {
            assert(s@[i as int] == c);
            return true;
        }
        i = i + 1;
    }
    false
}

// ───────────── Numbers as text ─────────────

pub open spec fn cifra(d: nat) -> char {
    if d == 0 {
        '0'
    } else if d == 1 {
        '1'
    } else if d == 2 {
        '2'
    } else if d == 3 {
        '3'
    } else if d == 4 {
        '4'
    } else if d == 5 {
        '5'
    } else if d == 6 {
        '6'
    } else if d == 7 {
        '7'
    } else if d == 8 {
        '8'
    } else {
        '9'
    }
}

/// The decimal digits of `n`, without leading zeros.
pub open spec fn dekadicky(n: nat) -> Seq<char>
    decreases n,
{
    if n < 10 {
        seq![cifra(n)]
    } else {
        dekadicky(n / 10).push(cifra(n % 10))
    }
}

/// How `Display` writes an integer: a minus sign for negative numbers, then the digits.
pub open spec fn cislo_text(n: int) -> Seq<char> {
    if n < 0 {
        seq!['-'] + dekadicky((-n) as nat)
    } else {
        dekadicky(n as nat)
    }
}

fn znak_cifry(d: u64) -> (res: char)
    requires
        d < 10,
    ensures
        res == cifra(d as nat),
{
    if d == 0 {
        '0'
    } else if d == 1 {
        '1'
    } else if d == 2 {
        '2'
    } else if d == 3 {
        '3'
    } else if d == 4 {
        '4'
    } else if d == 5 {
        '5'
    } else if d == 6 {
        '6'
    } else if d == 7 {
        '7'
    } else if d == 8 {
        '8'
    } else {
        '9'
    }
}

fn pripoj_dekadicky(s: &mut String, n: u64)
    ensures
        final(s)@ == old(s)@ + dekadicky(n as nat),
    decreases n,
{
    if n >= 10 {
        pripoj_dekadicky(s, n / 10);
    }
    pridej_znak(s, znak_cifry(n % 10));
    assert(final(s)@ =~= old(s)@ + dekadicky(n as nat));
}

/// Appends the decimal form of an unsigned `n`.
pub fn pripoj_cislo_u64(s: &mut String, n: u64)
    ensures
        final(s)@ == old(s)@ + dekadicky(n as nat),
{
    pripoj_dekadicky(s, n);
}

/// Appends the decimal form of `n`.
pub fn pripoj_cislo(s: &mut String, n: i64)
    ensures
        final(s)@ == old(s)@ + cislo_text(n as int),
{
    if n < 0 {
        pridej_znak(s, '-');
        let velikost: u64 = (0i128 - n as i128) as u64;
        pripoj_dekadicky(s, velikost);
        assert(final(s)@ =~= old(s)@ + cislo_text(n as int));
    } else {
        pripoj_dekadicky(s, n as u64);
    }
}

// ───────────── Parsing integers ─────────────

pub open spec fn hodnota_cifry(c: char) -> nat {
    (c as int - '0' as int) as nat
}

/// The value of a string of decimal digits.
pub open spec fn cifry(s: Seq<char>) -> nat
    decreases s.len(),
{
    if s.len() == 0 {
        0
    } else {
        cifry(s.drop_last()) * 10 + hodnota_cifry(s.last())
    }
}

/// A non-empty string of decimal digits.
pub open spec fn jen_cifry(s: Seq<char>) -> bool {
    s.len() > 0 && forall|i: int| 0 <= i < s.len() ==> je_cifra(#[trigger] s[i])
}

/// The number that `FromStr` of an integer type reads from `s`, before the range check:
/// an optional sign (`-` only for signed types) followed by at least one decimal digit,
/// nothing else.
pub open spec fn cele_cislo(s: Seq<char>, se_znamenkem: bool) -> Option<int> {
    if s.len() > 0 && s[0] == '-' && se_znamenkem {
        if jen_cifry(s.drop_first()) {
            Some(-(cifry(s.drop_first()) as int))
        } else {
            None
        }
    } else if s.len() > 0 && s[0] == '+' {
        if jen_cifry(s.drop_first()) {
            Some(cifry(s.drop_first()) as int)
        } else {
            None
        }
    } else if jen_cifry(s) {
        Some(cifry(s) as int)
    } else {
        None
    }
}

/// `s.parse::<i64>().ok()`.
pub open spec fn cislo_i64(s: Seq<char>) -> Option<i64> {
    match cele_cislo(s, true) {
        Some(n) => if i64::MIN <= n <= i64::MAX {
            Some(n as i64)
        } else {
            None
        },
        None => None,
    }
}

proof fn lemma_cifra(d: nat)
    requires
        d < 10,
    ensures
        je_cifra(cifra(d)),
        hodnota_cifry(cifra(d)) == d,
{
    if d == 0 {
    } else if d == 1 {
    } else if d == 2 {
    } else if d == 3 {
    } else if d == 4 {
    } else if d == 5 {
    } else if d == 6 {
    } else if d == 7 {
    } else if d == 8 {
    } else {
    }
}

/// The decimal digits of a number read back as that number.
pub proof fn dekadicky_se_cte_zpet(n: nat)
    ensures
        jen_cifry(dekadicky(n)),
        cifry(dekadicky(n)) == n,
    decreases n,
{
    if n < 10 {
        lemma_cifra(n);
        assert(dekadicky(n).drop_last() =~= Seq::<char>::empty());
        assert(cifry(Seq::<char>::empty()) == 0);
    } else {
        lemma_cifra(n % 10);
        assert(n == (n / 10) * 10 + n % 10);
        dekadicky_se_cte_zpet(n / 10);
        let d = dekadicky(n / 10);
        assert(dekadicky(n).drop_last() =~= d);
        assert(dekadicky(n).last() == cifra(n % 10));
        assert forall|i: int| 0 <= i < dekadicky(n).len() implies je_cifra(
            #[trigger] dekadicky(n)[i],
        ) by {
            if i < d.len() {
                assert(dekadicky(n)[i] == d[i]);
            }
        }
    }
}

/// `Display` of a non-negative `i64` parses back with `FromStr` to the same number.
pub proof fn cislo_se_cte_zpet(n: i64)
    requires
        n >= 0,
    ensures
        cislo_i64(cislo_text(n as int)) == Some(n),
{
    dekadicky_se_cte_zpet(n as nat);
    let s = dekadicky(n as nat);
    assert(je_cifra(s[0]));
}

/// `s.parse::<i32>().ok()`.
pub open spec fn cislo_i32(s: Seq<char>) -> Option<i32> {
    match cele_cislo(s, true) {
        Some(n) => if i32::MIN <= n <= i32::MAX {
            Some(n as i32)
        } else {
            None
        },
        None => None,
    }
}

/// `s.parse::<u16>().ok()`.
pub open spec fn cislo_u16(s: Seq<char>) -> Option<u16> {
    match cele_cislo(s, false) {
        Some(n) => if 0 <= n <= u16::MAX {
            Some(n as u16)
        } else {
            None
        },
        None => None,
    }
}

pub open spec fn nejvys(n: nat, mez: nat) -> nat {
    if n < mez {
        n
    } else {
        mez
    }
}

/// Reads the digits `z[od..]`, saturating at 2^65.
fn hodnota_cifer(z: &Vec<char>, od: usize) -> (res: Option<u128>)
    requires
        od <= z@.len(),
    ensures
        match res {
            Some(v) => jen_cifry(z@.subrange(od as int, z@.len() as int)) && v == nejvys(
                cifry(z@.subrange(od as int, z@.len() as int)),
                0x2_0000_0000_0000_0000,
            ),
            None => !jen_cifry(z@.subrange(od as int, z@.len() as int)),
        },
{
    let n = z.len();
    if od == n {
        return None;
    }
    let strop: u128 = 0x2_0000_0000_0000_0000;
    let mut v: u128 = 0;
    let mut i: usize = od;
    assert(z@.subrange(od as int, od as int) =~= Seq::<char>::empty());
    while i < n
        invariant
            n == z@.len(),
            od < n,
            od <= i <= n,
            v == nejvys(cifry(z@.subrange(od as int, i as int)), strop as nat),
            v <= strop,
            strop == 0x2_0000_0000_0000_0000u128,
            forall|k: int| od <= k < i ==> je_cifra(#[trigger] z@[k]),
        decreases n - i,
    {
        let c = z[i];
        if !('0' <= c && c <= '9') {
            assert(z@.subrange(od as int, n as int)[i - od] == c);
            return None;
        }
        let d: u128 = (c as u32 - '0' as u32) as u128;
        assert(z@.subrange(od as int, i + 1).drop_last() =~= z@.subrange(od as int, i as int));
        let w: u128 = v * 10 + d;
        if w < strop {
            v = w;
        } else {
            v = strop;
        }
        i = i + 1;
    }
    assert forall|k: int| 0 <= k < z@.subrange(od as int, n as int).len() implies je_cifra(
        #[trigger] z@.subrange(od as int, n as int)[k],
    ) by {
        assert(z@.subrange(od as int, n as int)[k] == z@[od + k]);
    }
    Some(v)
}

/// Reads an integer as `FromStr` does and keeps it when it lies in `min..=max`.
pub fn rozeber_cislo(s: &str, se_znamenkem: bool, min: i128, max: i128) -> (res: Option<i128>)
    requires
        -0x1_0000_0000_0000_0000 <= min <= max <= 0x1_0000_0000_0000_0000,
    ensures
        res == match cele_cislo(s@, se_znamenkem) {
            Some(n) => if min <= n <= max {
                Some(n as i128)
            } else {
                None
            },
            None => None,
        },
{
    let z = znaky(s);
    let n = z.len();
    let mut od: usize = 0;
    let mut zaporne = false;
    if n > 0 && z[0] == '-' && se_znamenkem {
        od = 1;
        zaporne = true;
    } else if n > 0 && z[0] == '+' {
        od = 1;
    }
    assert(od == 1 ==> z@.subrange(1, n as int) =~= s@.drop_first());
    assert(z@.subrange(0, n as int) =~= s@);
    match hodnota_cifer(&z, od) {
        None => None,
        Some(v) => {
            let strop: u128 = 0x2_0000_0000_0000_0000;
            if v >= strop {
                None
            } else {
                let h: i128 = if zaporne {
                    0 - v as i128
                } else {
                    v as i128
                };
                if min <= h && h <= max {
                    Some(h)
                } else {
                    None
                }
            }
        },
    }
}

/// `s.parse::<i64>().ok()`.
pub fn parsuj_i64(s: &str) -> (res: Option<i64>)
    ensures
        res == cislo_i64(s@),
{
    match rozeber_cislo(s, true, i64::MIN as i128, i64::MAX as i128) {
        Some(v) => Some(v as i64),
        None => None,
    }
}

/// `s.parse::<i32>().ok()`.
pub fn parsuj_i32(s: &str) -> (res: Option<i32>)
    ensures
        res == cislo_i32(s@),
{
    match rozeber_cislo(s, true, i32::MIN as i128, i32::MAX as i128) {
        Some(v) => Some(v as i32),
        None => None,
    }
}

/// `s.parse::<u16>().ok()`.
pub fn parsuj_u16(s: &str) -> (res: Option<u16>)
    ensures
        res == cislo_u16(s@),
{
    match rozeber_cislo(s, false, 0, u16::MAX as i128) {
        Some(v) => Some(v as u16),
        None => None,
    }
}

// ───────────── Lower case ─────────────

/// What `str::to_lowercase` returns for the characters `s`.
pub uninterp spec fn mala_pismena(s: Seq<char>) -> Seq<char>;

/// `str::to_lowercase`: the result is named `mala_pismena` of the input; the Unicode
/// lower-case mapping that it applies is not written out here.
#[verifier::external_body]
pub(crate) fn na_mala_pismena(s: &str) -> (res: String)
    ensures
        res@ == mala_pismena(s@),
{
    s.to_lowercase()
}

} // verus!
