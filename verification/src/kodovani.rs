//! Percent-encoding of query-string values: only the unreserved characters of
//! RFC 3986 pass unchanged, every other byte of the UTF-8 form becomes `%XX`.
use vstd::prelude::*;
use crate::text::pridej_znak;
use vstd::utf8::{encode_utf8, is_ascii_chars, is_ascii_chars_encode_utf8};

verus! {

/// An unreserved byte of RFC 3986: `A-Z a-z 0-9 - _ . ~`.
pub open spec fn nevyhrazeny(b: u8) -> bool {
    ||| (65 <= b && b <= 90)
    ||| (97 <= b && b <= 122)
    ||| (48 <= b && b <= 57)
    ||| b == 45
    ||| b == 95
    ||| b == 46
    ||| b == 126
}

/// The upper-case hexadecimal digit for `d < 16`.
pub open spec fn hex_cifra(d: int) -> char {
    if d < 10 {
        (d + 48) as char
    } else {
        (d + 55) as char
    }
}

/// The value of a hexadecimal digit (either case), if `c` is one.
pub open spec fn hex_hodnota(c: char) -> Option<int> {
    if '0' <= c && c <= '9' {
        Some(c as int - 48)
    } else if 'A' <= c && c <= 'F' {
        Some(c as int - 55)
    } else if 'a' <= c && c <= 'f' {
        Some(c as int - 87)
    } else {
        None
    }
}

/// How one byte is written.
pub open spec fn enkoduj_bajt(b: u8) -> Seq<char> {
    if nevyhrazeny(b) {
        seq![b as char]
    } else {
        seq!['%', hex_cifra(b as int / 16), hex_cifra(b as int % 16)]
    }
}

/// How a byte string is written: each byte in turn.
pub open spec fn enkoduj_bajty(b: Seq<u8>) -> Seq<char>
    decreases b.len(),
{
    if b.len() == 0 {
        Seq::empty()
    } else {
        enkoduj_bajt(b[0]) + enkoduj_bajty(b.drop_first())
    }
}

/// Percent-decoding: `%` with two hexadecimal digits is the byte they give; any other
/// character stands for its own UTF-8 bytes.
pub open spec fn dekoduj(s: Seq<char>) -> Seq<u8>
    decreases s.len(),
{
    if s.len() == 0 {
        Seq::empty()
    } else if s.len() >= 3 && s[0] == '%' && hex_hodnota(s[1]) is Some && hex_hodnota(
        s[2],
    ) is Some {
        seq![(hex_hodnota(s[1])->0 * 16 + hex_hodnota(s[2])->0) as u8] + dekoduj(s.skip(3))
    } else {
        encode_utf8(seq![s[0]]) + dekoduj(s.drop_first())
    }
}

/// A character that the encoding may write: an unreserved one or `%`.
pub open spec fn smi_v_kodovani(c: char) -> bool {
    ||| c == '%'
    ||| ('A' <= c && c <= 'Z')
    ||| ('a' <= c && c <= 'z')
    ||| ('0' <= c && c <= '9')
    ||| c == '-'
    ||| c == '_'
    ||| c == '.'
    ||| c == '~'
}

proof fn lemma_enkoduj_spojeni(a: Seq<u8>, b: Seq<u8>)
    ensures
        enkoduj_bajty(a + b) == enkoduj_bajty(a) + enkoduj_bajty(b),
    decreases a.len(),
{
    if a.len() == 0 {
        assert(a + b =~= b);
        assert(Seq::<char>::empty() + enkoduj_bajty(b) =~= enkoduj_bajty(b));
    } else {
        assert((a + b).drop_first() =~= a.drop_first() + b);
        lemma_enkoduj_spojeni(a.drop_first(), b);
        assert(enkoduj_bajt(a[0]) + (enkoduj_bajty(a.drop_first()) + enkoduj_bajty(b))
            =~= (enkoduj_bajt(a[0]) + enkoduj_bajty(a.drop_first())) + enkoduj_bajty(b));
    }
}

proof fn lemma_enkoduj_jeden(b: u8)
    ensures
        enkoduj_bajty(seq![b]) == enkoduj_bajt(b),
{
    assert(seq![b].drop_first() =~= Seq::<u8>::empty());
    assert(enkoduj_bajty(Seq::<u8>::empty()) =~= Seq::<char>::empty());
    assert(enkoduj_bajt(b) + Seq::<char>::empty() =~= enkoduj_bajt(b));
}

fn hex_znak(d: u8) -> (res: char)
    requires
        d < 16,
    ensures
        res == hex_cifra(d as int),
{
    if d < 10 {
        (d + 48) as char
    } else {
        (d + 55) as char
    }
}

fn nevyhrazeny_bajt(b: u8) -> (res: bool)
    ensures
        res == nevyhrazeny(b),
{
    (65 <= b && b <= 90) || (97 <= b && b <= 122) || (48 <= b && b <= 57) || b == 45 || b == 95
        || b == 46 || b == 126
}

/// Percent-encodes a value for a query string: the unreserved characters of RFC 3986
/// pass, every other byte of the UTF-8 form becomes `%XX` with upper-case hex digits.
pub fn enkoduj(hodnota: &str) -> (res: String)
    ensures
        res@ == enkoduj_bajty(encode_utf8(hodnota@)),
{
    let bajty = hodnota.as_bytes();
    let n = bajty.len();
    let mut out = String::new();
    let mut i: usize = 0;
    assert(bajty@.take(0) =~= Seq::<u8>::empty());
    while i < n
        invariant
            n == bajty@.len(),
            i <= n,
            out@ == enkoduj_bajty(bajty@.take(i as int)),
        decreases n - i,
    {
        let b = bajty[i];
        if nevyhrazeny_bajt(b) {
            pridej_znak(&mut out, b as char);
        } else {
            pridej_znak(&mut out, '%');
            pridej_znak(&mut out, hex_znak(b / 16));
            pridej_znak(&mut out, hex_znak(b % 16));
        }
        proof {
            assert(bajty@.take(i + 1) =~= bajty@.take(i as int) + seq![b]);
            lemma_enkoduj_spojeni(bajty@.take(i as int), seq![b]);
            lemma_enkoduj_jeden(b);
        }
        assert(out@ =~= enkoduj_bajty(bajty@.take(i + 1)));
        i = i + 1;
    }
    assert(bajty@.take(n as int) =~= bajty@);
    out
}

/// Percent-decoding undoes the encoding: whatever bytes went in come back out.
pub proof fn dekodovani_vraci_bajty(b: Seq<u8>)
    ensures
        dekoduj(enkoduj_bajty(b)) == b,
    decreases b.len(),
{
    if b.len() == 0 {
        assert(enkoduj_bajty(b) =~= Seq::<char>::empty());
    } else {
        let prvni = b[0];
        let zbytek = enkoduj_bajty(b.drop_first());
        let e = enkoduj_bajt(prvni) + zbytek;
        assert(enkoduj_bajty(b) == e);
        dekodovani_vraci_bajty(b.drop_first());
        if nevyhrazeny(prvni) {
            assert(e[0] == prvni as char);
            assert(e.drop_first() =~= zbytek);
            assert(e[0] != '%');
            let z = seq![e[0]];
            assert(is_ascii_chars(z));
            is_ascii_chars_encode_utf8(z);
            assert(encode_utf8(z) =~= seq![prvni]);
            assert(dekoduj(e) == seq![prvni] + dekoduj(zbytek));
        } else {
            let h = prvni as int / 16;
            let l = prvni as int % 16;
            assert(e[0] == '%');
            assert(e[1] == hex_cifra(h));
            assert(e[2] == hex_cifra(l));
            assert(hex_hodnota(hex_cifra(h)) == Some(h));
            assert(hex_hodnota(hex_cifra(l)) == Some(l));
            assert(e.skip(3) =~= zbytek);
            assert((h * 16 + l) as u8 == prvni);
            assert(dekoduj(e) == seq![prvni] + dekoduj(zbytek));
        }
        assert(seq![prvni] + b.drop_first() =~= b);
    }
}

/// Every character of an encoded value is unreserved or `%`, so the value can never
/// carry `&`, `=`, `#`, `?`, spaces or line breaks into a URL.
pub proof fn kodovani_pise_jen_bezpecne_znaky(b: Seq<u8>)
    ensures
        forall|i: int|
            0 <= i < enkoduj_bajty(b).len() ==> smi_v_kodovani(#[trigger] enkoduj_bajty(b)[i]),
    decreases b.len(),
{
    if b.len() > 0 {
        kodovani_pise_jen_bezpecne_znaky(b.drop_first());
        let prvni = enkoduj_bajt(b[0]);
        let zbytek = enkoduj_bajty(b.drop_first());
        assert forall|i: int| 0 <= i < prvni.len() implies smi_v_kodovani(#[trigger] prvni[i]) by {
            if !nevyhrazeny(b[0]) && i > 0 {
                let d = if i == 1 {
                    b[0] as int / 16
                } else {
                    b[0] as int % 16
                };
                assert(prvni[i] == hex_cifra(d));
            }
        }
        assert forall|i: int| 0 <= i < enkoduj_bajty(b).len() implies smi_v_kodovani(
            #[trigger] enkoduj_bajty(b)[i],
        ) by {
            if i < prvni.len() {
                assert(enkoduj_bajty(b)[i] == prvni[i]);
            } else {
                assert(enkoduj_bajty(b)[i] == zbytek[i - prvni.len()]);
            }
        }
    }
}

} // verus!
