//! How a query string is read back into parameters (`application/x-www-form-urlencoded`):
//! it splits at `&` into parts, empty parts are skipped, each part splits at its first
//! `=` into a key and a value, and both are decoded (`+` is a space, `%XX` a byte, the
//! bytes UTF-8). Where a key occurs more than once, the last value counts.
use vstd::prelude::*;
use vstd::utf8::{decode_utf8, encode_scalar, encode_utf8, encode_utf8_decode_utf8};
use crate::kodovani::{
    dekoduj, dekodovani_vraci_bajty, enkoduj_bajty, kodovani_pise_jen_bezpecne_znaky,
    smi_v_kodovani,
};
use crate::text::{do_znaku, lemma_do_znaku_je};

verus! {

/// `+` read as a space.
pub open spec fn plus_na_mezeru(s: Seq<char>) -> Seq<char> {
    s.map_values(|c: char| if c == '+' { ' ' } else { c })
}

/// How one key or value is decoded.
pub open spec fn precti(s: Seq<char>) -> Seq<char> {
    decode_utf8(dekoduj(plus_na_mezeru(s)))
}

/// The `&`-separated parts of a query string.
pub open spec fn casti(q: Seq<char>) -> Seq<Seq<char>>
    decreases q.len(),
{
    let i = do_znaku(q, '&');
    if i < q.len() {
        seq![q.take(i as int)] + casti(q.skip(i + 1int))
    } else {
        seq![q]
    }
}

/// The key and the value of one part: it splits at the first `=`; without one, the
/// value is empty.
pub open spec fn klic_a_hodnota(cast: Seq<char>) -> (Seq<char>, Seq<char>) {
    let j = do_znaku(cast, '=');
    if j < cast.len() {
        (cast.take(j as int), cast.skip(j + 1int))
    } else {
        (cast, Seq::empty())
    }
}

/// What one part gives to `klic`: its decoded value, where the part is not empty and
/// its key reads as `klic`.
pub open spec fn hodnota_casti(cast: Seq<char>, klic: Seq<char>) -> Option<Seq<char>> {
    if cast.len() > 0 && precti(klic_a_hodnota(cast).0) == klic {
        Some(precti(klic_a_hodnota(cast).1))
    } else {
        None
    }
}

/// The pairs that the parts give, in order: each non-empty part, its key and value
/// read.
pub open spec fn pary_casti(c: Seq<Seq<char>>) -> Seq<(Seq<char>, Seq<char>)>
    decreases c.len(),
{
    if c.len() == 0 {
        Seq::empty()
    } else {
        par_casti(c[0]) + pary_casti(c.drop_first())
    }
}

/// The pair of one part, or none for an empty part.
pub open spec fn par_casti(cast: Seq<char>) -> Seq<(Seq<char>, Seq<char>)> {
    if cast.len() > 0 {
        seq![(precti(klic_a_hodnota(cast).0), precti(klic_a_hodnota(cast).1))]
    } else {
        Seq::empty()
    }
}

/// The pairs that reading the query string `q` gives, in order.
pub open spec fn pary_dotazu(q: Seq<char>) -> Seq<(Seq<char>, Seq<char>)> {
    pary_casti(casti(q))
}

/// The value of `klic` among the parts: that of the last part that has it.
pub open spec fn hodnota_v_castech(c: Seq<Seq<char>>, klic: Seq<char>) -> Option<Seq<char>>
    decreases c.len(),
{
    if c.len() == 0 {
        None
    } else {
        match hodnota_v_castech(c.drop_first(), klic) {
            Some(v) => Some(v),
            None => hodnota_casti(c[0], klic),
        }
    }
}

/// The value that reading the query string `q` gives to `klic`, if any.
pub open spec fn hodnota_v_dotazu(q: Seq<char>, klic: Seq<char>) -> Option<Seq<char>> {
    hodnota_v_castech(casti(q), klic)
}

pub open spec fn bez_znaku(s: Seq<char>, c: char) -> bool {
    forall|i: int| 0 <= i < s.len() ==> #[trigger] s[i] != c
}

/// Empty, or starting with `&`: what may follow a part of a query string.
pub open spec fn za_casti(r: Seq<char>) -> bool {
    r.len() == 0 || r[0] == '&'
}

/// The value of `klic` in the parts that follow the `&` at the start of `r`.
pub open spec fn hodnota_za(r: Seq<char>, klic: Seq<char>) -> Option<Seq<char>> {
    if r.len() == 0 {
        None
    } else {
        hodnota_v_dotazu(r.skip(1), klic)
    }
}

/// The first of two values that is there.
pub open spec fn nebo(a: Option<Seq<char>>, b: Option<Seq<char>>) -> Option<Seq<char>> {
    if a is Some {
        a
    } else {
        b
    }
}

/// A key that reads as itself and splits cleanly: no `&`, `=`, `%` or `+`.
pub open spec fn cisty_klic(k: Seq<char>) -> bool {
    &&& k.len() > 0
    &&& bez_znaku(k, '&')
    &&& bez_znaku(k, '=')
    &&& bez_znaku(k, '%')
    &&& bez_znaku(k, '+')
}

/// Text without `%` is percent-decoded into its own UTF-8 bytes.
pub proof fn lemma_dekoduj_bez_procenta(s: Seq<char>)
    requires
        bez_znaku(s, '%'),
    ensures
        dekoduj(s) == encode_utf8(s),
    decreases s.len(),
{
    if s.len() > 0 {
        assert(bez_znaku(s.drop_first(), '%')) by {
            assert forall|i: int| 0 <= i < s.drop_first().len() implies #[trigger] s.drop_first()[i]
                != '%' by {
                assert(s.drop_first()[i] == s[i + 1]);
            }
        }
        lemma_dekoduj_bez_procenta(s.drop_first());
        let x = seq![s[0]];
        assert(x.drop_first() =~= Seq::<char>::empty());
        assert(encode_utf8(x.drop_first()) =~= Seq::<u8>::empty());
        assert(encode_utf8(x) =~= encode_scalar(s[0] as u32));
        assert(s[0] != '%');
        assert(dekoduj(s) == encode_utf8(x) + dekoduj(s.drop_first()));
    }
}

/// Text without `%` and `+` reads as itself.
pub proof fn lemma_precti_cisty(s: Seq<char>)
    requires
        bez_znaku(s, '%'),
        bez_znaku(s, '+'),
    ensures
        precti(s) == s,
{
    assert(plus_na_mezeru(s) =~= s);
    lemma_dekoduj_bez_procenta(s);
    encode_utf8_decode_utf8(s);
}

/// A value written by the percent-encoding reads back as the original text.
pub proof fn lemma_precti_enkodovane(v: Seq<char>)
    ensures
        precti(enkoduj_bajty(encode_utf8(v))) == v,
        bez_znaku(enkoduj_bajty(encode_utf8(v)), '&'),
        bez_znaku(enkoduj_bajty(encode_utf8(v)), '='),
{
    let e = enkoduj_bajty(encode_utf8(v));
    kodovani_pise_jen_bezpecne_znaky(encode_utf8(v));
    assert forall|i: int| 0 <= i < e.len() implies #[trigger] e[i] != '+' && e[i] != '&' && e[i]
        != '=' by {
        assert(smi_v_kodovani(e[i]));
    }
    assert(plus_na_mezeru(e) =~= e);
    dekodovani_vraci_bajty(encode_utf8(v));
    encode_utf8_decode_utf8(v);
}

/// The first part ends at the first `&`.
pub proof fn lemma_casti_prvni(a: Seq<char>, r: Seq<char>)
    requires
        bez_znaku(a, '&'),
        za_casti(r),
    ensures
        casti(a + r) == if r.len() == 0 {
            seq![a]
        } else {
            seq![a] + casti(r.skip(1))
        },
{
    let q = a + r;
    lemma_do_znaku_je(q, '&', a.len() as int);
    if r.len() == 0 {
        assert(q =~= a);
    } else {
        assert(q.take(a.len() as int) =~= a);
        assert(q.skip(a.len() + 1int) =~= r.skip(1));
    }
}

/// Reading `a + r`: the parts after `a` win, then `a` itself.
pub proof fn lemma_hodnota_prvni(a: Seq<char>, r: Seq<char>, klic: Seq<char>)
    requires
        bez_znaku(a, '&'),
        za_casti(r),
    ensures
        hodnota_v_dotazu(a + r, klic) == nebo(hodnota_za(r, klic), hodnota_casti(a, klic)),
{
    lemma_casti_prvni(a, r);
    let c = casti(a + r);
    assert(c[0] == a);
    if r.len() == 0 {
        assert(c.drop_first() =~= Seq::<Seq<char>>::empty());
        assert(hodnota_v_castech(c.drop_first(), klic) is None);
    } else {
        assert(c.drop_first() =~= casti(r.skip(1)));
        assert(hodnota_v_castech(c.drop_first(), klic) == hodnota_za(r, klic));
    }
}

/// Reading what follows a part, when one more `&`-led part (or nothing) comes first.
pub proof fn lemma_hodnota_za(c: Seq<char>, r: Seq<char>, klic: Seq<char>)
    requires
        c.len() == 0 || (c[0] == '&' && bez_znaku(c.skip(1), '&')),
        za_casti(r),
    ensures
        hodnota_za(c + r, klic) == nebo(
            hodnota_za(r, klic),
            if c.len() == 0 {
                None
            } else {
                hodnota_casti(c.skip(1), klic)
            },
        ),
{
    if c.len() == 0 {
        assert(c + r =~= r);
    } else {
        assert((c + r).skip(1) =~= c.skip(1) + r);
        lemma_hodnota_prvni(c.skip(1), r, klic);
    }
}

/// The part `k=v` gives `v`, read, to the key `k` and nothing to any other key.
pub proof fn lemma_hodnota_casti(k: Seq<char>, v: Seq<char>, klic: Seq<char>)
    requires
        cisty_klic(k),
    ensures
        hodnota_casti(k + seq!['='] + v, klic) == if klic == k {
            Some(precti(v))
        } else {
            None
        },
{
    let cast = k + seq!['='] + v;
    lemma_do_znaku_je(cast, '=', k.len() as int);
    assert(cast.take(k.len() as int) =~= k);
    assert(cast.skip(k.len() + 1int) =~= v);
    lemma_precti_cisty(k);
}

/// Reading `a + r`: the pair of `a`, then those of what follows.
pub proof fn lemma_pary_prvni(a: Seq<char>, r: Seq<char>)
    requires
        bez_znaku(a, '&'),
        za_casti(r),
    ensures
        pary_dotazu(a + r) == par_casti(a) + if r.len() == 0 {
            Seq::empty()
        } else {
            pary_dotazu(r.skip(1))
        },
{
    lemma_casti_prvni(a, r);
    let c = casti(a + r);
    assert(c[0] == a);
    assert(pary_casti(c) == par_casti(c[0]) + pary_casti(c.drop_first()));
    if r.len() == 0 {
        assert(c.drop_first() =~= Seq::<Seq<char>>::empty());
        assert(pary_casti(c.drop_first()) =~= Seq::<(Seq<char>, Seq<char>)>::empty());
        assert(par_casti(a) + Seq::<(Seq<char>, Seq<char>)>::empty() =~= par_casti(a));
    } else {
        assert(c.drop_first() =~= casti(r.skip(1)));
    }
}

/// A leading `&` only adds an empty part, which gives nothing.
pub proof fn lemma_pary_za(r: Seq<char>)
    requires
        r.len() > 0,
        r[0] == '&',
    ensures
        pary_dotazu(r) == pary_dotazu(r.skip(1)),
{
    let e: Seq<char> = Seq::empty();
    assert(e + r =~= r);
    assert(bez_znaku(e, '&'));
    lemma_pary_prvni(e, r);
    assert(par_casti(e) + pary_dotazu(r.skip(1)) =~= pary_dotazu(r.skip(1)));
}

/// An empty query gives no pairs.
pub proof fn lemma_pary_prazdne()
    ensures
        pary_dotazu(Seq::empty()) == Seq::<(Seq<char>, Seq<char>)>::empty(),
{
    let e: Seq<char> = Seq::empty();
    assert(bez_znaku(e, '&'));
    lemma_pary_prvni(e, e);
    assert(e + e =~= e);
}

/// The part `k=v` is split into `k` and `v`.
pub proof fn lemma_klic_a_hodnota(k: Seq<char>, v: Seq<char>)
    requires
        bez_znaku(k, '='),
    ensures
        klic_a_hodnota(k + seq!['='] + v) == (k, v),
{
    let cast = k + seq!['='] + v;
    lemma_do_znaku_je(cast, '=', k.len() as int);
    assert(cast.take(k.len() as int) =~= k);
    assert(cast.skip(k.len() + 1int) =~= v);
}

} // verus!
