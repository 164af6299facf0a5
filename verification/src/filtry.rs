//! The state of the listing kept in query parameters (`?page=&search=&stav=&zeme=`),
//! the links built from it, and the filter pills of the listing page.
use std::collections::HashMap;
use vstd::prelude::*;
use vstd::utf8::encode_utf8;
use crate::dotaz::{
    bez_znaku, cisty_klic, hodnota_casti, hodnota_v_dotazu, hodnota_za, lemma_hodnota_casti,
    lemma_hodnota_prvni, lemma_hodnota_za, lemma_klic_a_hodnota, lemma_pary_prazdne,
    lemma_pary_prvni, lemma_pary_za, lemma_precti_cisty, lemma_precti_enkodovane, pary_dotazu,
    za_casti,
};
use crate::kodovani::{kodovani_pise_jen_bezpecne_znaky, smi_v_kodovani};
use crate::kodovani::{enkoduj, enkoduj_bajty};
use crate::parametry::{hodnota_parametru, parametr};
use crate::sql::{
    filtry_propousti, plati_vse, podminka_filtru, text_filtru_poctu, text_filtru_vypisu,
    text_podminek, RadekV,
};
use crate::text::{
    cislo_i64, cislo_se_cte_zpet, cislo_text, dekadicky, dekadicky_se_cte_zpet, je_bily, je_cifra,
    je_ridici, orez, orez_zleva, orez_zprava, orizni, parsuj_i64, pridej_znak, pripoj,
    pripoj_cislo, ridici_znak, stejne, text, znaky,
};

verus! {

/// The filter of the listing as plain values.
pub struct FiltryV {
    pub page: i64,
    pub search: Seq<char>,
    pub stav: Seq<char>,
    pub zeme: Seq<char>,
}

/// Listing state carried in the query parameters, passed on by every link and
/// server action so that neither the page nor the filters get lost.
#[derive(Debug, Clone)]
pub struct Filtry {
    pub page: i64,
    /// City; goes to SQL as an ILIKE pattern, empty = no filter.
    pub search: String,
    /// `kontaktovane` | `smluvene` | empty.
    pub stav: String,
    /// Country code (`PL`, `CZ`, …), empty = no filter.
    pub zeme: String,
}

impl View for Filtry {
    type V = FiltryV;

    open spec fn view(&self) -> FiltryV {
        FiltryV { page: self.page, search: self.search@, stav: self.stav@, zeme: self.zeme@ }
    }
}

/// An ASCII upper-case letter.
pub open spec fn je_velke(c: char) -> bool {
    'A' <= c && c <= 'Z'
}

/// A country code: the trimmed value when it is exactly two ASCII upper-case letters,
/// otherwise empty.
pub open spec fn zeme_z(hodnota: Option<Seq<char>>) -> Seq<char> {
    match hodnota {
        Some(z) => {
            let t = orez(z);
            if t.len() == 2 && je_velke(t[0]) && je_velke(t[1]) {
                t
            } else {
                Seq::empty()
            }
        },
        None => Seq::empty(),
    }
}

/// The page: a number of at least 1, otherwise 1.
pub open spec fn stranka_z(hodnota: Option<Seq<char>>) -> i64 {
    match hodnota {
        Some(t) => match cislo_i64(t) {
            Some(n) => if n >= 1 {
                n
            } else {
                1
            },
            None => 1,
        },
        None => 1,
    }
}

/// The state filter: one of the two known values, anything else means no filter.
pub open spec fn stav_z(hodnota: Option<Seq<char>>) -> Seq<char> {
    match hodnota {
        Some(s) => if s == "kontaktovane"@ || s == "smluvene"@ {
            s
        } else {
            Seq::empty()
        },
        None => Seq::empty(),
    }
}

/// `&klic=value` with the value percent-encoded, or nothing for an empty value.
pub open spec fn cast_dotazu(klic: Seq<char>, hodnota: Seq<char>) -> Seq<char> {
    if hodnota.len() == 0 {
        Seq::empty()
    } else {
        klic + enkoduj_bajty(encode_utf8(hodnota))
    }
}

pub open spec fn suffix_v(f: FiltryV) -> Seq<char> {
    cast_dotazu("&search="@, f.search) + cast_dotazu("&stav="@, f.stav) + cast_dotazu(
        "&zeme="@,
        f.zeme,
    )
}

pub open spec fn url_v(f: FiltryV) -> Seq<char> {
    "/?page="@ + cislo_text(f.page as int) + suffix_v(f)
}

pub open spec fn url_detailu_v(f: FiltryV, id: i32) -> Seq<char> {
    "/provozovna/"@ + cislo_text(id as int) + "?page="@ + cislo_text(f.page as int) + suffix_v(f)
}

/// A filter that came through `z_params`: page at least 1, a known state, a valid
/// country code.
pub open spec fn normalizovane(f: FiltryV) -> bool {
    &&& f.page >= 1
    &&& f.stav == Seq::<char>::empty() || f.stav == "kontaktovane"@ || f.stav == "smluvene"@
    &&& f.zeme.len() == 0 || (f.zeme.len() == 2 && je_velke(f.zeme[0]) && je_velke(f.zeme[1]))
}

/// A country code may only be two ASCII upper-case letters; anything else is dropped.
/// Shared by the listing and the export.
pub fn normalizuj_zemi(hodnota: Option<&str>) -> (res: String)
    ensures
        res@ == zeme_z(
            match hodnota {
                Some(h) => Some(h@),
                None => None,
            },
        ),
{
    match hodnota {
        Some(h) => {
            let z = orizni(h);
            let c = znaky(z);
            if c.len() == 2 && 'A' <= c[0] && c[0] <= 'Z' && 'A' <= c[1] && c[1] <= 'Z' {
                text(z)
            } else {
                String::new()
            }
        },
        None => String::new(),
    }
}

/// Normalizing a country code twice gives what normalizing it once gave.
pub proof fn normalizace_zeme_je_idempotentni(hodnota: Option<Seq<char>>)
    ensures
        zeme_z(Some(zeme_z(hodnota))) == zeme_z(hodnota),
{
    let z = zeme_z(hodnota);
    if z.len() == 2 {
        assert(!je_bily(z[0]));
        assert(z.drop_first().drop_first() =~= Seq::<char>::empty());
        assert(orez_zleva(z) == z);
        assert(orez_zprava(z.drop_last()) == z.drop_last());
        assert(orez_zprava(z) == z);
    } else {
        assert(z =~= Seq::<char>::empty());
        assert(orez(z) == z);
    }
}

fn stav_z_parametru(hodnota: Option<&String>) -> (res: String)
    ensures
        res@ == stav_z(
            match hodnota {
                Some(h) => Some(h@),
                None => None,
            },
        ),
{
    match hodnota {
        Some(s) => {
            if stejne(s.as_str(), "kontaktovane") || stejne(s.as_str(), "smluvene") {
                s.clone()
            } else {
                String::new()
            }
        },
        None => String::new(),
    }
}

fn stranka_z_parametru(hodnota: Option<&String>) -> (res: i64)
    ensures
        res == stranka_z(
            match hodnota {
                Some(h) => Some(h@),
                None => None,
            },
        ),
{
    match hodnota {
        Some(t) => match parsuj_i64(t.as_str()) {
            Some(n) => if n >= 1 {
                n
            } else {
                1
            },
            None => 1,
        },
        None => 1,
    }
}

fn pripoj_cast(qs: &mut String, klic: &str, hodnota: &String)
    ensures
        final(qs)@ == old(qs)@ + cast_dotazu(klic@, hodnota@),
{
    if !hodnota.as_str().is_empty() {
        pripoj(qs, klic);
        let e = enkoduj(hodnota.as_str());
        pripoj(qs, e.as_str());
        assert(final(qs)@ =~= old(qs)@ + cast_dotazu(klic@, hodnota@));
    } else {
        assert(final(qs)@ =~= old(qs)@ + cast_dotazu(klic@, hodnota@));
    }
}

impl Filtry {
    pub fn z_params(params: &HashMap<String, String>) -> (res: Filtry)
        ensures
            res.page == stranka_z(hodnota_parametru(params@, "page"@)),
            res.search@ == match hodnota_parametru(params@, "search"@) {
                Some(s) => s,
                None => Seq::empty(),
            },
            res.stav@ == stav_z(hodnota_parametru(params@, "stav"@)),
            res.zeme@ == zeme_z(hodnota_parametru(params@, "zeme"@)),
            normalizovane(res@),
    {
        let page = stranka_z_parametru(parametr(params, "page"));
        let search = match parametr(params, "search") {
            Some(s) => s.clone(),
            None => String::new(),
        };
        // Anything but the known values means no filter, so that nothing unexpected
        // reaches SQL.
        let stav = stav_z_parametru(parametr(params, "stav"));
        let zeme = match parametr(params, "zeme") {
            Some(z) => normalizuj_zemi(Some(z.as_str())),
            None => normalizuj_zemi(None),
        };
        Filtry { page, search, stav, zeme }
    }

    /// `&search=…&stav=…&zeme=…`; `page` is added to links separately because paging
    /// changes it.
    pub fn suffix(&self) -> (res: String)
        ensures
            res@ == suffix_v(self@),
    {
        let mut qs = String::new();
        pripoj_cast(&mut qs, "&search=", &self.search);
        pripoj_cast(&mut qs, "&stav=", &self.stav);
        pripoj_cast(&mut qs, "&zeme=", &self.zeme);
        assert(qs@ =~= suffix_v(self@));
        qs
    }

    /// A link to the listing with the same filter and page.
    pub fn url(&self) -> (res: String)
        ensures
            res@ == url_v(self@),
    {
        let mut s = text("/?page=");
        pripoj_cislo(&mut s, self.page);
        let q = self.suffix();
        pripoj(&mut s, q.as_str());
        s
    }

    /// A link to the detail of a place, filters included (for the way back).
    pub fn url_detailu(&self, id: i32) -> (res: String)
        ensures
            res@ == url_detailu_v(self@, id),
    {
        let mut s = text("/provozovna/");
        pripoj_cislo(&mut s, id as i64);
        pripoj(&mut s, "?page=");
        pripoj_cislo(&mut s, self.page);
        let q = self.suffix();
        pripoj(&mut s, q.as_str());
        s
    }

    /// Another city, the state stays. Paging starts again from the first page.
    pub fn s_mestem(&self, mesto: &str) -> (res: Filtry)
        ensures
            res@ == (FiltryV { page: 1, search: mesto@, ..self@ }),
    {
        Filtry { page: 1, search: text(mesto), stav: self.stav.clone(), zeme: self.zeme.clone() }
    }

    /// Another state, the city stays. Paging starts again from the first page.
    pub fn se_stavem(&self, stav: &str) -> (res: Filtry)
        ensures
            res@ == (FiltryV { page: 1, stav: stav@, ..self@ }),
    {
        Filtry { page: 1, search: self.search.clone(), stav: text(stav), zeme: self.zeme.clone() }
    }

    /// Another country. The city is dropped (the list of cities follows the country)
    /// and paging starts again from the first page.
    pub fn se_zemi(&self, zeme: &str) -> (res: Filtry)
        ensures
            res@ == (FiltryV { page: 1, search: Seq::empty(), zeme: zeme@, ..self@ }),
    {
        Filtry { page: 1, search: String::new(), stav: self.stav.clone(), zeme: text(zeme) }
    }
}

/// One `&key=value` part of a link, read back.
proof fn lemma_cast_odkazu(k: Seq<char>, v: Seq<char>, klic: Seq<char>)
    requires
        cisty_klic(k),
    ensures
        ({
            let c = cast_dotazu(seq!['&'] + k + seq!['='], v);
            &&& c.len() == 0 <==> v.len() == 0
            &&& c.len() == 0 || (c[0] == '&' && bez_znaku(c.skip(1), '&'))
            &&& c.len() > 0 ==> hodnota_casti(c.skip(1), klic) == if klic == k {
                Some(v)
            } else {
                None
            }
        }),
{
    let e = enkoduj_bajty(encode_utf8(v));
    let c = cast_dotazu(seq!['&'] + k + seq!['='], v);
    if v.len() > 0 {
        lemma_precti_enkodovane(v);
        assert(c.skip(1) =~= k + seq!['='] + e);
        assert forall|i: int| 0 <= i < c.skip(1).len() implies #[trigger] c.skip(1)[i] != '&' by {
            if i < k.len() {
                assert(c.skip(1)[i] == k[i]);
            } else if i > k.len() {
                assert(c.skip(1)[i] == e[i - k.len() - 1]);
            }
        }
        lemma_hodnota_casti(k, e, klic);
    }
}

/// The first part of a link's query, `page=N`, read back.
proof fn lemma_cast_stranky(page: i64, klic: Seq<char>)
    requires
        page >= 0,
    ensures
        bez_znaku("page"@ + seq!['='] + cislo_text(page as int), '&'),
        hodnota_casti("page"@ + seq!['='] + cislo_text(page as int), klic) == if klic == "page"@ {
            Some(cislo_text(page as int))
        } else {
            None
        },
{
    reveal_strlit("page");
    let n = cislo_text(page as int);
    dekadicky_se_cte_zpet(page as nat);
    assert(n == dekadicky(page as nat));
    assert forall|i: int| 0 <= i < n.len() implies #[trigger] n[i] != '&' && n[i] != '%' && n[i]
        != '+' by {
        assert(je_cifra(n[i]));
    }
    let p = "page"@ + seq!['='] + n;
    assert forall|i: int| 0 <= i < p.len() implies #[trigger] p[i] != '&' by {
        if i >= 5 {
            assert(p[i] == n[i - 5]);
        }
    }
    lemma_precti_cisty(n);
    lemma_hodnota_casti("page"@, n, klic);
}

/// The filter parts of a link's query, read back.
#[verifier::rlimit(40)]
proof fn lemma_zbytek_odkazu(f: FiltryV, klic: Seq<char>)
    ensures
        za_casti(suffix_v(f)),
        hodnota_za(suffix_v(f), klic) == if klic == "zeme"@ && f.zeme.len() > 0 {
            Some(f.zeme)
        } else if klic == "stav"@ && f.stav.len() > 0 {
            Some(f.stav)
        } else if klic == "search"@ && f.search.len() > 0 {
            Some(f.search)
        } else {
            None
        },
{
    reveal_strlit("search");
    reveal_strlit("stav");
    reveal_strlit("zeme");
    reveal_strlit("&search=");
    reveal_strlit("&stav=");
    reveal_strlit("&zeme=");
    let s1 = cast_dotazu("&search="@, f.search);
    let s2 = cast_dotazu("&stav="@, f.stav);
    let s3 = cast_dotazu("&zeme="@, f.zeme);
    assert("&search="@ =~= seq!['&'] + "search"@ + seq!['=']);
    assert("&stav="@ =~= seq!['&'] + "stav"@ + seq!['=']);
    assert("&zeme="@ =~= seq!['&'] + "zeme"@ + seq!['=']);
    lemma_cast_odkazu("search"@, f.search, klic);
    lemma_cast_odkazu("stav"@, f.stav, klic);
    lemma_cast_odkazu("zeme"@, f.zeme, klic);
    let e: Seq<char> = Seq::empty();
    assert(s3 + e =~= s3);
    lemma_hodnota_za(s3, e, klic);
    lemma_hodnota_za(s2, s3, klic);
    assert(za_casti(s2 + s3));
    lemma_hodnota_za(s1, s2 + s3, klic);
    assert(s1 + (s2 + s3) =~= suffix_v(f));
}

/// What reading the query of a link gives to any key.
proof fn lemma_cteni_odkazu(f: FiltryV, klic: Seq<char>)
    requires
        f.page >= 0,
    ensures
        hodnota_v_dotazu(url_v(f).skip(2), klic) == if klic == "zeme"@ && f.zeme.len() > 0 {
            Some(f.zeme)
        } else if klic == "stav"@ && f.stav.len() > 0 {
            Some(f.stav)
        } else if klic == "search"@ && f.search.len() > 0 {
            Some(f.search)
        } else if klic == "page"@ {
            Some(cislo_text(f.page as int))
        } else {
            None
        },
{
    reveal_strlit("/?page=");
    reveal_strlit("page");
    let p = "page"@ + seq!['='] + cislo_text(f.page as int);
    lemma_cast_stranky(f.page, klic);
    lemma_zbytek_odkazu(f, klic);
    lemma_hodnota_prvni(p, suffix_v(f), klic);
    assert(url_v(f).skip(2) =~= p + suffix_v(f));
}

/// A link keeps the listing state: reading the query string of `url` back into
/// parameters, as a request to it is read, gives `z_params` the same page and filters,
/// for every filter that `z_params` produces. The link to a detail carries the same
/// query.
pub proof fn odkaz_nese_filtr(f: FiltryV, id: i32)
    requires
        normalizovane(f),
    ensures
        ({
            let q = url_v(f).skip(2);
            &&& url_v(f).take(2) == "/?"@
            &&& stranka_z(hodnota_v_dotazu(q, "page"@)) == f.page
            &&& match hodnota_v_dotazu(q, "search"@) {
                Some(s) => s,
                None => Seq::empty(),
            } == f.search
            &&& stav_z(hodnota_v_dotazu(q, "stav"@)) == f.stav
            &&& zeme_z(hodnota_v_dotazu(q, "zeme"@)) == f.zeme
            &&& url_detailu_v(f, id) == "/provozovna/"@ + cislo_text(id as int) + url_v(f).skip(1)
        }),
{
    reveal_strlit("/?page=");
    reveal_strlit("/?");
    reveal_strlit("?page=");
    reveal_strlit("page");
    reveal_strlit("search");
    reveal_strlit("stav");
    reveal_strlit("zeme");
    reveal_strlit("kontaktovane");
    reveal_strlit("smluvene");
    let q = url_v(f).skip(2);
    lemma_cteni_odkazu(f, "page"@);
    lemma_cteni_odkazu(f, "search"@);
    lemma_cteni_odkazu(f, "stav"@);
    lemma_cteni_odkazu(f, "zeme"@);
    assert("page"@ != "zeme"@ && "page"@ != "stav"@ && "page"@ != "search"@) by {
        assert("page"@[0] != "zeme"@[0] && "page"@[0] != "stav"@[0]);
        assert("page"@[0] != "search"@[0]);
    }
    assert("search"@ != "zeme"@ && "search"@ != "stav"@) by {
        assert("search"@[0] != "zeme"@[0] && "search"@[1] != "stav"@[1]);
    }
    assert("stav"@ != "zeme"@) by {
        assert("stav"@[0] != "zeme"@[0]);
    }
    cislo_se_cte_zpet(f.page);
    assert(hodnota_v_dotazu(q, "page"@) == Some(cislo_text(f.page as int)));
    assert(stranka_z(hodnota_v_dotazu(q, "page"@)) == f.page);
    assert(url_v(f).take(2) =~= "/?"@);
    assert(url_detailu_v(f, id) =~= "/provozovna/"@ + cislo_text(id as int) + url_v(f).skip(1));
    if f.search.len() == 0 {
        assert(f.search =~= Seq::<char>::empty());
    }
    if f.stav.len() == 0 {
        assert(f.stav =~= Seq::<char>::empty());
    }
    assert(stav_z(hodnota_v_dotazu(q, "stav"@)) == f.stav);
    if f.zeme.len() == 2 {
        assert(!je_bily(f.zeme[0]));
        assert(f.zeme.drop_first().drop_first() =~= Seq::<char>::empty());
        assert(orez_zleva(f.zeme) == f.zeme);
        assert(orez_zprava(f.zeme.drop_last()) == f.zeme.drop_last());
        assert(orez_zprava(f.zeme) == f.zeme);
    } else {
        assert(f.zeme =~= Seq::<char>::empty());
    }
    assert(zeme_z(hodnota_v_dotazu(q, "zeme"@)) == f.zeme);
}

/// The pair that a filter value gives to a link: none for an empty value.
pub open spec fn par_filtru(klic: Seq<char>, hodnota: Seq<char>) -> Seq<(Seq<char>, Seq<char>)> {
    if hodnota.len() == 0 {
        Seq::empty()
    } else {
        seq![(klic, hodnota)]
    }
}

/// One `&key=value` part of a link followed by the rest, read as pairs.
proof fn lemma_pary_casti_odkazu(k: Seq<char>, v: Seq<char>, r: Seq<char>)
    requires
        cisty_klic(k),
        za_casti(r),
    ensures
        pary_dotazu(cast_dotazu(seq!['&'] + k + seq!['='], v) + r) == par_filtru(k, v)
            + pary_dotazu(r),
{
    let c = cast_dotazu(seq!['&'] + k + seq!['='], v);
    if v.len() == 0 {
        assert(c + r =~= r);
        assert(par_filtru(k, v) + pary_dotazu(r) =~= pary_dotazu(r));
    } else {
        let e = enkoduj_bajty(encode_utf8(v));
        let a = k + seq!['='] + e;
        lemma_precti_enkodovane(v);
        assert((c + r).skip(1) =~= a + r);
        assert(bez_znaku(a, '&')) by {
            assert forall|i: int| 0 <= i < a.len() implies #[trigger] a[i] != '&' by {
                if i < k.len() {
                    assert(a[i] == k[i]);
                } else if i > k.len() {
                    assert(a[i] == e[i - k.len() - 1]);
                }
            }
        }
        lemma_pary_za(c + r);
        lemma_pary_prvni(a, r);
        lemma_klic_a_hodnota(k, e);
        lemma_precti_cisty(k);
        if r.len() == 0 {
            lemma_pary_prazdne();
            assert(r =~= Seq::<char>::empty());
        } else {
            lemma_pary_za(r);
        }
    }
}

/// The filter part of every link carries exactly the filter: it is empty when no
/// filter is set and otherwise starts with `&`, and read as a query it gives the pairs
/// `search`, `stav` and `zeme` of the filters that are set, in this order.
pub proof fn suffix_nese_filtr(f: FiltryV)
    ensures
        suffix_v(f).len() == 0 <==> (f.search.len() == 0 && f.stav.len() == 0 && f.zeme.len()
            == 0),
        za_casti(suffix_v(f)),
        pary_dotazu(suffix_v(f)) == par_filtru("search"@, f.search) + par_filtru("stav"@, f.stav)
            + par_filtru("zeme"@, f.zeme),
{
    reveal_strlit("search");
    reveal_strlit("stav");
    reveal_strlit("zeme");
    reveal_strlit("&search=");
    reveal_strlit("&stav=");
    reveal_strlit("&zeme=");
    let s1 = cast_dotazu("&search="@, f.search);
    let s2 = cast_dotazu("&stav="@, f.stav);
    let s3 = cast_dotazu("&zeme="@, f.zeme);
    assert("&search="@ =~= seq!['&'] + "search"@ + seq!['=']);
    assert("&stav="@ =~= seq!['&'] + "stav"@ + seq!['=']);
    assert("&zeme="@ =~= seq!['&'] + "zeme"@ + seq!['=']);
    let e: Seq<char> = Seq::empty();
    lemma_pary_prazdne();
    assert(s3 + e =~= s3);
    lemma_pary_casti_odkazu("zeme"@, f.zeme, e);
    lemma_pary_casti_odkazu("stav"@, f.stav, s3);
    assert(za_casti(s2 + s3));
    lemma_pary_casti_odkazu("search"@, f.search, s2 + s3);
    assert(s1 + (s2 + s3) =~= suffix_v(f));
    assert(par_filtru("zeme"@, f.zeme) + Seq::<(Seq<char>, Seq<char>)>::empty() =~= par_filtru(
        "zeme"@,
        f.zeme,
    ));
    assert(par_filtru("search"@, f.search) + (par_filtru("stav"@, f.stav) + par_filtru(
        "zeme"@,
        f.zeme,
    )) =~= par_filtru("search"@, f.search) + par_filtru("stav"@, f.stav) + par_filtru(
        "zeme"@,
        f.zeme,
    ));
}

/// No control character anywhere in `s`.
pub open spec fn bez_ridicich(s: Seq<char>) -> bool {
    forall|i: int| 0 <= i < s.len() ==> !je_ridici(#[trigger] s[i])
}

proof fn lemma_bez_ridicich_spojeni(a: Seq<char>, b: Seq<char>)
    requires
        bez_ridicich(a),
        bez_ridicich(b),
    ensures
        bez_ridicich(a + b),
{
    assert forall|i: int| 0 <= i < (a + b).len() implies !je_ridici(#[trigger] (a + b)[i]) by {
        if i < a.len() {
            assert((a + b)[i] == a[i]);
        } else {
            assert((a + b)[i] == b[i - a.len()]);
        }
    }
}

proof fn lemma_cislo_bez_ridicich(n: int)
    ensures
        bez_ridicich(cislo_text(n)),
{
    if n < 0 {
        dekadicky_se_cte_zpet((-n) as nat);
        let d = dekadicky((-n) as nat);
        assert forall|i: int| 0 <= i < d.len() implies !je_ridici(#[trigger] d[i]) by {
            assert(je_cifra(d[i]));
        }
        assert(bez_ridicich(seq!['-']));
        lemma_bez_ridicich_spojeni(seq!['-'], d);
    } else {
        dekadicky_se_cte_zpet(n as nat);
        let d = dekadicky(n as nat);
        assert forall|i: int| 0 <= i < d.len() implies !je_ridici(#[trigger] d[i]) by {
            assert(je_cifra(d[i]));
        }
    }
}

proof fn lemma_cast_bez_ridicich(k: Seq<char>, v: Seq<char>)
    requires
        bez_ridicich(k),
    ensures
        bez_ridicich(cast_dotazu(k, v)),
{
    if v.len() > 0 {
        let e = enkoduj_bajty(encode_utf8(v));
        kodovani_pise_jen_bezpecne_znaky(encode_utf8(v));
        assert forall|i: int| 0 <= i < e.len() implies !je_ridici(#[trigger] e[i]) by {
            assert(smi_v_kodovani(e[i]));

        }
        lemma_bez_ridicich_spojeni(k, e);
    } else {
        assert(cast_dotazu(k, v) =~= Seq::<char>::empty());
    }
}

proof fn lemma_suffix_bez_ridicich(f: FiltryV)
    ensures
        bez_ridicich(suffix_v(f)),
{
    reveal_strlit("&search=");
    reveal_strlit("&stav=");
    reveal_strlit("&zeme=");
    assert(bez_ridicich("&search="@));
    assert(bez_ridicich("&stav="@));
    assert(bez_ridicich("&zeme="@));
    lemma_cast_bez_ridicich("&search="@, f.search);
    lemma_cast_bez_ridicich("&stav="@, f.stav);
    lemma_cast_bez_ridicich("&zeme="@, f.zeme);
    lemma_bez_ridicich_spojeni(cast_dotazu("&search="@, f.search), cast_dotazu("&stav="@, f.stav));
    lemma_bez_ridicich_spojeni(
        cast_dotazu("&search="@, f.search) + cast_dotazu("&stav="@, f.stav),
        cast_dotazu("&zeme="@, f.zeme),
    );
}

/// Every link to the listing or to a detail that the library builds passes
/// `bezpecny_navrat` unchanged, so it can serve as the way back after an action.
pub proof fn odkazy_projdou_navratem(f: FiltryV, id: i32)
    ensures
        navrat_z(Some(url_v(f))) == url_v(f),
        navrat_z(Some(url_detailu_v(f, id))) == url_detailu_v(f, id),
{
    reveal_strlit("/?page=");
    reveal_strlit("/provozovna/");
    reveal_strlit("?page=");
    assert(bez_ridicich("/?page="@));
    assert(bez_ridicich("/provozovna/"@));
    assert(bez_ridicich("?page="@));
    lemma_cislo_bez_ridicich(f.page as int);
    lemma_cislo_bez_ridicich(id as int);
    lemma_suffix_bez_ridicich(f);
    let n = cislo_text(f.page as int);
    let s = suffix_v(f);
    lemma_bez_ridicich_spojeni("/?page="@, n);
    lemma_bez_ridicich_spojeni("/?page="@ + n, s);
    let d = cislo_text(id as int);
    lemma_bez_ridicich_spojeni("/provozovna/"@, d);
    lemma_bez_ridicich_spojeni("/provozovna/"@ + d, "?page="@);
    lemma_bez_ridicich_spojeni("/provozovna/"@ + d + "?page="@, n);
    lemma_bez_ridicich_spojeni("/provozovna/"@ + d + "?page="@ + n, s);
    let u = url_v(f);
    assert(u[0] == '/' && u[1] == '?');
    let v = url_detailu_v(f, id);
    assert(v[0] == '/' && v[1] == 'p');
}

/// A target path that may be used for a redirect: it starts with a single `/`, not
/// `//` nor `/\`, and holds no control character.
pub open spec fn vypada_relativne(c: Seq<char>) -> bool {
    &&& c.len() >= 1
    &&& c[0] == '/'
    &&& !(c.len() >= 2 && c[1] == '/')
    &&& !(c.len() >= 2 && c[1] == '\\')
    &&& forall|i: int| 0 <= i < c.len() ==> !je_ridici(#[trigger] c[i])
}

pub open spec fn navrat_z(zpet: Option<Seq<char>>) -> Seq<char> {
    match zpet {
        Some(c) => if vypada_relativne(c) {
            c
        } else {
            "/"@
        },
        None => "/"@,
    }
}

/// Where to go after a server action. It comes from a form, so it is checked: it must
/// be a relative path on this site, neither a foreign address nor a header broken by
/// a line break.
pub fn bezpecny_navrat(zpet: Option<&str>) -> (res: String)
    ensures
        res@ == navrat_z(
            match zpet {
                Some(c) => Some(c@),
                None => None,
            },
        ),
        vypada_relativne(res@),
{
    proof {
        reveal_strlit("/");
    }
    let vychozi = text("/");
    let cil = match zpet {
        Some(c) => c,
        None => {
            return vychozi;
        },
    };
    let z = znaky(cil);
    let n = z.len();
    if n == 0 || z[0] != '/' || (n >= 2 && (z[1] == '/' || z[1] == '\\')) {
        return vychozi;
    }
    let mut i: usize = 0;
    while i < n
        invariant
            z@ == cil@,
            n == z@.len(),
            i <= n,
            vychozi@ == "/"@,
            vypada_relativne(vychozi@),
            zpet == Some(cil),
            n >= 1,
            z@[0] == '/',
            !(n >= 2 && (z@[1] == '/' || z@[1] == '\\')),
            forall|k: int| 0 <= k < i ==> !je_ridici(#[trigger] z@[k]),
        decreases n - i,
    {
        if ridici_znak(z[i]) {
            assert(!vypada_relativne(cil@));
            return vychozi;
        }
        i = i + 1;
    }
    text(cil)
}

// ───────────── Paging ─────────────

/// Rows on one page of the listing.
pub const NA_STRANKU: i64 = 10;

/// Integer division that rounds toward zero, as `/` on `i64` does.
pub open spec fn deleni_k_nule(a: int, b: int) -> int {
    if a >= 0 {
        a / b
    } else {
        -((-a) / b)
    }
}

/// The SQL offset of a page.
pub fn posun(page: i64) -> (res: i64)
    requires
        i64::MIN <= (page - 1) * NA_STRANKU <= i64::MAX,
    ensures
        res == (page - 1) * NA_STRANKU,
{
    (page - 1) * NA_STRANKU
}

/// The number of pages for `total` rows.
pub fn pocet_stranek(total: i64) -> (res: i64)
    requires
        total + NA_STRANKU - 1 <= i64::MAX,
    ensures
        res == deleni_k_nule(total + NA_STRANKU - 1, NA_STRANKU as int),
{
    let a = total + (NA_STRANKU - 1);
    if a >= 0 {
        a / NA_STRANKU
    } else {
        0 - ((0 - a) / NA_STRANKU)
    }
}

/// The pages hold all rows, and the last page is not empty.
pub proof fn stranky_pokryvaji_radky(total: i64)
    requires
        0 <= total,
        total + NA_STRANKU - 1 <= i64::MAX,
    ensures
        ({
            let p = deleni_k_nule(total + NA_STRANKU - 1, NA_STRANKU as int);
            &&& total <= p * NA_STRANKU
            &&& total == 0 || (p - 1) * NA_STRANKU < total
        }),
{
}

/// The ILIKE pattern for a city: `%city%`. No city means no filter, so the pattern is
/// then empty, which the listing query reads as "any row", those without a city too.
pub fn vzor_hledani(search: &str) -> (res: String)
    ensures
        res@ == if search@.len() == 0 {
            Seq::<char>::empty()
        } else {
            seq!['%'] + search@ + seq!['%']
        },
{
    if search.is_empty() {
        return String::new();
    }
    let mut s = String::new();
    pridej_znak(&mut s, '%');
    pripoj(&mut s, search);
    pridej_znak(&mut s, '%');
    assert(s@ =~= seq!['%'] + search@ + seq!['%']);
    s
}

/// The listing query up to its `WHERE`: the places with their e-mails.
pub open spec fn hlava_vypisu() -> Seq<char> {
    "
    SELECT
        p.id, p.place_id, p.nazev, p.telefon, p.telefon_raw, p.web, p.adresa, p.mesto,
        p.psc, p.hodnoceni, p.pocet_recenzi, p.url, p.country_code,
        p.created_at, p.updated_at,
        array_remove(array_agg(e.email), NULL) AS emaily,
        p.is_contacted, p.is_closed, p.poznamka
    FROM provozovny p
    LEFT JOIN provozovny_emaily e ON e.provozovna_id = p.id
    WHERE "@
}

/// The listing query after its condition: one row per place, the most recently
/// changed first, `$1` rows from offset `$2`.
pub open spec fn konec_vypisu() -> Seq<char> {
    "
    GROUP BY p.id
    ORDER BY p.updated_at DESC
    LIMIT $1 OFFSET $2
"@
}

/// The listing query: its filters are those of `podminka_filtru` over `$3`, `$4`, `$5`.
pub open spec fn sql_vypisu() -> Seq<char> {
    hlava_vypisu() + text_podminek(podminka_filtru(3, 4, 5), "p."@) + konec_vypisu()
}

/// The listing query: a page of places (`$1` rows from offset `$2`) with their e-mails,
/// those matching the city pattern of `vzor_hledani` (`$3`, empty = any), the state
/// filter (`$4`) and the country (`$5`), the most recently changed first.
pub fn dotaz_vypisu() -> (res: &'static str)
    ensures
        res@ == sql_vypisu(),
{
    proof {
        reveal_strlit("
    SELECT
        p.id, p.place_id, p.nazev, p.telefon, p.telefon_raw, p.web, p.adresa, p.mesto,
        p.psc, p.hodnoceni, p.pocet_recenzi, p.url, p.country_code,
        p.created_at, p.updated_at,
        array_remove(array_agg(e.email), NULL) AS emaily,
        p.is_contacted, p.is_closed, p.poznamka
    FROM provozovny p
    LEFT JOIN provozovny_emaily e ON e.provozovna_id = p.id
    WHERE ");
        reveal_strlit("
    GROUP BY p.id
    ORDER BY p.updated_at DESC
    LIMIT $1 OFFSET $2
");
        reveal_strlit("
    SELECT
        p.id, p.place_id, p.nazev, p.telefon, p.telefon_raw, p.web, p.adresa, p.mesto,
        p.psc, p.hodnoceni, p.pocet_recenzi, p.url, p.country_code,
        p.created_at, p.updated_at,
        array_remove(array_agg(e.email), NULL) AS emaily,
        p.is_contacted, p.is_closed, p.poznamka
    FROM provozovny p
    LEFT JOIN provozovny_emaily e ON e.provozovna_id = p.id
    WHERE ($3 = '' OR p.mesto ILIKE $3)\n      AND ($4 = '' OR (($4 = 'kontaktovane' AND p.is_contacted) OR ($4 = 'smluvene' AND p.is_closed)))\n      AND ($5 = '' OR p.country_code = $5)
    GROUP BY p.id
    ORDER BY p.updated_at DESC
    LIMIT $1 OFFSET $2
");
        text_filtru_vypisu();
        reveal_strlit("($3 = '' OR p.mesto ILIKE $3)\n      AND ($4 = '' OR (($4 = 'kontaktovane' AND p.is_contacted) OR ($4 = 'smluvene' AND p.is_closed)))\n      AND ($5 = '' OR p.country_code = $5)");
        assert("
    SELECT
        p.id, p.place_id, p.nazev, p.telefon, p.telefon_raw, p.web, p.adresa, p.mesto,
        p.psc, p.hodnoceni, p.pocet_recenzi, p.url, p.country_code,
        p.created_at, p.updated_at,
        array_remove(array_agg(e.email), NULL) AS emaily,
        p.is_contacted, p.is_closed, p.poznamka
    FROM provozovny p
    LEFT JOIN provozovny_emaily e ON e.provozovna_id = p.id
    WHERE ($3 = '' OR p.mesto ILIKE $3)\n      AND ($4 = '' OR (($4 = 'kontaktovane' AND p.is_contacted) OR ($4 = 'smluvene' AND p.is_closed)))\n      AND ($5 = '' OR p.country_code = $5)
    GROUP BY p.id
    ORDER BY p.updated_at DESC
    LIMIT $1 OFFSET $2
"@ =~= sql_vypisu());
    }
    "
    SELECT
        p.id, p.place_id, p.nazev, p.telefon, p.telefon_raw, p.web, p.adresa, p.mesto,
        p.psc, p.hodnoceni, p.pocet_recenzi, p.url, p.country_code,
        p.created_at, p.updated_at,
        array_remove(array_agg(e.email), NULL) AS emaily,
        p.is_contacted, p.is_closed, p.poznamka
    FROM provozovny p
    LEFT JOIN provozovny_emaily e ON e.provozovna_id = p.id
    WHERE ($3 = '' OR p.mesto ILIKE $3)\n      AND ($4 = '' OR (($4 = 'kontaktovane' AND p.is_contacted) OR ($4 = 'smluvene' AND p.is_closed)))\n      AND ($5 = '' OR p.country_code = $5)
    GROUP BY p.id
    ORDER BY p.updated_at DESC
    LIMIT $1 OFFSET $2
"
}

/// The count query up to its `WHERE`.
pub open spec fn hlava_poctu() -> Seq<char> {
    "
    SELECT COUNT(*) FROM provozovny
    WHERE "@
}

/// The count query: the places that pass `podminka_filtru` over `$1`, `$2`, `$3`.
pub open spec fn sql_poctu() -> Seq<char> {
    hlava_poctu() + text_podminek(podminka_filtru(1, 2, 3), ""@) + "
"@
}

/// The number of places that the listing query pages through: the same filters, city
/// pattern `$1`, state `$2`, country `$3`.
pub fn dotaz_poctu() -> (res: &'static str)
    ensures
        res@ == sql_poctu(),
{
    proof {
        reveal_strlit("
    SELECT COUNT(*) FROM provozovny
    WHERE ");
        reveal_strlit("
");
        reveal_strlit("
    SELECT COUNT(*) FROM provozovny
    WHERE ($1 = '' OR mesto ILIKE $1)\n      AND ($2 = '' OR (($2 = 'kontaktovane' AND is_contacted) OR ($2 = 'smluvene' AND is_closed)))\n      AND ($3 = '' OR country_code = $3)
");
        text_filtru_poctu();
        reveal_strlit("($1 = '' OR mesto ILIKE $1)\n      AND ($2 = '' OR (($2 = 'kontaktovane' AND is_contacted) OR ($2 = 'smluvene' AND is_closed)))\n      AND ($3 = '' OR country_code = $3)");
        assert("
    SELECT COUNT(*) FROM provozovny
    WHERE ($1 = '' OR mesto ILIKE $1)\n      AND ($2 = '' OR (($2 = 'kontaktovane' AND is_contacted) OR ($2 = 'smluvene' AND is_closed)))\n      AND ($3 = '' OR country_code = $3)
"@ =~= sql_poctu());
    }
    "
    SELECT COUNT(*) FROM provozovny
    WHERE ($1 = '' OR mesto ILIKE $1)\n      AND ($2 = '' OR (($2 = 'kontaktovane' AND is_contacted) OR ($2 = 'smluvene' AND is_closed)))\n      AND ($3 = '' OR country_code = $3)
"
}

/// The listing query keeps the rows of `provozovny` that match the filter: for the
/// parameters (limit, offset, city pattern, state, country), a row passes its `WHERE`
/// exactly when its city matches the pattern (an empty pattern: any row), it is
/// contacted for the state `kontaktovane` and contracted for `smluvene` (an empty
/// state: any row), and its country is the one given (empty: any row).
pub proof fn vypis_filtruje(
    parametry: Seq<Seq<char>>,
    r: RadekV,
    ilike: spec_fn(Seq<char>, Seq<char>) -> bool,
)
    requires
        parametry.len() == 5,
    ensures
        sql_vypisu() == hlava_vypisu() + text_podminek(podminka_filtru(3, 4, 5), "p."@)
            + konec_vypisu(),
        plati_vse(podminka_filtru(3, 4, 5), parametry, r, ilike) == ({
            &&& parametry[2].len() == 0 || (r.mesto is Some && ilike(r.mesto->0, parametry[2]))
            &&& parametry[3].len() == 0 || (parametry[3] == "kontaktovane"@ && r.kontaktovano)
                || (parametry[3] == "smluvene"@ && r.smluveno)
            &&& parametry[4].len() == 0 || r.zeme == Some(parametry[4])
        }),
{
    filtry_propousti(3, 4, 5, parametry, r, ilike);
}

/// The count query counts exactly the rows that the listing query pages through: for
/// the city pattern, state and country, a row passes the count's `WHERE` exactly when
/// it passes the listing's, whatever the limit and offset, and that is when it matches
/// the filter.
pub proof fn pocet_filtruje_jako_vypis(
    vzor: Seq<char>,
    stav: Seq<char>,
    zeme: Seq<char>,
    limit: Seq<char>,
    posun: Seq<char>,
    r: RadekV,
    ilike: spec_fn(Seq<char>, Seq<char>) -> bool,
)
    ensures
        sql_poctu() == hlava_poctu() + text_podminek(podminka_filtru(1, 2, 3), ""@) + "
"@,
        plati_vse(podminka_filtru(1, 2, 3), seq![vzor, stav, zeme], r, ilike) == plati_vse(
            podminka_filtru(3, 4, 5),
            seq![limit, posun, vzor, stav, zeme],
            r,
            ilike,
        ),
        plati_vse(podminka_filtru(1, 2, 3), seq![vzor, stav, zeme], r, ilike) == ({
            &&& vzor.len() == 0 || (r.mesto is Some && ilike(r.mesto->0, vzor))
            &&& stav.len() == 0 || (stav == "kontaktovane"@ && r.kontaktovano) || (stav
                == "smluvene"@ && r.smluveno)
            &&& zeme.len() == 0 || r.zeme == Some(zeme)
        }),
{
    filtry_propousti(1, 2, 3, seq![vzor, stav, zeme], r, ilike);
    filtry_propousti(3, 4, 5, seq![limit, posun, vzor, stav, zeme], r, ilike);
}

// ───────────── Pills ─────────────

pub struct PilulkaV {
    pub popisek: Seq<char>,
    pub url: Seq<char>,
    pub aktivni: bool,
}

/// A filter pill (city, state or country) ready for the template.
#[derive(Debug)]
pub struct Pilulka {
    pub popisek: String,
    pub url: String,
    pub aktivni: bool,
}

impl View for Pilulka {
    type V = PilulkaV;

    open spec fn view(&self) -> PilulkaV {
        PilulkaV { popisek: self.popisek@, url: self.url@, aktivni: self.aktivni }
    }
}

pub open spec fn texty(v: Seq<String>) -> Seq<Seq<char>> {
    v.map_values(|s: String| s@)
}

/// The country pills: "Vše", then one per country.
pub fn pilulky_zemi(filtry: &Filtry, zeme: &Vec<String>) -> (res: Vec<Pilulka>)
    ensures
        res@.len() == zeme@.len() + 1,
        res@[0]@ == (PilulkaV {
            popisek: "Vše"@,
            url: url_v(FiltryV { page: 1, search: Seq::empty(), zeme: Seq::empty(), ..filtry@ }),
            aktivni: filtry.zeme@.len() == 0,
        }),
        forall|i: int|
            0 <= i < zeme@.len() ==> (#[trigger] res@[i + 1])@ == (PilulkaV {
                popisek: zeme@[i]@,
                url: url_v(FiltryV { page: 1, search: Seq::empty(), zeme: zeme@[i]@, ..filtry@ }),
                aktivni: filtry.zeme@ == zeme@[i]@,
            }),
{
    let mut res: Vec<Pilulka> = Vec::new();
    let vse = filtry.se_zemi("");
    proof {
        reveal_strlit("");
    }
    res.push(Pilulka { popisek: text("Vše"), url: vse.url(), aktivni: filtry.zeme.as_str().is_empty() });
    let n = zeme.len();
    let mut i: usize = 0;
    while i < n
        invariant
            n == zeme@.len(),
            i <= n,
            res@.len() == i + 1,
            res@[0]@ == (PilulkaV {
                popisek: "Vše"@,
                url: url_v(FiltryV { page: 1, search: Seq::empty(), zeme: Seq::empty(), ..filtry@ }),
                aktivni: filtry.zeme@.len() == 0,
            }),
            forall|k: int|
                0 <= k < i ==> (#[trigger] res@[k + 1])@ == (PilulkaV {
                    popisek: zeme@[k]@,
                    url: url_v(FiltryV { page: 1, search: Seq::empty(), zeme: zeme@[k]@, ..filtry@ }),
                    aktivni: filtry.zeme@ == zeme@[k]@,
                }),
        decreases n - i,
    {
        let z = &zeme[i];
        let f = filtry.se_zemi(z.as_str());
        res.push(
            Pilulka {
                popisek: z.clone(),
                url: f.url(),
                aktivni: stejne(filtry.zeme.as_str(), z.as_str()),
            },
        );
        i = i + 1;
    }
    res
}

/// The city pills: "Vše", then one per city.
pub fn pilulky_mest(filtry: &Filtry, mesta: &Vec<String>) -> (res: Vec<Pilulka>)
    ensures
        res@.len() == mesta@.len() + 1,
        res@[0]@ == (PilulkaV {
            popisek: "Vše"@,
            url: url_v(FiltryV { page: 1, search: Seq::empty(), ..filtry@ }),
            aktivni: filtry.search@.len() == 0,
        }),
        forall|i: int|
            0 <= i < mesta@.len() ==> (#[trigger] res@[i + 1])@ == (PilulkaV {
                popisek: mesta@[i]@,
                url: url_v(FiltryV { page: 1, search: mesta@[i]@, ..filtry@ }),
                aktivni: filtry.search@ == mesta@[i]@,
            }),
{
    let mut res: Vec<Pilulka> = Vec::new();
    let vse = filtry.s_mestem("");
    proof {
        reveal_strlit("");
    }
    res.push(
        Pilulka { popisek: text("Vše"), url: vse.url(), aktivni: filtry.search.as_str().is_empty() },
    );
    let n = mesta.len();
    let mut i: usize = 0;
    while i < n
        invariant
            n == mesta@.len(),
            i <= n,
            res@.len() == i + 1,
            res@[0]@ == (PilulkaV {
                popisek: "Vše"@,
                url: url_v(FiltryV { page: 1, search: Seq::empty(), ..filtry@ }),
                aktivni: filtry.search@.len() == 0,
            }),
            forall|k: int|
                0 <= k < i ==> (#[trigger] res@[k + 1])@ == (PilulkaV {
                    popisek: mesta@[k]@,
                    url: url_v(FiltryV { page: 1, search: mesta@[k]@, ..filtry@ }),
                    aktivni: filtry.search@ == mesta@[k]@,
                }),
        decreases n - i,
    {
        let m = &mesta[i];
        let f = filtry.s_mestem(m.as_str());
        res.push(
            Pilulka {
                popisek: m.clone(),
                url: f.url(),
                aktivni: stejne(filtry.search.as_str(), m.as_str()),
            },
        );
        i = i + 1;
    }
    res
}

/// The state pills: all states, contacted, contracted.
pub fn pilulky_stavu(filtry: &Filtry) -> (res: Vec<Pilulka>)
    ensures
        res@.len() == 3,
        res@[0]@ == (PilulkaV {
            popisek: "Všechny stavy"@,
            url: url_v(FiltryV { page: 1, stav: ""@, ..filtry@ }),
            aktivni: filtry.stav@ == ""@,
        }),
        res@[1]@ == (PilulkaV {
            popisek: "Kontaktované"@,
            url: url_v(FiltryV { page: 1, stav: "kontaktovane"@, ..filtry@ }),
            aktivni: filtry.stav@ == "kontaktovane"@,
        }),
        res@[2]@ == (PilulkaV {
            popisek: "Smluvené"@,
            url: url_v(FiltryV { page: 1, stav: "smluvene"@, ..filtry@ }),
            aktivni: filtry.stav@ == "smluvene"@,
        }),
{
    let mut res: Vec<Pilulka> = Vec::new();
    let f0 = filtry.se_stavem("");
    res.push(
        Pilulka {
            popisek: text("Všechny stavy"),
            url: f0.url(),
            aktivni: stejne(filtry.stav.as_str(), ""),
        },
    );
    let f1 = filtry.se_stavem("kontaktovane");
    res.push(
        Pilulka {
            popisek: text("Kontaktované"),
            url: f1.url(),
            aktivni: stejne(filtry.stav.as_str(), "kontaktovane"),
        },
    );
    let f2 = filtry.se_stavem("smluvene");
    res.push(
        Pilulka {
            popisek: text("Smluvené"),
            url: f2.url(),
            aktivni: stejne(filtry.stav.as_str(), "smluvene"),
        },
    );
    res
}

} // verus!
