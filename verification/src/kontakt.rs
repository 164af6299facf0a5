//! The detail of one place: the forms that change it (state flags, note, phone and
//! e-mails) and the address of its map.
use std::collections::{HashMap, HashSet};
use vstd::prelude::*;
use vstd::utf8::encode_utf8;
use crate::filtry::texty;
use crate::kodovani::{enkoduj, enkoduj_bajty};
use crate::parametry::pole_v;
use crate::text::{
    bily_znak, cislo_i32, je_bily, mala_pismena, na_mala_pismena, orez, orizni, parsuj_i32,
    prvnich, pripoj, stejne, text, znaky,
};

verus! {

/// The body of the dropdown form in the table of places. `hodnota` is the new value of
/// the flag, not a toggle.
#[derive(Debug)]
pub struct StavForm {
    pub id: i32,
    pub hodnota: bool,
    /// Where to go back: the listing with its page and filters, or the detail.
    pub zpet: Option<String>,
}

/// The body of the note form of the detail.
#[derive(Debug)]
pub struct PoznamkaForm {
    pub id: i32,
    pub poznamka: String,
    pub zpet: Option<String>,
}

// ───────────── Note ─────────────

/// The longest note accepted, in characters; a longer text is almost surely a mistake.
pub const MAX_DELKA_POZNAMKY: usize = 50_000;

pub struct PravidlaHtmlV {
    pub tagy: Seq<Seq<char>>,
    pub atributy_tagu: Seq<(Seq<char>, Seq<Seq<char>>)>,
    pub schemata_url: Seq<Seq<char>>,
    pub rel_odkazu: Option<Seq<char>>,
}

/// What HTML a note may keep: the allowed tags, the allowed attributes per tag, the
/// allowed URL schemes, and the `rel` given to links.
#[derive(Debug)]
pub struct PravidlaHtml {
    pub tagy: Vec<String>,
    pub atributy_tagu: Vec<(String, Vec<String>)>,
    pub schemata_url: Vec<String>,
    pub rel_odkazu: Option<String>,
}

impl View for PravidlaHtml {
    type V = PravidlaHtmlV;

    open spec fn view(&self) -> PravidlaHtmlV {
        PravidlaHtmlV {
            tagy: texty(self.tagy@),
            atributy_tagu: self.atributy_tagu@.map_values(
                |p: (String, Vec<String>)| (p.0@, texty(p.1@)),
            ),
            schemata_url: texty(self.schemata_url@),
            rel_odkazu: match self.rel_odkazu {
                Some(r) => Some(r@),
                None => None,
            },
        }
    }
}

/// What `ammonia` makes of the HTML `vstup` under the rules `pravidla`.
pub uninterp spec fn ocistene_html(pravidla: PravidlaHtmlV, vstup: Seq<char>) -> Seq<char>;

/// Rules that `Builder::clean` accepts on a builder made from the default one:
/// `script` and `style`, whose content it removes, are neither allowed tags nor keys of
/// the allowed attributes, and with a `rel` for links no entry for `a` allows `rel`.
/// (On other rules `clean` panics.)
pub open spec fn pravidla_prijatelna(p: PravidlaHtmlV) -> bool {
    &&& !p.tagy.contains("script"@)
    &&& !p.tagy.contains("style"@)
    &&& forall|i: int|
        0 <= i < p.atributy_tagu.len() ==> (#[trigger] p.atributy_tagu[i]).0 != "script"@
            && p.atributy_tagu[i].0 != "style"@
    &&& p.rel_odkazu is Some ==> forall|i: int|
        0 <= i < p.atributy_tagu.len() && (#[trigger] p.atributy_tagu[i]).0 == "a"@
            ==> !p.atributy_tagu[i].1.contains("rel"@)
}

/// `ammonia::Builder::clean`, on a builder made from the default one with `tags`,
/// `tag_attributes`, `url_schemes` and `link_rel` set from the rules, then `Display`
/// of the cleaned document. The result is named `ocistene_html` of the rules and the
/// input; what ammonia keeps and escapes is not written out here.
#[verifier::external_body]
fn ocisti_html(pravidla: &PravidlaHtml, vstup: &str) -> (res: String)
    requires
        pravidla_prijatelna(pravidla@),
    ensures
        res@ == ocistene_html(pravidla@, vstup@),
{
    let tagy: HashSet<&str> = pravidla.tagy.iter().map(|t| t.as_str()).collect();
    let atributy: HashMap<&str, HashSet<&str>> = pravidla.atributy_tagu.iter().map(
        |(t, a)| (t.as_str(), a.iter().map(|x| x.as_str()).collect()),
    ).collect();
    let schemata: HashSet<&str> = pravidla.schemata_url.iter().map(|s| s.as_str()).collect();
    let mut b = ammonia::Builder::default();
    b.tags(tagy).tag_attributes(atributy).url_schemes(schemata).link_rel(
        pravidla.rel_odkazu.as_deref(),
    );
    b.clean(vstup).to_string()
}

pub open spec fn pravidla_poznamky_v() -> PravidlaHtmlV {
    PravidlaHtmlV {
        tagy: seq![
            "div"@,
            "br"@,
            "strong"@,
            "em"@,
            "del"@,
            "a"@,
            "h1"@,
            "blockquote"@,
            "pre"@,
            "ul"@,
            "ol"@,
            "li"@,
        ],
        atributy_tagu: seq![("a"@, seq!["href"@])],
        schemata_url: seq!["http"@, "https"@, "mailto"@, "tel"@],
        rel_odkazu: Some("noopener noreferrer nofollow"@),
    }
}

/// The rules for notes: simple formatting and links over http(s), mailto and tel,
/// which get `rel="noopener noreferrer nofollow"`.
pub fn pravidla_poznamky() -> (res: PravidlaHtml)
    ensures
        res@ == pravidla_poznamky_v(),
{
    let tagy = vec![
        text("div"),
        text("br"),
        text("strong"),
        text("em"),
        text("del"),
        text("a"),
        text("h1"),
        text("blockquote"),
        text("pre"),
        text("ul"),
        text("ol"),
        text("li"),
    ];
    let atributy = vec![(text("a"), vec![text("href")])];
    let schemata = vec![text("http"), text("https"), text("mailto"), text("tel")];
    let res = PravidlaHtml {
        tagy,
        atributy_tagu: atributy,
        schemata_url: schemata,
        rel_odkazu: Some(text("noopener noreferrer nofollow")),
    };
    assert(res@.tagy =~= pravidla_poznamky_v().tagy);
    assert(texty(res.atributy_tagu@[0].1@) =~= seq!["href"@]);
    assert(res@.atributy_tagu =~= pravidla_poznamky_v().atributy_tagu);
    assert(res@.schemata_url =~= pravidla_poznamky_v().schemata_url);
    res
}

proof fn lemma_pravidla_poznamky_prijatelna()
    ensures
        pravidla_prijatelna(pravidla_poznamky_v()),
{
    reveal_strlit("script");
    reveal_strlit("style");
    reveal_strlit("rel");
    reveal_strlit("href");
    reveal_strlit("a");
    reveal_strlit("div");
    reveal_strlit("br");
    reveal_strlit("strong");
    reveal_strlit("em");
    reveal_strlit("del");
    reveal_strlit("h1");
    reveal_strlit("blockquote");
    reveal_strlit("pre");
    reveal_strlit("ul");
    reveal_strlit("ol");
    reveal_strlit("li");
    let p = pravidla_poznamky_v();
    assert("strong"@ != "script"@) by {
        assert("strong"@[1] != "script"@[1]);
    }
    assert forall|i: int| 0 <= i < p.tagy.len() implies p.tagy[i] != "script"@ && p.tagy[i]
        != "style"@ by {
        if p.tagy[i] == "script"@ || p.tagy[i] == "style"@ {
            assert(p.tagy[i].len() == 5 || p.tagy[i].len() == 6);
        }
    }
    assert(!p.atributy_tagu[0].1.contains("rel"@)) by {
        assert(p.atributy_tagu[0].1[0] == "href"@);
        assert("href"@ != "rel"@);
    }
}

/// The rules of notes allow exactly the tags `div`, `br`, `strong`, `em`, `del`, `a`,
/// `h1`, `blockquote`, `pre`, `ul`, `ol` and `li`; of attributes only `href` on `a`;
/// links over `http`, `https`, `mailto` and `tel`, marked
/// `noopener noreferrer nofollow`.
pub proof fn pravidla_poznamky_povoluji(tag: Seq<char>)
    ensures
        pravidla_poznamky_v().tagy.contains(tag) <==> (tag == "div"@ || tag == "br"@ || tag
            == "strong"@ || tag == "em"@ || tag == "del"@ || tag == "a"@ || tag == "h1"@ || tag
            == "blockquote"@ || tag == "pre"@ || tag == "ul"@ || tag == "ol"@ || tag == "li"@),
        pravidla_poznamky_v().tagy.len() == 12,
        pravidla_poznamky_v().atributy_tagu.len() == 1,
        pravidla_poznamky_v().atributy_tagu[0].0 == "a"@,
        pravidla_poznamky_v().atributy_tagu[0].1 == seq!["href"@],
        pravidla_poznamky_v().schemata_url.contains(tag) <==> (tag == "http"@ || tag == "https"@
            || tag == "mailto"@ || tag == "tel"@),
        pravidla_poznamky_v().rel_odkazu == Some("noopener noreferrer nofollow"@),
{
    let p = pravidla_poznamky_v();
    if tag == "div"@ {
        assert(p.tagy[0] == tag);
    } else if tag == "br"@ {
        assert(p.tagy[1] == tag);
    } else if tag == "strong"@ {
        assert(p.tagy[2] == tag);
    } else if tag == "em"@ {
        assert(p.tagy[3] == tag);
    } else if tag == "del"@ {
        assert(p.tagy[4] == tag);
    } else if tag == "a"@ {
        assert(p.tagy[5] == tag);
    } else if tag == "h1"@ {
        assert(p.tagy[6] == tag);
    } else if tag == "blockquote"@ {
        assert(p.tagy[7] == tag);
    } else if tag == "pre"@ {
        assert(p.tagy[8] == tag);
    } else if tag == "ul"@ {
        assert(p.tagy[9] == tag);
    } else if tag == "ol"@ {
        assert(p.tagy[10] == tag);
    } else if tag == "li"@ {
        assert(p.tagy[11] == tag);
    }
    if tag == "http"@ {
        assert(p.schemata_url[0] == tag);
    } else if tag == "https"@ {
        assert(p.schemata_url[1] == tag);
    } else if tag == "mailto"@ {
        assert(p.schemata_url[2] == tag);
    } else if tag == "tel"@ {
        assert(p.schemata_url[3] == tag);
    }
}

/// The text of a note before cleaning: trimmed, then cut to the first 50 000 characters.
pub open spec fn surova_poznamka(s: Seq<char>) -> Seq<char> {
    let t = orez(s);
    t.take(
        if t.len() <= MAX_DELKA_POZNAMKY {
            t.len() as int
        } else {
            MAX_DELKA_POZNAMKY as int
        },
    )
}

/// The note as it is saved: trimmed, cut to the limit, and cleaned of any HTML that the
/// rules do not allow.
pub fn priprav_poznamku(poznamka: &str) -> (res: String)
    ensures
        res@ == ocistene_html(pravidla_poznamky_v(), surova_poznamka(poznamka@)),
{
    let surove = prvnich(orizni(poznamka), MAX_DELKA_POZNAMKY);
    let pravidla = pravidla_poznamky();
    proof {
        lemma_pravidla_poznamky_prijatelna();
    }
    ocisti_html(&pravidla, surove)
}

// ───────────── Phone and e-mails ─────────────

/// The most e-mails of one place; more is almost surely a mistake.
pub const MAX_EMAILU: usize = 20;

/// A rough check of the shape of an e-mail: an `@` that is neither first nor last, and
/// no whitespace. Unusual but valid addresses pass.
pub open spec fn vypada_jako_email(e: Seq<char>) -> bool {
    &&& e.contains('@')
    &&& !(e.len() > 0 && e[0] == '@')
    &&& !(e.len() > 0 && e.last() == '@')
    &&& forall|i: int| 0 <= i < e.len() ==> !je_bily(#[trigger] e[i])
}

pub struct FormularKontaktuV {
    pub id: Option<i32>,
    pub zpet: Option<Seq<char>>,
    pub telefon: Seq<char>,
    pub emaily: Seq<Seq<char>>,
}

/// The form of `POST /kontakt`: `email` comes once per address, so it is a list of
/// pairs. Empty fields are dropped; deleting an e-mail means clearing its input.
#[derive(Debug)]
pub struct FormularKontaktu {
    pub id: Option<i32>,
    pub zpet: Option<String>,
    pub telefon: String,
    pub emaily: Vec<String>,
}

impl View for FormularKontaktu {
    type V = FormularKontaktuV;

    open spec fn view(&self) -> FormularKontaktuV {
        FormularKontaktuV {
            id: self.id,
            zpet: match self.zpet {
                Some(z) => Some(z@),
                None => None,
            },
            telefon: self.telefon@,
            emaily: texty(self.emaily@),
        }
    }
}

pub open spec fn krok_kontaktu(s: FormularKontaktuV, klic: Seq<char>, hodnota: Seq<char>) -> FormularKontaktuV {
    if klic == "id"@ {
        FormularKontaktuV { id: cislo_i32(orez(hodnota)), ..s }
    } else if klic == "zpet"@ {
        FormularKontaktuV { zpet: Some(hodnota), ..s }
    } else if klic == "telefon"@ {
        FormularKontaktuV { telefon: orez(hodnota), ..s }
    } else if klic == "email"@ {
        let e = mala_pismena(orez(hodnota));
        if vypada_jako_email(e) && !s.emaily.contains(e) && s.emaily.len() < MAX_EMAILU {
            FormularKontaktuV { emaily: s.emaily.push(e), ..s }
        } else {
            s
        }
    } else {
        s
    }
}

/// An `email` field is kept exactly when its value, trimmed and lower-cased, holds an
/// `@` that is neither its first nor its last character and holds no whitespace, and
/// is not kept already and fewer than 20 are kept. Any other field leaves the e-mails
/// as they were.
pub proof fn email_se_zachova(s: FormularKontaktuV, klic: Seq<char>, hodnota: Seq<char>)
    ensures
        klic == "email"@ ==> krok_kontaktu(s, klic, hodnota).emaily == ({
            let e = mala_pismena(orez(hodnota));
            if (exists|i: int| 0 <= i < e.len() && e[i] == '@') && e[0] != '@' && e[e.len() - 1]
                != '@' && (forall|i: int| 0 <= i < e.len() ==> !je_bily(#[trigger] e[i]))
                && !s.emaily.contains(e) && s.emaily.len() < 20 {
                s.emaily.push(e)
            } else {
                s.emaily
            }
        }),
        klic != "email"@ ==> krok_kontaktu(s, klic, hodnota).emaily == s.emaily,
{
    reveal_strlit("email");
    reveal_strlit("id");
    reveal_strlit("zpet");
    reveal_strlit("telefon");
    assert("email"@ != "zpet"@) by {
        assert("email"@[0] != "zpet"@[0]);
    }
    let e = mala_pismena(orez(hodnota));
    if (exists|i: int| 0 <= i < e.len() && e[i] == '@') {
        let i = choose|i: int| 0 <= i < e.len() && e[i] == '@';
        assert(e.contains('@'));
    }
    if e.contains('@') {
        let i = choose|i: int| 0 <= i < e.len() && e[i] == '@';
        assert(0 <= i < e.len() && e[i] == '@');
    }
    let tvar = (exists|i: int| 0 <= i < e.len() && e[i] == '@') && e[0] != '@' && e[e.len() - 1]
        != '@' && (forall|i: int| 0 <= i < e.len() ==> !je_bily(#[trigger] e[i]));
    assert(vypada_jako_email(e) == tvar);
    if klic == "email"@ {
        assert(klic != "id"@) by {
            assert("email"@.len() != "id"@.len());
        }
        assert(klic != "telefon"@) by {
            assert("email"@.len() != "telefon"@.len());
        }
        assert(krok_kontaktu(s, klic, hodnota).emaily == if vypada_jako_email(e)
            && !s.emaily.contains(e) && s.emaily.len() < MAX_EMAILU {
            s.emaily.push(e)
        } else {
            s.emaily
        });
    }
}

pub open spec fn formular_kontaktu(pole: Seq<(Seq<char>, Seq<char>)>) -> FormularKontaktuV
    decreases pole.len(),
{
    if pole.len() == 0 {
        FormularKontaktuV { id: None, zpet: None, telefon: Seq::empty(), emaily: Seq::empty() }
    } else {
        let p = pole.last();
        krok_kontaktu(formular_kontaktu(pole.drop_last()), p.0, p.1)
    }
}

fn vypada_jako_email_text(e: &str) -> (res: bool)
    ensures
        res == vypada_jako_email(e@),
{
    let z = znaky(e);
    let n = z.len();
    if n == 0 || z[0] == '@' || z[n - 1] == '@' {
        return false;
    }
    let mut zavinac = false;
    let mut i: usize = 0;
    while i < n
        invariant
            z@ == e@,
            n == z@.len(),
            i <= n,
            zavinac == (exists|k: int| 0 <= k < i && z@[k] == '@'),
            forall|k: int| 0 <= k < i ==> !je_bily(#[trigger] z@[k]),
        decreases n - i,
    {
        if bily_znak(z[i]) {
            return false;
        }
        if z[i] == '@' {
            zavinac = true;
        }
        i = i + 1;
    }
    proof {
        if zavinac {
            let k = choose|k: int| 0 <= k < n && z@[k] == '@';
            assert(e@[k] == '@');
        } else {
            assert forall|k: int| 0 <= k < e@.len() implies e@[k] != '@' by {}
        }
    }
    zavinac
}

fn obsahuje_text(v: &Vec<String>, s: &str) -> (res: bool)
    ensures
        res == texty(v@).contains(s@),
{
    let n = v.len();
    let mut i: usize = 0;
    while i < n
        invariant
            n == v@.len(),
            i <= n,
            forall|k: int| 0 <= k < i ==> v@[k]@ != s@,
        decreases n - i,
    {
        if stejne(v[i].as_str(), s) {
            assert(texty(v@)[i as int] == s@);
            return true;
        }
        i = i + 1;
    }
    proof {
        if texty(v@).contains(s@) {
            let k = choose|k: int| 0 <= k < texty(v@).len() && texty(v@)[k] == s@;
            assert(v@[k]@ == s@);
        }
    }
    false
}

/// The e-mails of a contact form: each unique, of the shape of an e-mail, at most 20.
pub open spec fn platne_emaily(e: Seq<Seq<char>>) -> bool {
    &&& e.len() <= MAX_EMAILU
    &&& forall|i: int| 0 <= i < e.len() ==> vypada_jako_email(#[trigger] e[i])
    &&& forall|i: int, j: int| 0 <= i < j < e.len() ==> e[i] != e[j]
}

impl FormularKontaktu {
    pub fn z_pole(pole: &Vec<(String, String)>) -> (res: FormularKontaktu)
        ensures
            res@ == formular_kontaktu(pole_v(pole@)),
            platne_emaily(res@.emaily),
    {
        let mut f = FormularKontaktu { id: None, zpet: None, telefon: String::new(), emaily: Vec::new() };
        let n = pole.len();
        let mut i: usize = 0;
        assert(pole_v(pole@.take(0)) =~= Seq::<(Seq<char>, Seq<char>)>::empty());
        assert(texty(f.emaily@) =~= Seq::<Seq<char>>::empty());
        while i < n
            invariant
                n == pole@.len(),
                i <= n,
                f@ == formular_kontaktu(pole_v(pole@.take(i as int))),
                platne_emaily(f@.emaily),
            decreases n - i,
        {
            let (klic, hodnota) = &pole[i];
            assert(pole_v(pole@.take(i + 1)).drop_last() =~= pole_v(pole@.take(i as int)));
            assert(pole_v(pole@.take(i + 1)).last() == (klic@, hodnota@));
            let ghost pred = f@;
            let k = klic.as_str();
            if stejne(k, "id") {
                f.id = parsuj_i32(orizni(hodnota.as_str()));
            } else if stejne(k, "zpet") {
                f.zpet = Some(hodnota.clone());
            } else if stejne(k, "telefon") {
                f.telefon = text(orizni(hodnota.as_str()));
            } else if stejne(k, "email") {
                let e = na_mala_pismena(orizni(hodnota.as_str()));
                if vypada_jako_email_text(e.as_str()) && !obsahuje_text(&f.emaily, e.as_str())
                    && f.emaily.len() < MAX_EMAILU {
                    let ghost stare = f.emaily@;
                    f.emaily.push(e);
                    assert(f.emaily@.drop_last() =~= stare);
                    assert(texty(f.emaily@) =~= texty(stare).push(e@));
                }
            }
            assert(f@ == krok_kontaktu(pred, klic@, hodnota@));
            i = i + 1;
        }
        assert(pole@.take(n as int) =~= pole@);
        f
    }
}

/// The phone to save: an empty one is `NULL`, as with places from Apify without a phone.
pub fn telefon_k_ulozeni(telefon: String) -> (res: Option<String>)
    ensures
        match res {
            Some(t) => t@ == telefon@ && telefon@.len() > 0,
            None => telefon@.len() == 0,
        },
{
    if telefon.as_str().is_empty() {
        None
    } else {
        Some(telefon)
    }
}

// ───────────── Map ─────────────

pub open spec fn mapa_url_v(
    klic: Option<Seq<char>>,
    place_id: Seq<char>,
    nazev: Seq<char>,
    adresa: Option<Seq<char>>,
) -> Seq<char> {
    match klic {
        Some(k) => "https://www.google.com/maps/embed/v1/place?key="@ + enkoduj_bajty(
            encode_utf8(k),
        ) + "&q=place_id:"@ + enkoduj_bajty(encode_utf8(place_id)) + "&language=cs"@,
        None => {
            let dotaz = match adresa {
                Some(a) => if a.len() > 0 {
                    nazev + ", "@ + a
                } else {
                    nazev
                },
                None => nazev,
            };
            "https://maps.google.com/maps?q="@ + enkoduj_bajty(encode_utf8(dotaz))
                + "&z=15&hl=cs&output=embed"@
        },
    }
}

/// The address of the map `<iframe>` on the detail. With an Embed API key the map goes
/// by `place_id`; without one Google cannot show a `place_id` in an embed, so the map
/// is searched by the name and the address.
pub fn mapa_url(klic: Option<&str>, place_id: &str, nazev: &str, adresa: Option<&str>) -> (res:
    String)
    ensures
        res@ == mapa_url_v(
            match klic {
                Some(k) => Some(k@),
                None => None,
            },
            place_id@,
            nazev@,
            match adresa {
                Some(a) => Some(a@),
                None => None,
            },
        ),
{
    match klic {
        Some(k) => {
            let mut s = text("https://www.google.com/maps/embed/v1/place?key=");
            let ek = enkoduj(k);
            pripoj(&mut s, ek.as_str());
            pripoj(&mut s, "&q=place_id:");
            let ep = enkoduj(place_id);
            pripoj(&mut s, ep.as_str());
            pripoj(&mut s, "&language=cs");
            s
        },
        None => {
            let mut dotaz = text(nazev);
            match adresa {
                Some(a) => {
                    if !a.is_empty() {
                        pripoj(&mut dotaz, ", ");
                        pripoj(&mut dotaz, a);
                    }
                },
                None => {},
            }
            let mut s = text("https://maps.google.com/maps?q=");
            let ed = enkoduj(dotaz.as_str());
            pripoj(&mut s, ed.as_str());
            pripoj(&mut s, "&z=15&hl=cs&output=embed");
            s
        },
    }
}

} // verus!
