//! The scraper configuration (the row `id = 1` of `scraper_config`), the settings
//! form, and the decisions around saving it.
use std::collections::HashMap;
use vstd::prelude::*;
use crate::filtry::texty;
use crate::parametry::{hodnota_parametru, parametr, pole_v};
use crate::text::{cislo_i32, orez, orizni, parsuj_i32, stejne, text};

verus! {

/// How many search terms fit into `scraper_config` (columns `vyraz1..vyraz10`).
pub const MAX_VYRAZU: usize = 10;

/// The range of `max_kontaktu`. Zero would run the actor for nothing, the upper bound
/// stops a typo that would burn the Apify credit.
pub const MIN_KONTAKTU: i32 = 1;

pub const MAX_KONTAKTU: i32 = 50;

/// The number of places per search shown when nothing else is known.
pub const VYCHOZI_POCET_KONTAKTU: i32 = 30;

/// A longer location is not worth sending to Nominatim.
pub const MAX_DELKA_LOKACE: usize = 120;

/// The scraper configuration from the row `scraper_config` (id = 1).
#[derive(Debug)]
pub struct ScraperConfig {
    pub lokace: String,
    /// Only the non-empty search terms.
    pub vyrazy: Vec<String>,
    /// `maxCrawledPlacesPerSearch` for the Apify actor.
    pub max_kontaktu: i32,
    /// Switch of the daily cron job (checkbox in the settings).
    pub cron_enabled: bool,
}

pub open spec fn volitelne_texty(s: Seq<Option<String>>) -> Seq<Option<Seq<char>>> {
    s.map_values(
        |o: Option<String>|
            match o {
                Some(t) => Some(t@),
                None => None,
            },
    )
}

/// The search terms of the columns in order, without the missing ones and those that
/// are only whitespace (kept as they were, not trimmed).
pub open spec fn neprazdne_vyrazy(sloupce: Seq<Option<Seq<char>>>) -> Seq<Seq<char>>
    decreases sloupce.len(),
{
    if sloupce.len() == 0 {
        Seq::empty()
    } else {
        let r = neprazdne_vyrazy(sloupce.drop_last());
        match sloupce.last() {
            Some(v) => if orez(v).len() > 0 {
                r.push(v)
            } else {
                r
            },
            None => r,
        }
    }
}

fn klonuj_texty(v: &Vec<String>) -> (res: Vec<String>)
    ensures
        texty(res@) == texty(v@),
{
    let mut res: Vec<String> = Vec::new();
    let n = v.len();
    let mut i: usize = 0;
    while i < n
        invariant
            n == v@.len(),
            i <= n,
            texty(res@) == texty(v@.take(i as int)),
        decreases n - i,
    {
        res.push(v[i].clone());
        assert(texty(v@.take(i + 1)) =~= texty(v@.take(i as int)).push(v@[i as int]@));
        i = i + 1;
        assert(texty(res@) =~= texty(v@.take(i as int)));
    }
    assert(v@.take(n as int) =~= v@);
    res
}

impl ScraperConfig {
    /// The configuration from the values of one row: the location, the number of places,
    /// the cron switch and the ten search-term columns.
    pub fn z_radku(
        lokace: String,
        max_kontaktu: i32,
        cron_enabled: bool,
        sloupce: &Vec<Option<String>>,
    ) -> (res: ScraperConfig)
        ensures
            res.lokace == lokace,
            res.max_kontaktu == max_kontaktu,
            res.cron_enabled == cron_enabled,
            texty(res.vyrazy@) == neprazdne_vyrazy(volitelne_texty(sloupce@)),
    {
        let mut vyrazy: Vec<String> = Vec::new();
        let n = sloupce.len();
        let mut i: usize = 0;
        while i < n
            invariant
                n == sloupce@.len(),
                i <= n,
                texty(vyrazy@) == neprazdne_vyrazy(volitelne_texty(sloupce@.take(i as int))),
            decreases n - i,
        {
            assert(volitelne_texty(sloupce@.take(i + 1)).drop_last() =~= volitelne_texty(
                sloupce@.take(i as int),
            ));
            match &sloupce[i] {
                Some(v) => {
                    let t = orizni(v.as_str());
                    if !t.is_empty() {
                        vyrazy.push(v.clone());
                        assert(texty(vyrazy@) =~= texty(vyrazy@.drop_last()).push(v@));
                    }
                },
                None => {},
            }
            i = i + 1;
        }
        assert(sloupce@.take(n as int) =~= sloupce@);
        ScraperConfig { lokace, vyrazy, max_kontaktu, cron_enabled }
    }
}

/// Whether the daily cron should run the actor, from what the query for
/// `cron_enabled` returned (`Err` for a database error, `Ok(None)` for a missing row):
/// only an existing row with the switch on lets it run.
pub fn cron_povolen_podle(radek: Result<Option<bool>, ()>) -> (res: bool)
    ensures
        res == (radek == Ok::<Option<bool>, ()>(Some(true))),
{
    match radek {
        Ok(Some(povolen)) => povolen,
        Ok(None) => false,
        Err(_) => false,
    }
}

/// What the settings page shows.
#[derive(Debug)]
pub struct StrankaNastaveni {
    pub lokace: String,
    pub vyrazy: Vec<String>,
    pub max_kontaktu: i32,
    pub cron_enabled: bool,
    pub ulozeno: bool,
    pub chyba: String,
}

/// The search terms as the form shows them: at least one field, empty when there is
/// no term.
pub fn vyrazy_k_zobrazeni(vyrazy: &Vec<String>) -> (res: Vec<String>)
    ensures
        texty(res@) == if vyrazy@.len() == 0 {
            seq![Seq::<char>::empty()]
        } else {
            texty(vyrazy@)
        },
{
    let mut res = klonuj_texty(vyrazy);
    if res.len() == 0 {
        res.push(String::new());
        assert(texty(res@) =~= seq![Seq::<char>::empty()]);
    }
    res
}

/// The settings page for the loaded configuration (`None` when the row is missing or
/// the query failed: an empty form with defaults) and the query parameters
/// (`ulozeno` present after a save, `chyba` with an error code).
pub fn stranka_nastaveni(config: Option<ScraperConfig>, params: &HashMap<String, String>) -> (res:
    StrankaNastaveni)
    ensures
        match config {
            Some(c) => {
                &&& res.lokace == c.lokace
                &&& texty(res.vyrazy@) == if c.vyrazy@.len() == 0 {
                    seq![Seq::<char>::empty()]
                } else {
                    texty(c.vyrazy@)
                }
                &&& res.max_kontaktu == c.max_kontaktu
                &&& res.cron_enabled == c.cron_enabled
            },
            None => {
                &&& res.lokace@ == Seq::<char>::empty()
                &&& texty(res.vyrazy@) == seq![Seq::<char>::empty()]
                &&& res.max_kontaktu == VYCHOZI_POCET_KONTAKTU
                &&& res.cron_enabled
            },
        },
        res.ulozeno == hodnota_parametru(params@, "ulozeno"@) is Some,
        res.chyba@ == match hodnota_parametru(params@, "chyba"@) {
            Some(ch) => ch,
            None => Seq::empty(),
        },
{
    let (lokace, vyrazy, max_kontaktu, cron_enabled) = match config {
        Some(c) => (c.lokace, c.vyrazy, c.max_kontaktu, c.cron_enabled),
        None => (String::new(), Vec::new(), VYCHOZI_POCET_KONTAKTU, true),
    };
    let vyrazy = vyrazy_k_zobrazeni(&vyrazy);
    let ulozeno = parametr(params, "ulozeno").is_some();
    let chyba = match parametr(params, "chyba") {
        Some(ch) => ch.clone(),
        None => String::new(),
    };
    StrankaNastaveni { lokace, vyrazy, max_kontaktu, cron_enabled, ulozeno, chyba }
}

// ───────────── The settings form ─────────────

pub struct FormularNastaveniV {
    pub lokace: Seq<char>,
    pub vyrazy: Seq<Seq<char>>,
    pub max_kontaktu: Option<i32>,
    pub cron_enabled: bool,
}

/// The submitted settings form. `vyraz` comes repeatedly, so the form is a list of
/// pairs rather than a map.
#[derive(Debug)]
pub struct FormularNastaveni {
    pub lokace: String,
    pub vyrazy: Vec<String>,
    /// `None` = the field is missing or is not a number; the range is checked later.
    pub max_kontaktu: Option<i32>,
    /// An unchecked checkbox is not sent at all, hence `false` by default.
    pub cron_enabled: bool,
}

impl View for FormularNastaveni {
    type V = FormularNastaveniV;

    open spec fn view(&self) -> FormularNastaveniV {
        FormularNastaveniV {
            lokace: self.lokace@,
            vyrazy: texty(self.vyrazy@),
            max_kontaktu: self.max_kontaktu,
            cron_enabled: self.cron_enabled,
        }
    }
}

/// One field of the settings form applied to what the fields before it gave.
pub open spec fn krok_nastaveni(
    s: FormularNastaveniV,
    klic: Seq<char>,
    hodnota: Seq<char>,
) -> FormularNastaveniV {
    if klic == "lokace"@ {
        FormularNastaveniV { lokace: orez(hodnota), ..s }
    } else if klic == "max_kontaktu"@ {
        FormularNastaveniV { max_kontaktu: cislo_i32(orez(hodnota)), ..s }
    } else if klic == "cron_enabled"@ {
        FormularNastaveniV { cron_enabled: true, ..s }
    } else if klic == "vyraz"@ {
        let v = orez(hodnota);
        if v.len() > 0 && s.vyrazy.len() < MAX_VYRAZU {
            FormularNastaveniV { vyrazy: s.vyrazy.push(v), ..s }
        } else {
            s
        }
    } else {
        s
    }
}

/// The settings form after all its fields, in order.
pub open spec fn formular_nastaveni(pole: Seq<(Seq<char>, Seq<char>)>) -> FormularNastaveniV
    decreases pole.len(),
{
    if pole.len() == 0 {
        FormularNastaveniV {
            lokace: Seq::empty(),
            vyrazy: Seq::empty(),
            max_kontaktu: None,
            cron_enabled: false,
        }
    } else {
        let p = pole.last();
        krok_nastaveni(formular_nastaveni(pole.drop_last()), p.0, p.1)
    }
}

impl FormularNastaveni {
    pub fn z_pole(pole: &Vec<(String, String)>) -> (res: FormularNastaveni)
        ensures
            res@ == formular_nastaveni(pole_v(pole@)),
            res.vyrazy@.len() <= MAX_VYRAZU,
    {
        let mut f = FormularNastaveni {
            lokace: String::new(),
            vyrazy: Vec::new(),
            max_kontaktu: None,
            cron_enabled: false,
        };
        let n = pole.len();
        let mut i: usize = 0;
        assert(pole_v(pole@.take(0)) =~= Seq::<(Seq<char>, Seq<char>)>::empty());
        assert(texty(f.vyrazy@) =~= Seq::<Seq<char>>::empty());
        while i < n
            invariant
                n == pole@.len(),
                i <= n,
                f@ == formular_nastaveni(pole_v(pole@.take(i as int))),
                f.vyrazy@.len() <= MAX_VYRAZU,
            decreases n - i,
        {
            let (klic, hodnota) = &pole[i];
            assert(pole_v(pole@.take(i + 1)).drop_last() =~= pole_v(pole@.take(i as int)));
            assert(pole_v(pole@.take(i + 1)).last() == (klic@, hodnota@));
            let ghost pred = f@;
            if stejne(klic.as_str(), "lokace") {
                f.lokace = text(orizni(hodnota.as_str()));
            } else if stejne(klic.as_str(), "max_kontaktu") {
                f.max_kontaktu = parsuj_i32(orizni(hodnota.as_str()));
            } else if stejne(klic.as_str(), "cron_enabled") {
                f.cron_enabled = true;
            } else if stejne(klic.as_str(), "vyraz") {
                let v = orizni(hodnota.as_str());
                let ghost stare = f.vyrazy@;
                if !v.is_empty() && f.vyrazy.len() < MAX_VYRAZU {
                    f.vyrazy.push(text(v));
                    assert(f.vyrazy@.drop_last() =~= stare);
                    assert(texty(f.vyrazy@) =~= texty(stare).push(v@));
                }
            }
            assert(f@ == krok_nastaveni(pred, klic@, hodnota@));
            i = i + 1;
        }
        assert(pole@.take(n as int) =~= pole@);
        f
    }
}

/// An error code of the settings page.
#[derive(Debug, PartialEq, Eq, Structural)]
pub enum ChybaNastaveni {
    /// The number of places is missing or out of range.
    Pocet,
    /// The location is too long or Nominatim did not find it.
    Lokace,
    /// Nominatim could not be asked.
    Overeni,
}

impl ChybaNastaveni {
    /// The code that the template gets.
    pub fn kod(&self) -> (res: &'static str)
        ensures
            res@ == match self {
                ChybaNastaveni::Pocet => "pocet"@,
                ChybaNastaveni::Lokace => "lokace"@,
                ChybaNastaveni::Overeni => "overeni"@,
            },
    {
        match self {
            ChybaNastaveni::Pocet => "pocet",
            ChybaNastaveni::Lokace => "lokace",
            ChybaNastaveni::Overeni => "overeni",
        }
    }
}

/// What happens with a submitted settings form.
#[derive(Debug, PartialEq, Eq, Structural)]
pub enum KrokUlozeni {
    /// Nothing is saved; the form is shown again with this number and error code.
    Vykreslit { max_kontaktu: i32, chyba: ChybaNastaveni },
    /// The location must first be checked against Nominatim.
    OveritLokaci { max_kontaktu: i32 },
    /// The form is saved.
    Ulozit { max_kontaktu: i32 },
}

pub open spec fn v_rozsahu(n: i32) -> bool {
    MIN_KONTAKTU <= n <= MAX_KONTAKTU
}

/// The decision on a submitted form, before any outside check. The number must be in
/// range, otherwise nothing is saved and the form shows the value given (or the
/// default). An empty location is not checked (it does not overwrite the saved one); a
/// too long one is refused without asking.
pub fn posud_nastaveni(f: &FormularNastaveni) -> (res: KrokUlozeni)
    ensures
        res == match f.max_kontaktu {
            Some(n) => if v_rozsahu(n) {
                if f.lokace@.len() == 0 {
                    KrokUlozeni::Ulozit { max_kontaktu: n }
                } else if f.lokace@.len() > MAX_DELKA_LOKACE {
                    KrokUlozeni::Vykreslit { max_kontaktu: n, chyba: ChybaNastaveni::Lokace }
                } else {
                    KrokUlozeni::OveritLokaci { max_kontaktu: n }
                }
            } else {
                KrokUlozeni::Vykreslit { max_kontaktu: n, chyba: ChybaNastaveni::Pocet }
            },
            None => KrokUlozeni::Vykreslit {
                max_kontaktu: VYCHOZI_POCET_KONTAKTU,
                chyba: ChybaNastaveni::Pocet,
            },
        },
{
    let n = match f.max_kontaktu {
        Some(n) => {
            if MIN_KONTAKTU <= n && n <= MAX_KONTAKTU {
                n
            } else {
                return KrokUlozeni::Vykreslit { max_kontaktu: n, chyba: ChybaNastaveni::Pocet };
            }
        },
        None => {
            return KrokUlozeni::Vykreslit {
                max_kontaktu: VYCHOZI_POCET_KONTAKTU,
                chyba: ChybaNastaveni::Pocet,
            };
        },
    };
    if f.lokace.as_str().is_empty() {
        KrokUlozeni::Ulozit { max_kontaktu: n }
    } else if f.lokace.as_str().unicode_len() > MAX_DELKA_LOKACE {
        KrokUlozeni::Vykreslit { max_kontaktu: n, chyba: ChybaNastaveni::Lokace }
    } else {
        KrokUlozeni::OveritLokaci { max_kontaktu: n }
    }
}

/// The decision after Nominatim was asked about the location: `Some(true)` found,
/// `Some(false)` not found, `None` the service could not be asked.
pub fn po_overeni_lokace(max_kontaktu: i32, nalezeno: Option<bool>) -> (res: KrokUlozeni)
    ensures
        res == match nalezeno {
            Some(true) => KrokUlozeni::Ulozit { max_kontaktu },
            Some(false) => KrokUlozeni::Vykreslit { max_kontaktu, chyba: ChybaNastaveni::Lokace },
            None => KrokUlozeni::Vykreslit { max_kontaktu, chyba: ChybaNastaveni::Overeni },
        },
{
    match nalezeno {
        Some(true) => KrokUlozeni::Ulozit { max_kontaktu },
        Some(false) => KrokUlozeni::Vykreslit { max_kontaktu, chyba: ChybaNastaveni::Lokace },
        None => KrokUlozeni::Vykreslit { max_kontaktu, chyba: ChybaNastaveni::Overeni },
    }
}

/// The ten search-term columns to save: the terms in order, `None` after the last one.
pub fn sloupce_vyrazu(vyrazy: &Vec<String>) -> (res: Vec<Option<String>>)
    ensures
        res@.len() == MAX_VYRAZU,
        forall|i: int|
            0 <= i < MAX_VYRAZU ==> (#[trigger] res@[i] matches Some(v) ==> i < vyrazy@.len()
                && v@ == vyrazy@[i]@) && (res@[i] is None ==> i >= vyrazy@.len()),
{
    let mut res: Vec<Option<String>> = Vec::new();
    let mut i: usize = 0;
    while i < MAX_VYRAZU
        invariant
            i <= MAX_VYRAZU,
            res@.len() == i,
            forall|k: int|
                0 <= k < i ==> (#[trigger] res@[k] matches Some(v) ==> k < vyrazy@.len() && v@
                    == vyrazy@[k]@) && (res@[k] is None ==> k >= vyrazy@.len()),
        decreases MAX_VYRAZU - i,
    {
        if i < vyrazy.len() {
            res.push(Some(vyrazy[i].clone()));
        } else {
            res.push(None);
        }
        i = i + 1;
    }
    res
}

/// Where to go after the `UPDATE`: `Some(n)` rows changed, `None` a database error.
/// Only exactly one changed row counts as saved.
pub fn navrat_po_ulozeni(radku: Option<u64>) -> (res: &'static str)
    ensures
        res@ == if radku == Some(1u64) {
            "/nastaveni?ulozeno=1"@
        } else {
            "/nastaveni?chyba=ulozeni"@
        },
{
    match radku {
        Some(1) => "/nastaveni?ulozeno=1",
        _ => "/nastaveni?chyba=ulozeni",
    }
}

/// A form is saved only with a number of places in range, at most ten non-empty
/// search terms, and a location that is empty or not longer than the limit.
pub proof fn ulozi_se_jen_platny_formular(pole: Seq<(Seq<char>, Seq<char>)>)
    ensures
        formular_nastaveni(pole).vyrazy.len() <= MAX_VYRAZU,
        forall|i: int|
            0 <= i < formular_nastaveni(pole).vyrazy.len() ==> (#[trigger] formular_nastaveni(
                pole,
            ).vyrazy[i]).len() > 0,
    decreases pole.len(),
{
    if pole.len() > 0 {
        ulozi_se_jen_platny_formular(pole.drop_last());
    }
}

} // verus!
