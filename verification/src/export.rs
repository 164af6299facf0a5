//! The export of places (`POST /download`): the form of the export popup, the
//! parameters of the query, its SQL text, and the rows of the spreadsheet.
use std::collections::BTreeSet;
use vstd::prelude::*;
use vstd::std_specs::btree::spec_btree_keys_iter;
use vstd::std_specs::iter::IteratorSpec;
use vstd::std_specs::btree::increasing_seq;
use vstd::laws_cmp::obeys_cmp;
use vstd::std_specs::cmp::OrdSpec;
use crate::filtry::{normalizuj_zemi, texty, zeme_z};
use crate::parametry::pole_v;
use crate::text::{cislo_i64, orez, orizni, parsuj_i64, pripoj, stejne, text};

verus! {

broadcast use vstd::std_specs::btree::group_btree_axioms, vstd::laws_cmp::group_laws_cmp;

/// The order of the export. `ORDER BY` is put into the SQL by formatting, so it may
/// only come from this list.
#[derive(Debug, Clone, Copy, PartialEq, Eq, Structural)]
pub enum Razeni {
    NazevAsc,
    NazevDesc,
    DatumAsc,
    DatumDesc,
}

pub open spec fn razeni_z(h: Seq<char>) -> Option<Razeni> {
    if h == "nazev_asc"@ {
        Some(Razeni::NazevAsc)
    } else if h == "nazev_desc"@ {
        Some(Razeni::NazevDesc)
    } else if h == "datum_asc"@ {
        Some(Razeni::DatumAsc)
    } else if h == "datum_desc"@ {
        Some(Razeni::DatumDesc)
    } else {
        None
    }
}

pub open spec fn razeni_sql(r: Razeni) -> Seq<char> {
    match r {
        Razeni::NazevAsc => "p.nazev ASC"@,
        Razeni::NazevDesc => "p.nazev DESC"@,
        Razeni::DatumAsc => "p.created_at ASC"@,
        Razeni::DatumDesc => "p.created_at DESC"@,
    }
}

/// The column that the first part of an order value names.
pub open spec fn sloupec_razeni(s: Seq<char>) -> Option<Seq<char>> {
    if s == "nazev"@ {
        Some("p.nazev"@)
    } else if s == "datum"@ {
        Some("p.created_at"@)
    } else {
        None
    }
}

/// The direction that the last part of an order value names.
pub open spec fn smer_razeni(d: Seq<char>) -> Option<Seq<char>> {
    if d == "asc"@ {
        Some("ASC"@)
    } else if d == "desc"@ {
        Some("DESC"@)
    } else {
        None
    }
}

/// An order value is a column and a direction joined by `_`: `nazev` orders by the
/// name, `datum` by the time of creation, `asc` ascending, `desc` descending. Every
/// such pair is known, every known value is such a pair, and the `ORDER BY` of a
/// known value is its column followed by its direction.
pub proof fn razeni_podle_hodnoty(hodnota: Seq<char>, s: Seq<char>, d: Seq<char>)
    ensures
        sloupec_razeni(s) is Some && smer_razeni(d) is Some ==> (razeni_z(s + "_"@ + d) matches Some(
            r,
        ) && razeni_sql(r) == sloupec_razeni(s)->0 + " "@ + smer_razeni(d)->0),
        razeni_z(hodnota) matches Some(r) ==> exists|s2: Seq<char>, d2: Seq<char>|
            hodnota == s2 + "_"@ + d2 && sloupec_razeni(s2) is Some && smer_razeni(d2) is Some
                && #[trigger] razeni_sql(r) == sloupec_razeni(s2)->0 + " "@ + smer_razeni(
                d2,
            )->0,
{
    reveal_strlit("nazev");
    reveal_strlit("datum");
    reveal_strlit("asc");
    reveal_strlit("desc");
    reveal_strlit("_");
    reveal_strlit(" ");
    reveal_strlit("ASC");
    reveal_strlit("DESC");
    reveal_strlit("p.nazev");
    reveal_strlit("p.created_at");
    reveal_strlit("nazev_asc");
    reveal_strlit("nazev_desc");
    reveal_strlit("datum_asc");
    reveal_strlit("datum_desc");
    reveal_strlit("p.nazev ASC");
    reveal_strlit("p.nazev DESC");
    reveal_strlit("p.created_at ASC");
    reveal_strlit("p.created_at DESC");
    assert("nazev"@ + "_"@ + "asc"@ =~= "nazev_asc"@);
    assert("nazev"@ + "_"@ + "desc"@ =~= "nazev_desc"@);
    assert("datum"@ + "_"@ + "asc"@ =~= "datum_asc"@);
    assert("datum"@ + "_"@ + "desc"@ =~= "datum_desc"@);
    assert("p.nazev"@ + " "@ + "ASC"@ =~= "p.nazev ASC"@);
    assert("p.nazev"@ + " "@ + "DESC"@ =~= "p.nazev DESC"@);
    assert("p.created_at"@ + " "@ + "ASC"@ =~= "p.created_at ASC"@);
    assert("p.created_at"@ + " "@ + "DESC"@ =~= "p.created_at DESC"@);
    assert("nazev_asc"@ != "nazev_desc"@);
    assert("datum_asc"@ != "datum_desc"@);
    assert("nazev_asc"@ != "datum_asc"@) by {
        assert("nazev_asc"@[0] != "datum_asc"@[0]);
    }
    assert("nazev_desc"@ != "datum_desc"@) by {
        assert("nazev_desc"@[0] != "datum_desc"@[0]);
    }
    assert("nazev_asc"@ != "datum_desc"@);
    assert("nazev_desc"@ != "datum_asc"@);
}

impl Razeni {
    /// The order named by the form value; `None` for an unknown one.
    pub fn z_textu(h: &str) -> (res: Option<Razeni>)
        ensures
            res == razeni_z(h@),
    {
        if stejne(h, "nazev_asc") {
            Some(Razeni::NazevAsc)
        } else if stejne(h, "nazev_desc") {
            Some(Razeni::NazevDesc)
        } else if stejne(h, "datum_asc") {
            Some(Razeni::DatumAsc)
        } else if stejne(h, "datum_desc") {
            Some(Razeni::DatumDesc)
        } else {
            None
        }
    }

    /// The `ORDER BY` expression.
    pub fn sql(&self) -> (res: &'static str)
        ensures
            res@ == razeni_sql(*self),
    {
        match self {
            Razeni::NazevAsc => "p.nazev ASC",
            Razeni::NazevDesc => "p.nazev DESC",
            Razeni::DatumAsc => "p.created_at ASC",
            Razeni::DatumDesc => "p.created_at DESC",
        }
    }
}

/// The format of the export file.
#[derive(Debug, Clone, Copy, PartialEq, Eq, Structural)]
pub enum FormatExportu {
    Json,
    Xml,
    Excel,
    /// Any other value: the request is refused.
    Neznamy,
}

pub open spec fn format_z(h: Seq<char>) -> FormatExportu {
    if h == "json"@ {
        FormatExportu::Json
    } else if h == "xml"@ {
        FormatExportu::Xml
    } else if h == "excel"@ {
        FormatExportu::Excel
    } else {
        FormatExportu::Neznamy
    }
}

pub open spec fn hlavicky_formatu(f: FormatExportu) -> Option<(Seq<char>, Seq<char>)> {
    match f {
        FormatExportu::Json => Some(
            ("application/json; charset=utf-8"@, "attachment; filename=\"provozovny.json\""@),
        ),
        FormatExportu::Xml => Some(
            ("application/xml; charset=utf-8"@, "attachment; filename=\"provozovny.xml\""@),
        ),
        FormatExportu::Excel => Some(
            (
                "application/vnd.openxmlformats-officedocument.spreadsheetml.sheet"@,
                "attachment; filename=\"provozovny.xlsx\""@,
            ),
        ),
        FormatExportu::Neznamy => None,
    }
}

impl FormatExportu {
    pub fn z_textu(h: &str) -> (res: FormatExportu)
        ensures
            res == format_z(h@),
    {
        if stejne(h, "json") {
            FormatExportu::Json
        } else if stejne(h, "xml") {
            FormatExportu::Xml
        } else if stejne(h, "excel") {
            FormatExportu::Excel
        } else {
            FormatExportu::Neznamy
        }
    }

    /// `Content-Type` and `Content-Disposition` of the file; `None` for an unknown format.
    pub fn hlavicky(&self) -> (res: Option<(&'static str, &'static str)>)
        ensures
            match res {
                Some((t, d)) => hlavicky_formatu(*self) == Some((t@, d@)),
                None => hlavicky_formatu(*self) is None,
            },
    {
        match self {
            FormatExportu::Json => Some(
                ("application/json; charset=utf-8", "attachment; filename=\"provozovny.json\""),
            ),
            FormatExportu::Xml => Some(
                ("application/xml; charset=utf-8", "attachment; filename=\"provozovny.xml\""),
            ),
            FormatExportu::Excel => Some(
                (
                    "application/vnd.openxmlformats-officedocument.spreadsheetml.sheet",
                    "attachment; filename=\"provozovny.xlsx\"",
                ),
            ),
            FormatExportu::Neznamy => None,
        }
    }
}

/// The limit of rows, kept between 1 and 10 000.
pub open spec fn omezeny_limit(l: int) -> int {
    if l < 1 {
        1
    } else if l > 10_000 {
        10_000
    } else {
        l
    }
}

/// `limit.clamp(1, 10_000)`.
pub fn omez_limit(limit: i64) -> (res: i64)
    ensures
        res == omezeny_limit(limit as int),
        1 <= res <= 10_000,
{
    if limit < 1 {
        1
    } else if limit > 10_000 {
        10_000
    } else {
        limit
    }
}

pub struct FormularExportuV {
    pub format: Option<Seq<char>>,
    pub razeni: Option<Razeni>,
    pub limit: Option<i64>,
    pub mesto: Option<Seq<char>>,
    pub stav: Seq<char>,
    pub zeme: Seq<char>,
    pub jen_vybrane: bool,
}

/// The submitted export popup.
#[derive(Debug)]
pub struct FormularExportu {
    pub format: Option<String>,
    pub razeni: Option<Razeni>,
    pub limit: Option<i64>,
    pub mesto: Option<String>,
    pub stav: String,
    pub zeme: String,
    pub jen_vybrane: bool,
}

pub open spec fn volitelny_text(o: Option<String>) -> Option<Seq<char>> {
    match o {
        Some(s) => Some(s@),
        None => None,
    }
}

impl View for FormularExportu {
    type V = FormularExportuV;

    open spec fn view(&self) -> FormularExportuV {
        FormularExportuV {
            format: volitelny_text(self.format),
            razeni: self.razeni,
            limit: self.limit,
            mesto: volitelny_text(self.mesto),
            stav: self.stav@,
            zeme: self.zeme@,
            jen_vybrane: self.jen_vybrane,
        }
    }
}

/// One field of the popup (its value trimmed) applied to what the fields before it gave.
pub open spec fn krok_exportu(s: FormularExportuV, klic: Seq<char>, hodnota: Seq<char>) -> FormularExportuV {
    let h = orez(hodnota);
    if klic == "format"@ {
        FormularExportuV { format: Some(h), ..s }
    } else if klic == "razeni"@ {
        FormularExportuV { razeni: razeni_z(h), ..s }
    } else if klic == "limit"@ {
        FormularExportuV { limit: cislo_i64(h), ..s }
    } else if klic == "mesto"@ {
        FormularExportuV { mesto: Some(h), ..s }
    } else if klic == "stav"@ {
        FormularExportuV {
            stav: if h == "kontaktovane"@ || h == "smluvene"@ {
                h
            } else {
                Seq::empty()
            },
            ..s
        }
    } else if klic == "zeme"@ {
        FormularExportuV { zeme: zeme_z(Some(h)), ..s }
    } else if klic == "jen_vybrane"@ {
        FormularExportuV { jen_vybrane: h == "1"@ || h == "true"@ || h == "on"@, ..s }
    } else {
        s
    }
}

pub open spec fn formular_exportu(pole: Seq<(Seq<char>, Seq<char>)>) -> FormularExportuV
    decreases pole.len(),
{
    if pole.len() == 0 {
        FormularExportuV {
            format: None,
            razeni: None,
            limit: None,
            mesto: None,
            stav: Seq::empty(),
            zeme: Seq::empty(),
            jen_vybrane: false,
        }
    } else {
        let p = pole.last();
        krok_exportu(formular_exportu(pole.drop_last()), p.0, p.1)
    }
}

impl FormularExportu {
    pub fn z_pole(pole: &Vec<(String, String)>) -> (res: FormularExportu)
        ensures
            res@ == formular_exportu(pole_v(pole@)),
    {
        let mut f = FormularExportu {
            format: None,
            razeni: None,
            limit: None,
            mesto: None,
            stav: String::new(),
            zeme: String::new(),
            jen_vybrane: false,
        };
        let n = pole.len();
        let mut i: usize = 0;
        assert(pole_v(pole@.take(0)) =~= Seq::<(Seq<char>, Seq<char>)>::empty());
        while i < n
            invariant
                n == pole@.len(),
                i <= n,
                f@ == formular_exportu(pole_v(pole@.take(i as int))),
            decreases n - i,
        {
            let (klic, hodnota) = &pole[i];
            assert(pole_v(pole@.take(i + 1)).drop_last() =~= pole_v(pole@.take(i as int)));
            assert(pole_v(pole@.take(i + 1)).last() == (klic@, hodnota@));
            let ghost pred = f@;
            let h = orizni(hodnota.as_str());
            let k = klic.as_str();
            if stejne(k, "format") {
                f.format = Some(text(h));
            } else if stejne(k, "razeni") {
                f.razeni = Razeni::z_textu(h);
            } else if stejne(k, "limit") {
                f.limit = parsuj_i64(h);
            } else if stejne(k, "mesto") {
                f.mesto = Some(text(h));
            } else if stejne(k, "stav") {
                f.stav = if stejne(h, "kontaktovane") || stejne(h, "smluvene") {
                    text(h)
                } else {
                    String::new()
                };
            } else if stejne(k, "zeme") {
                f.zeme = normalizuj_zemi(Some(h));
            } else if stejne(k, "jen_vybrane") {
                f.jen_vybrane = stejne(h, "1") || stejne(h, "true") || stejne(h, "on");
            }
            assert(f@ == krok_exportu(pred, klic@, hodnota@));
            i = i + 1;
        }
        assert(pole@.take(n as int) =~= pole@);
        f
    }
}

/// Whether `s` is in strictly increasing order.
pub open spec fn rostouci(s: Seq<i32>) -> bool {
    forall|i: int, j: int| 0 <= i < j < s.len() ==> s[i] < s[j]
}

proof fn poradi_je_rostouci(s: Seq<&i32>)
    requires
        increasing_seq(s),
    ensures
        forall|i: int, j: int| 0 <= i < j < s.len() ==> *s[i] < *s[j],
{
    assert(obeys_cmp::<i32>());
    assert(obeys_cmp::<&i32>());
    assert forall|i: int, j: int| 0 <= i < j < s.len() implies *s[i] < *s[j] by {
        assert((&s[i]).cmp_spec(&s[j]) is Less);
    }
}

/// The ids of the selection in increasing order.
pub fn prvky_vyberu(vyber: &BTreeSet<i32>) -> (res: Vec<i32>)
    ensures
        res@.to_set() == vyber@,
        rostouci(res@),
{
    let mut res: Vec<i32> = Vec::new();
    for x in it: vyber.iter()
        invariant
            it.seq() == spec_btree_keys_iter(vyber).remaining(),
            res@ == it.seq().take(it.index() as int).map_values(|r: &i32| *r),
    {
        res.push(*x);
        assert(res@ =~= it.seq().take(it.index() + 1).map_values(|r: &i32| *r));
    }
    proof {
        let s = spec_btree_keys_iter(vyber).remaining();
        assert(res@ =~= s.map_values(|r: &i32| *r));
        assert(s.unref() =~= s.map_values(|r: &i32| *r));
        poradi_je_rostouci(s);
    }
    res
}

/// The parameters of the export query.
#[derive(Debug)]
pub struct ParametryExportu {
    pub format: FormatExportu,
    pub razeni: Razeni,
    pub limit: i64,
    pub mesto: Option<String>,
    pub stav: String,
    pub zeme: String,
    /// `Some(ids)` = only these places (the bulk selection), `None` = no restriction.
    pub ids: Option<Vec<i32>>,
}

/// The query for a submitted popup. `vyber` is the bulk selection; it counts only when
/// the popup asked for it and it is not empty, and then it takes exactly what the user
/// picked: city, state, country and limit of the popup are ignored, only the order
/// stays.
pub fn parametry_exportu(f: FormularExportu, vyber: &BTreeSet<i32>) -> (res: ParametryExportu)
    ensures
        res.format == match f@.format {
            Some(h) => format_z(h),
            None => FormatExportu::Json,
        },
        res.razeni == match f.razeni {
            Some(r) => r,
            None => Razeni::NazevAsc,
        },
        if f.jen_vybrane && !vyber@.is_empty() {
            &&& res.limit == 10_000
            &&& res.mesto is None
            &&& res.stav@ == Seq::<char>::empty()
            &&& res.zeme@ == Seq::<char>::empty()
            &&& res.ids matches Some(ids) && ids@.to_set() == vyber@ && rostouci(ids@)
        } else {
            &&& res.limit == omezeny_limit(
                match f.limit {
                    Some(l) => l as int,
                    None => 100,
                },
            )
            &&& volitelny_text(res.mesto) == match f@.mesto {
                Some(m) => if m.len() == 0 {
                    None
                } else {
                    Some(m)
                },
                None => None,
            }
            &&& res.stav@ == f.stav@
            &&& res.zeme@ == f.zeme@
            &&& res.ids is None
        },
        1 <= res.limit <= 10_000,
{
    let format = match &f.format {
        Some(h) => FormatExportu::z_textu(h.as_str()),
        None => FormatExportu::Json,
    };
    let razeni = match f.razeni {
        Some(r) => r,
        None => Razeni::NazevAsc,
    };
    let limit = omez_limit(
        match f.limit {
            Some(l) => l,
            None => 100,
        },
    );
    let mesto = match f.mesto {
        Some(m) => if m.as_str().is_empty() {
            None
        } else {
            Some(m)
        },
        None => None,
    };
    if f.jen_vybrane && !vyber.is_empty() {
        ParametryExportu {
            format,
            razeni,
            limit: 10_000,
            mesto: None,
            stav: String::new(),
            zeme: String::new(),
            ids: Some(prvky_vyberu(vyber)),
        }
    } else {
        ParametryExportu { format, razeni, limit, mesto, stav: f.stav, zeme: f.zeme, ids: None }
    }
}

pub open spec fn sql_pred() -> Seq<char> {
    "
        SELECT
            p.id, p.nazev, p.mesto, p.telefon, p.web,
            COALESCE(
                array_agg(e.email ORDER BY e.email) FILTER (WHERE e.email IS NOT NULL),
                '{}'
            ) AS emaily
        FROM provozovny p
        LEFT JOIN provozovny_emaily e ON e.provozovna_id = p.id
        WHERE ($1::text IS NULL OR p.mesto ILIKE $1)
          AND ($2 = ''
               OR ($2 = 'kontaktovane' AND p.is_contacted)
               OR ($2 = 'smluvene' AND p.is_closed))
          AND ($4::int4[] IS NULL OR p.id = ANY($4))
          AND ($5 = '' OR p.country_code = $5)
        GROUP BY p.id
        ORDER BY "@
}

pub open spec fn sql_po() -> Seq<char> {
    "
        LIMIT $3
        "@
}

/// The SQL of the export; the order is the only formatted part, the other parameters
/// go as binds (`$1` city pattern, `$2` state, `$3` limit, `$4` ids, `$5` country).
pub fn dotaz_exportu(razeni: Razeni) -> (res: String)
    ensures
        res@ == sql_pred() + razeni_sql(razeni) + sql_po(),
{
    let mut s = text(
        "
        SELECT
            p.id, p.nazev, p.mesto, p.telefon, p.web,
            COALESCE(
                array_agg(e.email ORDER BY e.email) FILTER (WHERE e.email IS NOT NULL),
                '{}'
            ) AS emaily
        FROM provozovny p
        LEFT JOIN provozovny_emaily e ON e.provozovna_id = p.id
        WHERE ($1::text IS NULL OR p.mesto ILIKE $1)
          AND ($2 = ''
               OR ($2 = 'kontaktovane' AND p.is_contacted)
               OR ($2 = 'smluvene' AND p.is_closed))
          AND ($4::int4[] IS NULL OR p.id = ANY($4))
          AND ($5 = '' OR p.country_code = $5)
        GROUP BY p.id
        ORDER BY ",
    );
    pripoj(&mut s, razeni.sql());
    pripoj(
        &mut s,
        "
        LIMIT $3
        ",
    );
    s
}

/// The `ORDER BY` of the export query is always one of the four listed expressions,
/// whatever the form held.
pub proof fn razeni_je_vzdy_ze_seznamu(pole: Seq<(Seq<char>, Seq<char>)>)
    ensures
        formular_exportu(pole).razeni matches Some(r) ==> razeni_sql(r) == "p.nazev ASC"@
            || razeni_sql(r) == "p.nazev DESC"@ || razeni_sql(r) == "p.created_at ASC"@
            || razeni_sql(r) == "p.created_at DESC"@,
{
}

// ───────────── Rows ─────────────

/// A place as the export writes it.
#[derive(Debug)]
pub struct ProvozovnaExport {
    pub id: i32,
    pub nazev: String,
    pub mesto: Option<String>,
    pub telefon: Option<String>,
    pub web: Option<String>,
    pub emaily: Vec<String>,
}

/// The texts joined, with `odd` between each two.
pub open spec fn spojeni(v: Seq<Seq<char>>, odd: Seq<char>) -> Seq<char>
    decreases v.len(),
{
    if v.len() == 0 {
        Seq::empty()
    } else if v.len() == 1 {
        v[0]
    } else {
        spojeni(v.drop_last(), odd) + odd + v.last()
    }
}

/// `[String]::join`.
pub fn spoj(v: &Vec<String>, odd: &str) -> (res: String)
    ensures
        res@ == spojeni(texty(v@), odd@),
{
    let mut res = String::new();
    let n = v.len();
    let mut i: usize = 0;
    assert(texty(v@.take(0)) =~= Seq::<Seq<char>>::empty());
    while i < n
        invariant
            n == v@.len(),
            i <= n,
            res@ == spojeni(texty(v@.take(i as int)), odd@),
        decreases n - i,
    {
        assert(texty(v@.take(i + 1)).drop_last() =~= texty(v@.take(i as int)));
        if i != 0 {
            pripoj(&mut res, odd);
        } else {
            assert(res@ =~= Seq::<char>::empty());
        }
        pripoj(&mut res, v[i].as_str());
        i = i + 1;
        assert(res@ =~= spojeni(texty(v@.take(i as int)), odd@));
    }
    assert(v@.take(n as int) =~= v@);
    res
}

pub open spec fn nebo_prazdne(o: Option<String>) -> Seq<char> {
    match o {
        Some(s) => s@,
        None => Seq::empty(),
    }
}

fn text_nebo_prazdny(o: &Option<String>) -> (res: String)
    ensures
        res@ == nebo_prazdne(*o),
{
    match o {
        Some(s) => s.clone(),
        None => String::new(),
    }
}

/// The columns of the spreadsheet.
pub open spec fn hlavicka_tabulky() -> Seq<Seq<char>> {
    seq!["Název"@, "Město"@, "Telefon"@, "Web"@, "E-maily"@]
}

/// The cells of one place: name, city, phone, web, the e-mails joined by `; `.
pub open spec fn bunky(p: ProvozovnaExport) -> Seq<Seq<char>> {
    seq![
        p.nazev@,
        nebo_prazdne(p.mesto),
        nebo_prazdne(p.telefon),
        nebo_prazdne(p.web),
        spojeni(texty(p.emaily@), "; "@),
    ]
}

/// The cells of the spreadsheet: the header row, then one row per place.
pub fn radky_tabulky(data: &Vec<ProvozovnaExport>) -> (res: Vec<Vec<String>>)
    ensures
        res@.len() == data@.len() + 1,
        texty(res@[0]@) == hlavicka_tabulky(),
        forall|i: int| 0 <= i < data@.len() ==> texty((#[trigger] res@[i + 1])@) == bunky(data@[i]),
{
    let mut res: Vec<Vec<String>> = Vec::new();
    let hlavicka = vec![
        text("Název"),
        text("Město"),
        text("Telefon"),
        text("Web"),
        text("E-maily"),
    ];
    assert(texty(hlavicka@) =~= hlavicka_tabulky());
    res.push(hlavicka);
    let n = data.len();
    let mut i: usize = 0;
    while i < n
        invariant
            n == data@.len(),
            i <= n,
            res@.len() == i + 1,
            texty(res@[0]@) == hlavicka_tabulky(),
            forall|k: int| 0 <= k < i ==> texty((#[trigger] res@[k + 1])@) == bunky(data@[k]),
        decreases n - i,
    {
        let p = &data[i];
        let radek = vec![
            p.nazev.clone(),
            text_nebo_prazdny(&p.mesto),
            text_nebo_prazdny(&p.telefon),
            text_nebo_prazdny(&p.web),
            spoj(&p.emaily, "; "),
        ];
        assert(texty(radek@) =~= bunky(*p));
        res.push(radek);
        i = i + 1;
    }
    res
}

} // verus!
