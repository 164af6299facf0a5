use std::collections::HashMap;

use ivan_scraper::config::{ChybaKonfigurace, Config};
use ivan_scraper::filtry::{
    bezpecny_navrat, normalizuj_zemi, pilulky_mest, pilulky_stavu, pilulky_zemi, pocet_stranek,
    dotaz_poctu, dotaz_vypisu, posun, vzor_hledani, Filtry,
};

fn mapa(pary: &[(&str, &str)]) -> HashMap<String, String> {
    pary.iter().map(|(k, v)| (k.to_string(), v.to_string())).collect()
}

fn filtry(page: i64, search: &str, stav: &str, zeme: &str) -> Filtry {
    Filtry { page, search: search.into(), stav: stav.into(), zeme: zeme.into() }
}

#[test]
fn filtry_z_parametru() {
    let f = Filtry::z_params(&mapa(&[("page", "3"), ("search", "Brno"), ("stav", "smluvene"), ("zeme", " CZ ")]));
    assert_eq!((f.page, f.search.as_str(), f.stav.as_str(), f.zeme.as_str()), (3, "Brno", "smluvene", "CZ"));

    let f = Filtry::z_params(&mapa(&[("page", "0"), ("stav", "cokoli"), ("zeme", "cz")]));
    assert_eq!((f.page, f.search.as_str(), f.stav.as_str(), f.zeme.as_str()), (1, "", "", ""));

    let f = Filtry::z_params(&mapa(&[]));
    assert_eq!((f.page, f.search.as_str(), f.stav.as_str(), f.zeme.as_str()), (1, "", "", ""));

    let f = Filtry::z_params(&mapa(&[("page", "x"), ("stav", "kontaktovane"), ("zeme", "CZE")]));
    assert_eq!((f.page, f.stav.as_str(), f.zeme.as_str()), (1, "kontaktovane", ""));
}

#[test]
fn kod_zeme() {
    assert_eq!(normalizuj_zemi(Some("PL")), "PL");
    assert_eq!(normalizuj_zemi(Some("\tPL\n")), "PL");
    assert_eq!(normalizuj_zemi(Some("Pl")), "");
    assert_eq!(normalizuj_zemi(Some("ÁB")), "");
    assert_eq!(normalizuj_zemi(Some("P")), "");
    assert_eq!(normalizuj_zemi(None), "");
    let jednou = normalizuj_zemi(Some(" DE "));
    assert_eq!(normalizuj_zemi(Some(&jednou)), jednou);
}

#[test]
fn odkazy() {
    let f = filtry(2, "Nové Město", "kontaktovane", "CZ");
    assert_eq!(f.suffix(), "&search=Nov%C3%A9%20M%C4%9Bsto&stav=kontaktovane&zeme=CZ");
    assert_eq!(f.url(), "/?page=2&search=Nov%C3%A9%20M%C4%9Bsto&stav=kontaktovane&zeme=CZ");
    assert_eq!(f.url_detailu(15), "/provozovna/15?page=2&search=Nov%C3%A9%20M%C4%9Bsto&stav=kontaktovane&zeme=CZ");
    assert_eq!(filtry(1, "", "", "").url(), "/?page=1");
    assert_eq!(filtry(1, "a&b", "", "").suffix(), "&search=a%26b");
}

#[test]
fn zmeny_filtru_vraci_na_prvni_stranu() {
    let f = filtry(5, "Brno", "smluvene", "CZ");
    let m = f.s_mestem("Ostrava");
    assert_eq!((m.page, m.search.as_str(), m.stav.as_str(), m.zeme.as_str()), (1, "Ostrava", "smluvene", "CZ"));
    let s = f.se_stavem("");
    assert_eq!((s.page, s.search.as_str(), s.stav.as_str(), s.zeme.as_str()), (1, "Brno", "", "CZ"));
    let z = f.se_zemi("PL");
    assert_eq!((z.page, z.search.as_str(), z.stav.as_str(), z.zeme.as_str()), (1, "", "smluvene", "PL"));
}

#[test]
fn navrat_jen_na_relativni_cestu() {
    assert_eq!(bezpecny_navrat(Some("/?page=2&stav=smluvene")), "/?page=2&stav=smluvene");
    assert_eq!(bezpecny_navrat(Some("/provozovna/3")), "/provozovna/3");
    assert_eq!(bezpecny_navrat(Some("//evil.example")), "/");
    assert_eq!(bezpecny_navrat(Some("/\\evil.example")), "/");
    assert_eq!(bezpecny_navrat(Some("https://evil.example")), "/");
    assert_eq!(bezpecny_navrat(Some("/a\r\nSet-Cookie: x")), "/");
    assert_eq!(bezpecny_navrat(Some("/a\u{85}")), "/");
    assert_eq!(bezpecny_navrat(Some("")), "/");
    assert_eq!(bezpecny_navrat(None), "/");
}

#[test]
fn strankovani() {
    assert_eq!(pocet_stranek(0), 0);
    assert_eq!(pocet_stranek(1), 1);
    assert_eq!(pocet_stranek(10), 1);
    assert_eq!(pocet_stranek(11), 2);
    assert_eq!(pocet_stranek(95), 10);
    assert_eq!(posun(1), 0);
    assert_eq!(posun(3), 20);
    assert_eq!(vzor_hledani("Brno"), "%Brno%");
    assert_eq!(vzor_hledani(""), "");
}

#[test]
fn pilulky() {
    let f = filtry(3, "Brno", "smluvene", "CZ");
    let z = pilulky_zemi(&f, &vec!["CZ".to_string(), "PL".to_string()]);
    assert_eq!(z.len(), 3);
    assert_eq!((z[0].popisek.as_str(), z[0].url.as_str(), z[0].aktivni), ("Vše", "/?page=1&stav=smluvene", false));
    assert_eq!((z[1].popisek.as_str(), z[1].url.as_str(), z[1].aktivni), ("CZ", "/?page=1&stav=smluvene&zeme=CZ", true));
    assert_eq!((z[2].popisek.as_str(), z[2].aktivni), ("PL", false));

    let m = pilulky_mest(&f, &vec!["Brno".to_string()]);
    assert_eq!((m[0].url.as_str(), m[0].aktivni), ("/?page=1&stav=smluvene&zeme=CZ", false));
    assert_eq!((m[1].url.as_str(), m[1].aktivni), ("/?page=1&search=Brno&stav=smluvene&zeme=CZ", true));

    let s = pilulky_stavu(&f);
    assert_eq!(s.len(), 3);
    assert_eq!((s[0].popisek.as_str(), s[0].url.as_str(), s[0].aktivni), ("Všechny stavy", "/?page=1&search=Brno&zeme=CZ", false));
    assert_eq!((s[1].popisek.as_str(), s[1].aktivni), ("Kontaktované", false));
    assert_eq!((s[2].popisek.as_str(), s[2].url.as_str(), s[2].aktivni), ("Smluvené", "/?page=1&search=Brno&stav=smluvene&zeme=CZ", true));
}

fn s(t: &str) -> Option<String> {
    Some(t.to_string())
}

#[test]
fn konfigurace_z_promennych() {
    let c = Config::z_promennych(None, None, s("tok"), s("actor"), s("postgres://x"), s("klic")).unwrap();
    assert_eq!(c.google_maps_embed_key.as_deref(), Some("klic"));
    assert_eq!(c.host, "0.0.0.0");
    assert_eq!(c.port, 3000);
    assert_eq!(c.bind_addr(), "0.0.0.0:3000");
    let c = Config::z_promennych(s("127.0.0.1"), s("8080"), s("t"), s("a"), s("d"), None).unwrap();
    assert_eq!(c.bind_addr(), "127.0.0.1:8080");

    let e = Config::z_promennych(None, s("x"), None, None, None, None).unwrap_err();
    assert_eq!(e, ChybaKonfigurace::PortNeniCislo);
    assert_eq!(e.zprava(), "PORT musí být číslo");
    assert_eq!(Config::z_promennych(None, s("70000"), s("t"), s("a"), s("d"), None).unwrap_err(), ChybaKonfigurace::PortNeniCislo);
    assert_eq!(Config::z_promennych(None, None, None, s("a"), s("d"), None).unwrap_err(), ChybaKonfigurace::ChybiApifyToken);
    assert_eq!(Config::z_promennych(None, None, s("t"), None, s("d"), None).unwrap_err(), ChybaKonfigurace::ChybiActor);
    assert_eq!(Config::z_promennych(None, None, s("t"), s("a"), None, None).unwrap_err(), ChybaKonfigurace::ChybiDatabaseUrl);
    assert_eq!(ChybaKonfigurace::ChybiDatabaseUrl.zprava(), "DATABASE_URL chybí");
}

/// Reads a query string as a request does: parts at `&`, key and value at the first
/// `=`, `+` as a space, `%XX` as a byte.
fn precti_dotaz(q: &str) -> HashMap<String, String> {
    pary(q).into_iter().collect()
}

/// The pairs of a query string, in order, empty parts skipped.
fn pary(q: &str) -> Vec<(String, String)> {
    fn dekoduj(s: &str) -> String {
        let b = s.as_bytes();
        let mut out: Vec<u8> = Vec::new();
        let mut i = 0;
        while i < b.len() {
            if b[i] == b'%' && i + 2 < b.len() {
                let h = std::str::from_utf8(&b[i + 1..i + 3]).unwrap();
                out.push(u8::from_str_radix(h, 16).unwrap());
                i += 3;
            } else if b[i] == b'+' {
                out.push(b' ');
                i += 1;
            } else {
                out.push(b[i]);
                i += 1;
            }
        }
        String::from_utf8(out).unwrap()
    }
    q.split('&')
        .filter(|c| !c.is_empty())
        .map(|cast| {
            let (k, v) = cast.split_once('=').unwrap_or((cast, ""));
            (dekoduj(k), dekoduj(v))
        })
        .collect()
}

#[test]
fn odkaz_nese_filtr_zpet() {
    for f in [
        filtry(2, "Nové Město & okolí", "kontaktovane", "CZ"),
        filtry(1, "", "", ""),
        filtry(41, "a+b=c%", "smluvene", ""),
        filtry(9_000_000_000, "", "", "PL"),
    ] {
        let url = f.url();
        assert!(url.starts_with("/?"));
        let zpet = Filtry::z_params(&precti_dotaz(&url[2..]));
        assert_eq!(
            (zpet.page, zpet.search.as_str(), zpet.stav.as_str(), zpet.zeme.as_str()),
            (f.page, f.search.as_str(), f.stav.as_str(), f.zeme.as_str())
        );
        assert_eq!(f.url_detailu(7), format!("/provozovna/7{}", &url[1..]));
    }
}

#[test]
fn suffix_nese_presne_filtr() {
    let f = filtry(3, "Nové + Město=1", "", "PL");
    let s = f.suffix();
    assert!(s.starts_with('&'));
    assert_eq!(
        pary(&s),
        vec![("search".to_string(), "Nové + Město=1".to_string()), ("zeme".to_string(), "PL".to_string())]
    );
    assert_eq!(filtry(7, "", "", "").suffix(), "");
    assert!(pary(&filtry(7, "", "", "").suffix()).is_empty());
}

#[test]
fn odkazy_projdou_navratem() {
    for f in [filtry(2, "a\nb / c", "smluvene", "CZ"), filtry(-4, "", "", ""), filtry(1, "x", "", "")] {
        let u = f.url();
        assert_eq!(bezpecny_navrat(Some(&u)), u);
        let d = f.url_detailu(-12);
        assert_eq!(bezpecny_navrat(Some(&d)), d);
    }
}

#[test]
fn dotazy_vypisu_berou_prazdny_vzor_jako_bez_filtru() {
    assert!(dotaz_vypisu().contains("WHERE ($3 = '' OR p.mesto ILIKE $3)"));
    assert!(dotaz_vypisu().contains("LIMIT $1 OFFSET $2"));
    assert!(dotaz_poctu().contains("WHERE ($1 = '' OR mesto ILIKE $1)"));
    assert_eq!(vzor_hledani(""), "");
}
