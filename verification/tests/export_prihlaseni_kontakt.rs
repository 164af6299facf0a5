use std::collections::BTreeSet;

use ivan_scraper::apify::{
    hlavicka_autorizace, odeslat_email, parametry_behu, predmet_emailu, rozdel_podle_vlozeni,
    url_behu, url_datasetu, vstup_aktoru, ParametryBehu,
};
use ivan_scraper::export::{
    dotaz_exportu, omez_limit, parametry_exportu, prvky_vyberu, radky_tabulky, spoj,
    FormatExportu, FormularExportu, ProvozovnaExport, Razeni,
};
use ivan_scraper::kontakt::{mapa_url, priprav_poznamku, telefon_k_ulozeni, FormularKontaktu};
use ivan_scraper::nastaveni::ScraperConfig;
use ivan_scraper::prihlaseni::{
    cookie_session, kod_odpovida, prihlas, session_platna, session_z_cookie,
};
use ivan_scraper::xlsx::{do_xlsx, list_exportu, sesit_exportu};

fn pole(pary: &[(&str, &str)]) -> Vec<(String, String)> {
    pary.iter().map(|(k, v)| (k.to_string(), v.to_string())).collect()
}

#[test]
fn formular_exportu() {
    let f = FormularExportu::z_pole(&pole(&[
        ("format", " excel "), ("razeni", "datum_desc"), ("limit", "50000"), ("mesto", " Brno "),
        ("stav", "smluvene"), ("zeme", "pl"), ("jen_vybrane", "off"),
    ]));
    assert_eq!(f.format.as_deref(), Some("excel"));
    assert_eq!(f.razeni, Some(Razeni::DatumDesc));
    assert_eq!(f.limit, Some(50000));
    assert_eq!(f.mesto.as_deref(), Some("Brno"));
    assert_eq!((f.stav.as_str(), f.zeme.as_str(), f.jen_vybrane), ("smluvene", "", false));
    let p = parametry_exportu(f, &BTreeSet::new());
    assert_eq!((p.format, p.razeni, p.limit), (FormatExportu::Excel, Razeni::DatumDesc, 10_000));
    assert_eq!(p.mesto.as_deref(), Some("Brno"));
    assert!(p.ids.is_none());

    let f = FormularExportu::z_pole(&pole(&[("razeni", "nazev_desc"), ("razeni", "; DROP TABLE"), ("limit", "-3"), ("mesto", ""), ("stav", "x")]));
    let p = parametry_exportu(f, &BTreeSet::new());
    assert_eq!((p.format, p.razeni, p.limit, p.mesto, p.stav.as_str()), (FormatExportu::Json, Razeni::NazevAsc, 1, None, ""));

    let f = FormularExportu::z_pole(&pole(&[("format", "csv"), ("jen_vybrane", "1"), ("mesto", "Brno"), ("zeme", "CZ"), ("razeni", "datum_asc")]));
    let vyber: BTreeSet<i32> = [9, 2, 5].into_iter().collect();
    let p = parametry_exportu(f, &vyber);
    assert_eq!((p.format, p.razeni, p.limit, p.mesto, p.zeme.as_str()), (FormatExportu::Neznamy, Razeni::DatumAsc, 10_000, None, ""));
    assert_eq!(p.ids, Some(vec![2, 5, 9]));

    let f = FormularExportu::z_pole(&pole(&[("jen_vybrane", "true"), ("limit", "20")]));
    let p = parametry_exportu(f, &BTreeSet::new());
    assert_eq!((p.limit, p.ids), (20, None));
    assert_eq!(omez_limit(0), 1);
    assert_eq!(omez_limit(500), 500);
    assert_eq!(prvky_vyberu(&[5, -1, 3].into_iter().collect()), vec![-1, 3, 5]);
}

#[test]
fn dotaz_a_hlavicky() {
    let d = dotaz_exportu(Razeni::DatumDesc);
    assert!(d.contains("ORDER BY p.created_at DESC\n        LIMIT $3"));
    assert!(d.contains("'{}'"));
    assert_eq!(Razeni::NazevAsc.sql(), "p.nazev ASC");
    assert_eq!(Razeni::z_textu("nazev_desc"), Some(Razeni::NazevDesc));
    assert_eq!(Razeni::z_textu("x"), None);
    assert_eq!(FormatExportu::z_textu("xml"), FormatExportu::Xml);
    assert_eq!(FormatExportu::Xml.hlavicky(), Some(("application/xml; charset=utf-8", "attachment; filename=\"provozovny.xml\"")));
    assert_eq!(FormatExportu::Neznamy.hlavicky(), None);
}

fn provozovna(id: i32, nazev: &str, emaily: &[&str]) -> ProvozovnaExport {
    ProvozovnaExport {
        id,
        nazev: nazev.into(),
        mesto: Some("Brno".into()),
        telefon: None,
        web: Some("https://x.cz".into()),
        emaily: emaily.iter().map(|e| e.to_string()).collect(),
    }
}

#[test]
fn radky_a_tabulka() {
    assert_eq!(spoj(&vec!["a".into(), "b".into(), "c".into()], "; "), "a; b; c");
    assert_eq!(spoj(&vec![], "; "), "");
    let data = vec![provozovna(1, "Kavárna", &["a@x.cz", "b@x.cz"]), provozovna(2, "Bar", &[])];
    let r = radky_tabulky(&data);
    assert_eq!(r[0], vec!["Název", "Město", "Telefon", "Web", "E-maily"]);
    assert_eq!(r[1], vec!["Kavárna", "Brno", "", "https://x.cz", "a@x.cz; b@x.cz"]);
    assert_eq!(r[2][4], "");
    let xlsx = do_xlsx(&data).unwrap();
    assert_eq!(&xlsx[..2], b"PK");
}

#[test]
fn prihlaseni_a_cookie() {
    let k = "tajne".to_string();
    let p = prihlas(Some(&k), Some(&k)).unwrap();
    assert_eq!(p.id.len(), 36);
    assert_eq!(p.cookie, format!("session={}; HttpOnly; Secure; SameSite=Lax; Path=/; Max-Age=86400", p.id));
    assert_eq!(session_z_cookie(&format!("session={}", p.id)), Some(p.id.clone()));
    assert_eq!(session_z_cookie(&p.cookie), Some(p.id.clone()));
    assert!(prihlas(Some(&"jine".to_string()), Some(&k)).is_none());
    assert!(prihlas(None, Some(&k)).is_none());
    assert!(kod_odpovida(None, None));
    assert!(kod_odpovida(Some(&String::new()), None));
    assert_eq!(cookie_session("x"), "session=x; HttpOnly; Secure; SameSite=Lax; Path=/; Max-Age=86400");
}

#[test]
fn cteni_cookie() {
    assert_eq!(session_z_cookie("vyber=abc; session=123; x=y").as_deref(), Some("123"));
    assert_eq!(session_z_cookie("  session=  42  ").as_deref(), Some("  42"));
    assert_eq!(session_z_cookie("session=session=7").as_deref(), Some("7"));
    assert_eq!(session_z_cookie("a=1;b=2"), None);
    assert_eq!(session_z_cookie(""), None);
    assert_eq!(session_z_cookie("xsession=1; session=2").as_deref(), Some("2"));
    assert_eq!(session_z_cookie("session=;x").as_deref(), Some(""));
    assert!(session_platna(Some(0)));
    assert!(session_platna(Some(86_399)));
    assert!(!session_platna(Some(86_400)));
    assert!(!session_platna(None));
}

#[test]
fn kontakt_a_poznamka() {
    let f = FormularKontaktu::z_pole(&pole(&[
        ("id", " 12 "), ("telefon", " +420 123 "), ("email", " A@B.cz "), ("email", "a@b.cz"),
        ("email", "@x"), ("email", "x@"), ("email", "a b@c"), ("email", ""), ("email", "c@d"), ("zpet", "/provozovna/12"),
    ]));
    assert_eq!(f.id, Some(12));
    assert_eq!(f.telefon, "+420 123");
    assert_eq!(f.emaily, vec!["a@b.cz".to_string(), "c@d".to_string()]);
    assert_eq!(f.zpet.as_deref(), Some("/provozovna/12"));
    let mnoho: Vec<(String, String)> = (0..30).map(|i| ("email".to_string(), format!("e{i}@x.cz"))).collect();
    assert_eq!(FormularKontaktu::z_pole(&mnoho).emaily.len(), 20);
    assert_eq!(telefon_k_ulozeni(String::new()), None);
    assert_eq!(telefon_k_ulozeni("1".into()), Some("1".to_string()));

    assert_eq!(priprav_poznamku("  <script>alert(1)</script><b>ahoj</b>  "), "ahoj");
    assert_eq!(
        priprav_poznamku("<a href=\"https://x.cz\" onclick=\"y\">l</a>"),
        "<a href=\"https://x.cz\" rel=\"noopener noreferrer nofollow\">l</a>"
    );
    assert_eq!(priprav_poznamku("<a href=\"javascript:x\">l</a>"), "<a rel=\"noopener noreferrer nofollow\">l</a>");
    let dlouha = "ž".repeat(50_010);
    assert_eq!(priprav_poznamku(&dlouha).chars().count(), 50_000);
}

#[test]
fn mapa() {
    assert_eq!(
        mapa_url(Some("K E Y"), "ChIJ/1", "Bar", None),
        "https://www.google.com/maps/embed/v1/place?key=K%20E%20Y&q=place_id:ChIJ%2F1&language=cs"
    );
    assert_eq!(mapa_url(None, "p", "Bar U Lva", Some("Brno 1")), "https://maps.google.com/maps?q=Bar%20U%20Lva%2C%20Brno%201&z=15&hl=cs&output=embed");
    assert_eq!(mapa_url(None, "p", "Bar", Some("")), "https://maps.google.com/maps?q=Bar&z=15&hl=cs&output=embed");
    assert_eq!(mapa_url(None, "p", "Bar", None), "https://maps.google.com/maps?q=Bar&z=15&hl=cs&output=embed");
}

#[test]
fn apify() {
    assert_eq!(url_datasetu("abc"), "https://api.apify.com/v2/datasets/abc/items");
    assert_eq!(url_behu("act~x"), "https://api.apify.com/v2/actors/act~x/runs");
    assert_eq!(hlavicka_autorizace("t0k"), "Bearer t0k");
    assert_eq!(predmet_emailu(3), "Nové kontakty — 3 firem");
    let mista = vec!["a", "b", "c", "d"];
    let (nove, stare) = rozdel_podle_vlozeni(&mista, &vec![true, false, true, false]);
    assert_eq!(nove, vec![&"a", &"c"]);
    assert_eq!(stare, vec![&"b", &"d"]);
    assert!(odeslat_email(1));
    assert!(!odeslat_email(0));
    assert!(parametry_behu(None).is_none());
    let c = ScraperConfig { lokace: "Praha".into(), vyrazy: vec![], max_kontaktu: 20, cron_enabled: true };
    assert!(parametry_behu(Some(c)).is_none());
    let c = ScraperConfig { lokace: "Praha".into(), vyrazy: vec!["bar".into()], max_kontaktu: 20, cron_enabled: true };
    let p = parametry_behu(Some(c)).unwrap();
    assert_eq!((p.lokace.as_str(), p.vyrazy.len(), p.max_kontaktu), ("Praha", 1, 20));
}

#[test]
fn bunky_do_limitu_excelu() {
    let v_limitu = "a".repeat(32_767);
    assert!(list_exportu(&vec![provozovna(1, &v_limitu, &[])]).is_ok());
    assert!(do_xlsx(&vec![provozovna(1, &v_limitu, &[])]).is_ok());

    let dlouhy = "a".repeat(32_768);
    assert!(list_exportu(&vec![provozovna(1, &dlouhy, &[])]).is_err());
    assert!(do_xlsx(&vec![provozovna(1, &dlouhy, &[])]).is_err());

    // 20 000 characters outside the basic plane are 40 000 UTF-16 units.
    let smajliky = "😀".repeat(20_000);
    assert!(list_exportu(&vec![provozovna(1, "Bar", &[&smajliky])]).is_err());

    let prazdny = provozovna(1, "", &[]);
    assert!(list_exportu(&vec![prazdny]).is_ok());
}

#[test]
fn sesit_exportu_jen_pro_zapsatelnou_tabulku() {
    assert!(sesit_exportu(&vec![provozovna(1, "Kavárna", &["a@x.cz"])]).is_ok());
    assert!(sesit_exportu(&vec![provozovna(1, &"a".repeat(32_768), &[])]).is_err());
}

#[test]
fn vstup_aktoru_z_nastaveni() {
    let v = vstup_aktoru(ParametryBehu {
        lokace: "Brno".into(),
        vyrazy: vec!["kavárna".into(), "bar".into()],
        max_kontaktu: 25,
    });
    assert_eq!(v.location_query, "Brno");
    assert_eq!(v.search_strings_array, vec!["kavárna", "bar"]);
    assert_eq!(v.max_crawled_places_per_search, 25);
    assert_eq!(v.language, "cs");
    assert_eq!(v.website, "withWebsite");
    assert_eq!(v.place_minimum_stars, "threeAndHalf");
    assert_eq!(v.category_filter_words, vec!["cannabis club", "cannabis store", "vaporizer store"]);
    assert!(v.include_web_results && v.scrape_contacts && v.scrape_place_detail_page);
    assert!(v.skip_closed_places && v.scrape_reviews_personal_data);
    assert!(!v.scrape_directories && !v.scrape_image_authors && !v.scrape_order_online);
    assert!(!v.scrape_table_reservation_provider && !v.verify_leads_enrichment_emails);
    assert_eq!(v.maximum_leads_enrichment_records, 0);
    let p = &v.scrape_social_media_profiles;
    assert!(!(p.facebooks || p.instagrams || p.tiktoks || p.twitters || p.youtubes));
}
