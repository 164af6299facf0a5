use std::collections::{BTreeSet, HashMap};

use ivan_scraper::nastaveni::{
    cron_povolen_podle, navrat_po_ulozeni, po_overeni_lokace, posud_nastaveni, sloupce_vyrazu,
    stranka_nastaveni, vyrazy_k_zobrazeni, ChybaNastaveni, FormularNastaveni, KrokUlozeni,
    ScraperConfig, MAX_VYRAZU,
};
use ivan_scraper::vyber::{
    akce_z_textu, chce_json, procisti_vyber, uprav_vyber, AkceVyberu, FormularVyberu,
};

fn pole(pary: &[(&str, &str)]) -> Vec<(String, String)> {
    pary.iter().map(|(k, v)| (k.to_string(), v.to_string())).collect()
}

#[test]
fn konfigurace_z_radku() {
    let sloupce = vec![Some("kavárna".to_string()), None, Some("  ".to_string()), Some(" bar ".to_string()), Some(String::new())];
    let c = ScraperConfig::z_radku("Praha".into(), 20, true, &sloupce);
    assert_eq!(c.vyrazy, vec!["kavárna".to_string(), " bar ".to_string()]);
    assert_eq!((c.lokace.as_str(), c.max_kontaktu, c.cron_enabled), ("Praha", 20, true));
}

#[test]
fn cron() {
    assert!(cron_povolen_podle(Ok(Some(true))));
    assert!(!cron_povolen_podle(Ok(Some(false))));
    assert!(!cron_povolen_podle(Ok(None)));
    assert!(!cron_povolen_podle(Err(())));
}

#[test]
fn stranka_bez_konfigurace() {
    let params: HashMap<String, String> = [("chyba".to_string(), "lokace".to_string())].into_iter().collect();
    let s = stranka_nastaveni(None, &params);
    assert_eq!((s.lokace.as_str(), s.max_kontaktu, s.cron_enabled, s.ulozeno, s.chyba.as_str()), ("", 30, true, false, "lokace"));
    assert_eq!(s.vyrazy, vec![String::new()]);

    let params: HashMap<String, String> = [("ulozeno".to_string(), "1".to_string())].into_iter().collect();
    let c = ScraperConfig { lokace: "Brno".into(), vyrazy: vec!["bar".into()], max_kontaktu: 12, cron_enabled: false };
    let s = stranka_nastaveni(Some(c), &params);
    assert_eq!((s.lokace.as_str(), s.max_kontaktu, s.cron_enabled, s.ulozeno, s.chyba.as_str()), ("Brno", 12, false, true, ""));
    assert_eq!(s.vyrazy, vec!["bar".to_string()]);
    assert_eq!(vyrazy_k_zobrazeni(&vec![]), vec![String::new()]);
}

#[test]
fn formular_nastaveni() {
    let mut p = pole(&[("lokace", "  Praha "), ("max_kontaktu", " 25 "), ("cron_enabled", "on"), ("vyraz", " bar "), ("vyraz", "   "), ("neznamy", "x")]);
    for i in 0..12 {
        p.push(("vyraz".into(), format!("v{i}")));
    }
    let f = FormularNastaveni::z_pole(&p);
    assert_eq!(f.lokace, "Praha");
    assert_eq!(f.max_kontaktu, Some(25));
    assert!(f.cron_enabled);
    assert_eq!(f.vyrazy.len(), MAX_VYRAZU);
    assert_eq!(f.vyrazy[0], "bar");
    assert_eq!(f.vyrazy[9], "v8");
    assert_eq!(posud_nastaveni(&f), KrokUlozeni::OveritLokaci { max_kontaktu: 25 });

    let f = FormularNastaveni::z_pole(&pole(&[("max_kontaktu", "abc")]));
    assert!(!f.cron_enabled);
    assert_eq!(posud_nastaveni(&f), KrokUlozeni::Vykreslit { max_kontaktu: 30, chyba: ChybaNastaveni::Pocet });
    let f = FormularNastaveni::z_pole(&pole(&[("max_kontaktu", "51")]));
    assert_eq!(posud_nastaveni(&f), KrokUlozeni::Vykreslit { max_kontaktu: 51, chyba: ChybaNastaveni::Pocet });
    let f = FormularNastaveni::z_pole(&pole(&[("max_kontaktu", "1")]));
    assert_eq!(posud_nastaveni(&f), KrokUlozeni::Ulozit { max_kontaktu: 1 });
    let dlouha = "x".repeat(121);
    let f = FormularNastaveni::z_pole(&pole(&[("max_kontaktu", "50"), ("lokace", &dlouha)]));
    assert_eq!(posud_nastaveni(&f), KrokUlozeni::Vykreslit { max_kontaktu: 50, chyba: ChybaNastaveni::Lokace });
    let presne = "ž".repeat(120);
    let f = FormularNastaveni::z_pole(&pole(&[("max_kontaktu", "50"), ("lokace", &presne)]));
    assert_eq!(posud_nastaveni(&f), KrokUlozeni::OveritLokaci { max_kontaktu: 50 });

    assert_eq!(po_overeni_lokace(7, Some(true)), KrokUlozeni::Ulozit { max_kontaktu: 7 });
    assert_eq!(po_overeni_lokace(7, Some(false)), KrokUlozeni::Vykreslit { max_kontaktu: 7, chyba: ChybaNastaveni::Lokace });
    assert_eq!(po_overeni_lokace(7, None), KrokUlozeni::Vykreslit { max_kontaktu: 7, chyba: ChybaNastaveni::Overeni });
    assert_eq!(ChybaNastaveni::Overeni.kod(), "overeni");
}

#[test]
fn ulozeni() {
    let s = sloupce_vyrazu(&vec!["a".into(), "b".into()]);
    assert_eq!(s.len(), 10);
    assert_eq!(s[0], Some("a".to_string()));
    assert_eq!(s[1], Some("b".to_string()));
    assert!(s[2..].iter().all(|v| v.is_none()));
    assert_eq!(navrat_po_ulozeni(Some(1)), "/nastaveni?ulozeno=1");
    assert_eq!(navrat_po_ulozeni(Some(0)), "/nastaveni?chyba=ulozeni");
    assert_eq!(navrat_po_ulozeni(None), "/nastaveni?chyba=ulozeni");
}

#[test]
fn vyber() {
    let f = FormularVyberu::z_pole(&pole(&[("akce", "pridat"), ("id", "3"), ("id", " 7 "), ("id", "x"), ("zpet", "/?page=2")]));
    assert_eq!(f.akce, "pridat");
    assert_eq!(f.ids, vec![3, 7]);
    assert_eq!(f.zpet.as_deref(), Some("/?page=2"));
    assert_eq!(akce_z_textu("pridat"), Some(AkceVyberu::Pridat));
    assert_eq!(akce_z_textu("odebrat"), Some(AkceVyberu::Odebrat));
    assert_eq!(akce_z_textu("zrusit"), Some(AkceVyberu::Zrusit));
    assert_eq!(akce_z_textu("smazat"), None);

    let mut v: BTreeSet<i32> = [1, 3].into_iter().collect();
    uprav_vyber(&mut v, AkceVyberu::Pridat, &vec![3, 7]);
    assert_eq!(v, [1, 3, 7].into_iter().collect());
    uprav_vyber(&mut v, AkceVyberu::Odebrat, &vec![1, 9]);
    assert_eq!(v, [3, 7].into_iter().collect());
    uprav_vyber(&mut v, AkceVyberu::Zrusit, &vec![]);
    assert!(v.is_empty());

    assert!(chce_json(Some("application/json")));
    assert!(chce_json(Some("text/html, application/json;q=0.9")));
    assert!(!chce_json(Some("text/html")));
    assert!(!chce_json(None));

    let v: BTreeSet<i32> = [1, 2, 3].into_iter().collect();
    let (nove, zmena) = procisti_vyber(&v, &vec![3, 1]);
    assert_eq!(nove, [1, 3].into_iter().collect());
    assert!(zmena);
    let (_, zmena) = procisti_vyber(&v, &vec![1, 2, 3]);
    assert!(!zmena);
}

#[test]
fn pridani_a_odebrani_vraci_vyber() {
    let puvodni: BTreeSet<i32> = [2, 5].into_iter().collect();
    let mut v = puvodni.clone();
    uprav_vyber(&mut v, AkceVyberu::Pridat, &vec![8, 1, 8]);
    let jednou = v.clone();
    uprav_vyber(&mut v, AkceVyberu::Pridat, &vec![8, 1, 8]);
    assert_eq!(v, jednou);
    uprav_vyber(&mut v, AkceVyberu::Odebrat, &vec![8, 1, 8]);
    assert_eq!(v, puvodni);
}
