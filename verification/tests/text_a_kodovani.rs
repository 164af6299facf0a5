use ivan_scraper::kodovani::enkoduj;
use ivan_scraper::kontakt::FormularKontaktu;
use ivan_scraper::text::{
    konci, obsahuje, obsahuje_znak, orizni, parsuj_i32, parsuj_i64, parsuj_u16,
    prvnich, pripoj_cislo, stejne, text_ze_znaku, zacina, znaky,
};

#[test]
fn cislo_i64_se_cte_jako_from_str() {
    assert_eq!(parsuj_i64("42"), Some(42));
    assert_eq!(parsuj_i64("+7"), Some(7));
    assert_eq!(parsuj_i64("-0"), Some(0));
    assert_eq!(parsuj_i64("-15"), Some(-15));
    assert_eq!(parsuj_i64("007"), Some(7));
    assert_eq!(parsuj_i64(""), None);
    assert_eq!(parsuj_i64("+"), None);
    assert_eq!(parsuj_i64("-"), None);
    assert_eq!(parsuj_i64("1a"), None);
    assert_eq!(parsuj_i64(" 5"), None);
    assert_eq!(parsuj_i64("+-5"), None);
    assert_eq!(parsuj_i64("9223372036854775807"), Some(i64::MAX));
    assert_eq!(parsuj_i64("9223372036854775808"), None);
    assert_eq!(parsuj_i64("-9223372036854775808"), Some(i64::MIN));
    assert_eq!(parsuj_i64("-9223372036854775809"), None);
    assert_eq!(parsuj_i64("123456789012345678901234567890"), None);
}

#[test]
fn cisla_souhlasi_se_std() {
    for s in ["0", "12", "-12", "+3", "", "x", "2147483647", "2147483648", "-2147483648", "65535", "65536", "-1", "+65535", "٣"] {
        assert_eq!(parsuj_i64(s), s.parse::<i64>().ok(), "{s}");
        assert_eq!(parsuj_i32(s), s.parse::<i32>().ok(), "{s}");
        assert_eq!(parsuj_u16(s), s.parse::<u16>().ok(), "{s}");
    }
}

#[test]
fn orezani_jako_trim() {
    for s in ["  a b \n", "\u{3000}x\u{a0}", "", "   ", "abc", "\t\r\n x \u{2029}", "\u{200b}y"] {
        assert_eq!(orizni(s), s.trim(), "{s:?}");
    }
}

#[test]
fn porovnani_textu() {
    assert!(stejne("abc", "abc"));
    assert!(!stejne("abc", "abd"));
    assert!(!stejne("ab", "abc"));
    assert!(zacina("session=x", "session="));
    assert!(!zacina("sess", "session="));
    assert!(konci("a@b", "@b"));
    assert!(obsahuje("text/html, application/json", "application/json"));
    assert!(!obsahuje("text/html", "application/json"));
    assert!(obsahuje("abc", ""));
    assert!(obsahuje_znak("a@b", '@'));
    assert!(!obsahuje_znak("ab", '@'));
    assert_eq!(prvnich("žluťoučký", 4), "žluť");
    assert_eq!(prvnich("ab", 4), "ab");
    assert_eq!(znaky("až"), vec!['a', 'ž']);
    assert_eq!(text_ze_znaku(&['x', 'ý']), "xý");
}

#[test]
fn cisla_jako_text() {
    for n in [0i64, 7, 10, 99, 100, -1, -250, i64::MAX, i64::MIN] {
        let mut s = String::from("n=");
        pripoj_cislo(&mut s, n);
        assert_eq!(s, format!("n={n}"));
    }
}

#[test]
fn mala_pismena() {
    let pole = vec![("email".to_string(), " ÁBC@Example.CZ ".to_string())];
    assert_eq!(FormularKontaktu::z_pole(&pole).emaily, vec!["ábc@example.cz".to_string()]);
}

#[test]
fn procentni_kodovani() {
    assert_eq!(enkoduj("Praha 1"), "Praha%201");
    assert_eq!(enkoduj("ž"), "%C5%BE");
    assert_eq!(enkoduj("a-_.~Z09"), "a-_.~Z09");
    assert_eq!(enkoduj("&=?#/"), "%26%3D%3F%23%2F");
    assert_eq!(enkoduj(""), "");
}

#[test]
fn kodovani_pise_jen_nevyhrazene_znaky_a_procento() {
    let e = enkoduj("a&b=c d#e\nž?");
    assert!(e.chars().all(|c| c == '%' || c.is_ascii_alphanumeric() || "-_.~".contains(c)));
}
