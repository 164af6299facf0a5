//! Talking to Apify: the webhook that announces a finished run, the addresses of its
//! API, the split of scraped places into new and known ones, and the daily run.
use vstd::prelude::*;
use crate::filtry::texty;
use crate::nastaveni::ScraperConfig;
use crate::text::{dekadicky, pripoj, pripoj_cislo_u64, text};

verus! {

/// The body of the Apify webhook.
#[derive(Debug)]
pub struct ApifyWebhook {
    pub event_type: String,
    pub resource: ApifyResource,
}

/// The run that the webhook is about.
#[derive(Debug)]
pub struct ApifyResource {
    pub id: String,
    pub status: String,
    pub default_dataset_id: String,
}

/// The items of a dataset.
pub fn url_datasetu(dataset_id: &str) -> (res: String)
    ensures
        res@ == "https://api.apify.com/v2/datasets/"@ + dataset_id@ + "/items"@,
{
    let mut s = text("https://api.apify.com/v2/datasets/");
    pripoj(&mut s, dataset_id);
    pripoj(&mut s, "/items");
    s
}

/// The runs of an actor.
pub fn url_behu(actor_id: &str) -> (res: String)
    ensures
        res@ == "https://api.apify.com/v2/actors/"@ + actor_id@ + "/runs"@,
{
    let mut s = text("https://api.apify.com/v2/actors/");
    pripoj(&mut s, actor_id);
    pripoj(&mut s, "/runs");
    s
}

/// The `Authorization` header of the Apify API.
pub fn hlavicka_autorizace(token: &str) -> (res: String)
    ensures
        res@ == "Bearer "@ + token@,
{
    let mut s = text("Bearer ");
    pripoj(&mut s, token);
    s
}

/// The subject of the e-mail about new contacts.
pub fn predmet_emailu(pocet: usize) -> (res: String)
    ensures
        res@ == "Nové kontakty — "@ + dekadicky(pocet as nat) + " firem"@,
{
    let mut s = text("Nové kontakty — ");
    pripoj_cislo_u64(&mut s, pocet as u64);
    pripoj(&mut s, " firem");
    s
}

/// The items of `s` whose flag in `f` is `chci`, in order.
pub open spec fn podle_priznaku<T>(s: Seq<T>, f: Seq<bool>, chci: bool) -> Seq<T>
    decreases s.len(),
{
    if s.len() == 0 {
        Seq::empty()
    } else {
        let r = podle_priznaku(s.drop_last(), f, chci);
        if f[s.len() - 1] == chci {
            r.push(s.last())
        } else {
            r
        }
    }
}

/// Splits the scraped places into those that the database took as new (`vlozeno`) and
/// those it already had, keeping their order.
pub fn rozdel_podle_vlozeni<'a, T>(polozky: &'a Vec<T>, vlozeno: &Vec<bool>) -> (res: (
    Vec<&'a T>,
    Vec<&'a T>,
))
    requires
        vlozeno@.len() == polozky@.len(),
    ensures
        res.0@.map_values(|r: &T| *r) == podle_priznaku(polozky@, vlozeno@, true),
        res.1@.map_values(|r: &T| *r) == podle_priznaku(polozky@, vlozeno@, false),
{
    let mut nove: Vec<&'a T> = Vec::new();
    let mut existujici: Vec<&'a T> = Vec::new();
    let n = polozky.len();
    let mut i: usize = 0;
    while i < n
        invariant
            n == polozky@.len(),
            n == vlozeno@.len(),
            i <= n,
            nove@.map_values(|r: &T| *r) == podle_priznaku(polozky@.take(i as int), vlozeno@, true),
            existujici@.map_values(|r: &T| *r) == podle_priznaku(
                polozky@.take(i as int),
                vlozeno@,
                false,
            ),
        decreases n - i,
    {
        assert(polozky@.take(i + 1).drop_last() =~= polozky@.take(i as int));
        if vlozeno[i] {
            nove.push(&polozky[i]);
            assert(nove@.map_values(|r: &T| *r) =~= podle_priznaku(
                polozky@.take(i + 1),
                vlozeno@,
                true,
            ));
            assert(existujici@.map_values(|r: &T| *r) =~= podle_priznaku(
                polozky@.take(i + 1),
                vlozeno@,
                false,
            ));
        } else {
            existujici.push(&polozky[i]);
            assert(nove@.map_values(|r: &T| *r) =~= podle_priznaku(
                polozky@.take(i + 1),
                vlozeno@,
                true,
            ));
            assert(existujici@.map_values(|r: &T| *r) =~= podle_priznaku(
                polozky@.take(i + 1),
                vlozeno@,
                false,
            ));
        }
        i = i + 1;
    }
    assert(polozky@.take(n as int) =~= polozky@);
    (nove, existujici)
}

/// The split loses no place and adds none: the new and the known together are as many
/// as all places.
pub proof fn rozdeleni_zachova_pocet<T>(s: Seq<T>, f: Seq<bool>)
    requires
        f.len() == s.len(),
    ensures
        podle_priznaku(s, f, true).len() + podle_priznaku(s, f, false).len() == s.len(),
    decreases s.len(),
{
    if s.len() > 0 {
        rozdeleni_zachova_pocet(s.drop_last(), f.drop_last());
        lemma_priznaky_prefix(s.drop_last(), f, f.drop_last(), true);
        lemma_priznaky_prefix(s.drop_last(), f, f.drop_last(), false);
    }
}

proof fn lemma_priznaky_prefix<T>(s: Seq<T>, f: Seq<bool>, g: Seq<bool>, c: bool)
    requires
        s.len() <= f.len(),
        s.len() <= g.len(),
        forall|i: int| 0 <= i < s.len() ==> f[i] == g[i],
    ensures
        podle_priznaku(s, f, c) == podle_priznaku(s, g, c),
    decreases s.len(),
{
    if s.len() > 0 {
        lemma_priznaky_prefix(s.drop_last(), f, g, c);
    }
}

/// Whether an e-mail about new contacts is sent: only when there is some new one.
pub fn odeslat_email(pocet_novych: usize) -> (res: bool)
    ensures
        res == (pocet_novych > 0),
{
    pocet_novych > 0
}

/// What a daily run of the actor searches.
#[derive(Debug)]
pub struct ParametryBehu {
    pub lokace: String,
    pub vyrazy: Vec<String>,
    pub max_kontaktu: i32,
}

/// Whether the actor runs, from the loaded configuration (`None` when the row is
/// missing or the query failed): without a configuration or without search terms it
/// would run for nothing and only burn credit.
pub fn parametry_behu(config: Option<ScraperConfig>) -> (res: Option<ParametryBehu>)
    ensures
        match config {
            Some(c) => if c.vyrazy@.len() == 0 {
                res is None
            } else {
                res matches Some(p) && p.lokace == c.lokace && p.vyrazy == c.vyrazy
                    && p.max_kontaktu == c.max_kontaktu
            },
            None => res is None,
        },
{
    match config {
        Some(c) => {
            if c.vyrazy.len() == 0 {
                None
            } else {
                Some(
                    ParametryBehu {
                        lokace: c.lokace,
                        vyrazy: c.vyrazy,
                        max_kontaktu: c.max_kontaktu,
                    },
                )
            }
        },
        None => None,
    }
}

/// The social-media profiles that the actor is asked to scrape.
#[derive(Debug)]
pub struct SocialniProfily {
    pub facebooks: bool,
    pub instagrams: bool,
    pub tiktoks: bool,
    pub twitters: bool,
    pub youtubes: bool,
}

/// The input of the Google Maps actor for one run, field by field as the actor names
/// them.
#[derive(Debug)]
pub struct VstupAktoru {
    pub include_web_results: bool,
    pub language: String,
    pub location_query: String,
    pub max_crawled_places_per_search: i32,
    pub maximum_leads_enrichment_records: u32,
    pub scrape_contacts: bool,
    pub scrape_directories: bool,
    pub scrape_image_authors: bool,
    pub scrape_order_online: bool,
    pub scrape_place_detail_page: bool,
    pub scrape_reviews_personal_data: bool,
    pub scrape_social_media_profiles: SocialniProfily,
    pub scrape_table_reservation_provider: bool,
    pub search_strings_array: Vec<String>,
    pub skip_closed_places: bool,
    pub verify_leads_enrichment_emails: bool,
    pub website: String,
    pub category_filter_words: Vec<String>,
    pub place_minimum_stars: String,
}

/// The input of a run: the location, the search terms and the number of places per
/// term from the settings, and fixed choices: Czech results, places with a website and
/// at least three and a half stars, closed places skipped, contacts and the detail page
/// scraped, no social-media profiles, directories, images, orders or reservations, no
/// paid lead enrichment, and cannabis clubs and stores and vaporizer stores left out.
pub fn vstup_aktoru(beh: ParametryBehu) -> (res: VstupAktoru)
    ensures
        res.location_query == beh.lokace,
        res.search_strings_array == beh.vyrazy,
        res.max_crawled_places_per_search == beh.max_kontaktu,
        res.include_web_results,
        res.language@ == "cs"@,
        res.maximum_leads_enrichment_records == 0,
        res.scrape_contacts,
        !res.scrape_directories,
        !res.scrape_image_authors,
        !res.scrape_order_online,
        res.scrape_place_detail_page,
        res.scrape_reviews_personal_data,
        !res.scrape_social_media_profiles.facebooks,
        !res.scrape_social_media_profiles.instagrams,
        !res.scrape_social_media_profiles.tiktoks,
        !res.scrape_social_media_profiles.twitters,
        !res.scrape_social_media_profiles.youtubes,
        !res.scrape_table_reservation_provider,
        res.skip_closed_places,
        !res.verify_leads_enrichment_emails,
        res.website@ == "withWebsite"@,
        texty(res.category_filter_words@) == seq![
            "cannabis club"@,
            "cannabis store"@,
            "vaporizer store"@,
        ],
        res.place_minimum_stars@ == "threeAndHalf"@,
{
    let slova = vec![text("cannabis club"), text("cannabis store"), text("vaporizer store")];
    assert(texty(slova@) =~= seq!["cannabis club"@, "cannabis store"@, "vaporizer store"@]);
    VstupAktoru {
        include_web_results: true,
        language: text("cs"),
        location_query: beh.lokace,
        max_crawled_places_per_search: beh.max_kontaktu,
        maximum_leads_enrichment_records: 0,
        scrape_contacts: true,
        scrape_directories: false,
        scrape_image_authors: false,
        scrape_order_online: false,
        scrape_place_detail_page: true,
        scrape_reviews_personal_data: true,
        scrape_social_media_profiles: SocialniProfily {
            facebooks: false,
            instagrams: false,
            tiktoks: false,
            twitters: false,
            youtubes: false,
        },
        scrape_table_reservation_provider: false,
        search_strings_array: beh.vyrazy,
        skip_closed_places: true,
        verify_leads_enrichment_emails: false,
        website: text("withWebsite"),
        category_filter_words: slova,
        place_minimum_stars: text("threeAndHalf"),
    }
}

} // verus!
