//! The application's configuration, made from the values of environment variables.
use vstd::prelude::*;
use crate::text::{cislo_text, cislo_u16, parsuj_u16, pridej_znak, pripoj_cislo, text};

verus! {

#[derive(Debug, Clone)]
pub struct Config {
    pub host: String,
    pub port: u16,
    pub apify_token: String,
    pub apify_actor_id: String,
    pub database_url: String,
    /// Key of the Google Maps Embed API (`GOOGLE_MAPS_EMBED_KEY`); without it the map
    /// of a place is searched by its name and address.
    pub google_maps_embed_key: Option<String>,
}

/// Why the configuration could not be made.
#[derive(Debug, PartialEq, Eq, Structural)]
pub enum ChybaKonfigurace {
    /// `PORT` is set but is not a number in the range of `u16`.
    PortNeniCislo,
    /// `APIFY_API_TOKEN` is missing.
    ChybiApifyToken,
    /// `GOOGLE_MAPS_SCRAPER_TOKEN` is missing.
    ChybiActor,
    /// `DATABASE_URL` is missing.
    ChybiDatabaseUrl,
}

impl ChybaKonfigurace {
    /// The message that goes with the error.
    pub fn zprava(&self) -> (res: &'static str)
        ensures
            res@ == match self {
                ChybaKonfigurace::PortNeniCislo => "PORT musí být číslo"@,
                ChybaKonfigurace::ChybiApifyToken => "APIFY_API_TOKEN chybí"@,
                ChybaKonfigurace::ChybiActor => "GOOGLE_MAPS_SCRAPER_TOKEN chybí"@,
                ChybaKonfigurace::ChybiDatabaseUrl => "DATABASE_URL chybí"@,
            },
    {
        match self {
            ChybaKonfigurace::PortNeniCislo => "PORT musí být číslo",
            ChybaKonfigurace::ChybiApifyToken => "APIFY_API_TOKEN chybí",
            ChybaKonfigurace::ChybiActor => "GOOGLE_MAPS_SCRAPER_TOKEN chybí",
            ChybaKonfigurace::ChybiDatabaseUrl => "DATABASE_URL chybí",
        }
    }
}

/// The text of a variable, if it is set.
pub open spec fn text_v(p: Option<String>) -> Option<Seq<char>> {
    match p {
        Some(s) => Some(s@),
        None => None,
    }
}

/// The port that the text of `PORT` gives; `3000` when it is not set.
pub open spec fn port_z(port: Option<Seq<char>>) -> Option<u16> {
    match port {
        Some(p) => cislo_u16(p),
        None => cislo_u16("3000"@),
    }
}

impl Config {
    /// The configuration from the values of `HOST`, `PORT`, `APIFY_API_TOKEN`,
    /// `GOOGLE_MAPS_SCRAPER_TOKEN`, `DATABASE_URL` and `GOOGLE_MAPS_EMBED_KEY` (`None` for
    /// a variable that is not set). `HOST` falls back to `0.0.0.0` and `PORT` to `3000`,
    /// the embed key is optional; the errors are checked in this order.
    pub fn z_promennych(
        host: Option<String>,
        port: Option<String>,
        apify_token: Option<String>,
        apify_actor_id: Option<String>,
        database_url: Option<String>,
        google_maps_embed_key: Option<String>,
    ) -> (res: Result<Config, ChybaKonfigurace>)
        ensures
            port_z(text_v(port)) is None ==> res == Err::<Config, _>(
                ChybaKonfigurace::PortNeniCislo,
            ),
            port_z(text_v(port)) is Some && apify_token is None ==> res == Err::<Config, _>(
                ChybaKonfigurace::ChybiApifyToken,
            ),
            port_z(text_v(port)) is Some && apify_token is Some && apify_actor_id is None ==> res
                == Err::<Config, _>(ChybaKonfigurace::ChybiActor),
            port_z(text_v(port)) is Some && apify_token is Some && apify_actor_id is Some
                && database_url is None ==> res == Err::<Config, _>(
                ChybaKonfigurace::ChybiDatabaseUrl,
            ),
            res is Ok <==> (port_z(text_v(port)) is Some && apify_token is Some && apify_actor_id
                is Some && database_url is Some),
            res matches Ok(c) ==> {
                &&& c.host@ == match host {
                    Some(h) => h@,
                    None => "0.0.0.0"@,
                }
                &&& Some(c.port) == port_z(text_v(port))
                &&& Some(c.apify_token) == apify_token
                &&& Some(c.apify_actor_id) == apify_actor_id
                &&& Some(c.database_url) == database_url
                &&& c.google_maps_embed_key == google_maps_embed_key
            },
    {
        let host = match host {
            Some(h) => h,
            None => text("0.0.0.0"),
        };
        let cislo = match &port {
            Some(p) => parsuj_u16(p.as_str()),
            None => parsuj_u16("3000"),
        };
        let port = match cislo {
            Some(n) => n,
            None => {
                return Err(ChybaKonfigurace::PortNeniCislo);
            },
        };
        let apify_token = match apify_token {
            Some(t) => t,
            None => {
                return Err(ChybaKonfigurace::ChybiApifyToken);
            },
        };
        let apify_actor_id = match apify_actor_id {
            Some(t) => t,
            None => {
                return Err(ChybaKonfigurace::ChybiActor);
            },
        };
        let database_url = match database_url {
            Some(t) => t,
            None => {
                return Err(ChybaKonfigurace::ChybiDatabaseUrl);
            },
        };
        Ok(Config { host, port, apify_token, apify_actor_id, database_url, google_maps_embed_key })
    }

    /// `host:port`, the address to listen on.
    pub fn bind_addr(&self) -> (res: String)
        ensures
            res@ == self.host@ + seq![':'] + cislo_text(self.port as int),
    {
        let mut s = self.host.clone();
        pridej_znak(&mut s, ':');
        pripoj_cislo(&mut s, self.port as i64);
        s
    }
}

} // verus!
