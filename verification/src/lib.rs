pub mod text;
pub mod kodovani;
pub mod dotaz;
pub mod sql;
pub mod parametry;
pub mod filtry;
pub mod config;
pub mod nastaveni;
pub mod vyber;
pub mod export;
pub mod prihlaseni;
pub mod kontakt;
pub mod apify;
pub mod xlsx;
