//! The spreadsheet export, written with `rust_xlsxwriter`.
use rust_xlsxwriter::{Format, Workbook, Worksheet, XlsxError};
use vstd::prelude::*;
use crate::export::{bunky, hlavicka_tabulky, radky_tabulky, ProvozovnaExport};
use crate::filtry::texty;

verus! {

#[verifier::external_type_specification]
#[verifier::external_body]
pub struct ExWorkbook(Workbook);

#[verifier::external_type_specification]
#[verifier::external_body]
pub struct ExWorksheet(Worksheet);

#[verifier::external_type_specification]
#[verifier::external_body]
pub struct ExFormat(Format);

#[verifier::external_type_specification]
#[verifier::external_body]
pub struct ExXlsxError(XlsxError);

/// The strings written into the cells of a sheet, by row and column. With the crate's
/// `constant_memory` feature off, as here, a sheet keeps every cell it is given.
pub uninterp spec fn bunky_listu(list: Worksheet) -> Map<(u32, u16), Seq<char>>;

/// Whether a table (`Worksheet::add_table`) has been added to the sheet.
pub uninterp spec fn ma_tabulku(list: Worksheet) -> bool;

/// The cell at which the panes of a sheet are frozen (`(0, 0)`: none).
pub uninterp spec fn zmrazeni_listu(list: Worksheet) -> (u32, u16);

/// The range of the autofilter of a sheet (first row, first column, last row, last
/// column), if one was set.
pub uninterp spec fn filtr_listu(list: Worksheet) -> Option<(u32, u16, u32, u16)>;

/// The sheets of a workbook, in the order in which they were added: the cells, the
/// frozen cell and the autofilter of each.
pub uninterp spec fn listy_sesitu(sesit: Workbook) -> Seq<
    (Map<(u32, u16), Seq<char>>, (u32, u16), Option<(u32, u16, u32, u16)>),
>;

/// Rows of a sheet (`ROW_MAX` of the writer).
pub const RADKU_MAX: u32 = 1_048_576;

/// Columns of a sheet (`COL_MAX` of the writer).
pub const SLOUPCU_MAX: u16 = 16_384;

/// The longest text of a cell, in UTF-16 code units.
pub const MAX_DELKA_BUNKY: u64 = 32_767;

/// The length of `s` in UTF-16 code units (`str::encode_utf16().count()`): one for a
/// character of the basic plane, two for any other.
pub open spec fn delka_utf16(s: Seq<char>) -> nat
    decreases s.len(),
{
    if s.len() == 0 {
        0
    } else {
        (if (s[0] as u32) < 0x10000 {
            1nat
        } else {
            2nat
        }) + delka_utf16(s.drop_first())
    }
}

/// A character that a sheet name may not hold.
pub open spec fn zakazany_v_nazvu(c: char) -> bool {
    c == '*' || c == '?' || c == ':' || c == '[' || c == ']' || c == '\\' || c == '/'
}

/// A sheet name that Excel accepts: not empty, at most 31 UTF-16 units, none of
/// `*?:[]\/`, and no apostrophe at either end.
pub open spec fn platny_nazev_listu(n: Seq<char>) -> bool {
    &&& n.len() > 0
    &&& delka_utf16(n) <= 31
    &&& forall|i: int| 0 <= i < n.len() ==> !zakazany_v_nazvu(#[trigger] n[i])
    &&& n[0] != '\''
    &&& n.last() != '\''
}

/// Whether a string can stand in a cell of row `radek`: inside the sheet and not longer
/// than Excel allows. An empty string writes nothing and is never refused.
pub open spec fn zapsatelna(radek: int, sloupec: int, text: Seq<char>) -> bool {
    text.len() == 0 || (radek < RADKU_MAX && sloupec < SLOUPCU_MAX && delka_utf16(text)
        <= MAX_DELKA_BUNKY)
}

/// `Workbook::new`: a workbook without sheets.
#[verifier::external_body]
fn novy_sesit() -> (res: Workbook)
    ensures
        listy_sesitu(res).len() == 0,
{
    Workbook::new()
}

/// `Worksheet::new`: a sheet without cells and without tables.
#[verifier::external_body]
fn novy_list() -> (res: Worksheet)
    ensures
        bunky_listu(res).dom().is_empty(),
        !ma_tabulku(res),
        zmrazeni_listu(res) == (0u32, 0u16),
        filtr_listu(res) is None,
{
    Worksheet::new()
}

/// `Worksheet::set_name`: it succeeds exactly on a name that Excel accepts
/// (`validate_sheetname`), and leaves the cells as they were.
#[verifier::external_body]
fn pojmenuj_list(list: &mut Worksheet, nazev: &str) -> (res: Result<(), XlsxError>)
    ensures
        res is Ok <==> platny_nazev_listu(nazev@),
        bunky_listu(*final(list)) == bunky_listu(*old(list)),
        ma_tabulku(*final(list)) == ma_tabulku(*old(list)),
        zmrazeni_listu(*final(list)) == zmrazeni_listu(*old(list)),
        filtr_listu(*final(list)) == filtr_listu(*old(list)),
{
    list.set_name(nazev).map(|_| ())
}

/// `Format::new`: the default format.
#[verifier::external_body]
fn novy_format() -> Format {
    Format::new()
}

/// `Format::set_bold`.
#[verifier::external_body]
fn tucne(format: Format) -> Format {
    format.set_bold()
}

/// `Format::set_background_color` with a color given as an RGB hex string.
#[verifier::external_body]
fn barva_pozadi(format: Format, barva: &str) -> Format {
    format.set_background_color(barva)
}

/// `Worksheet::write_string_with_format`. A non-empty string is stored in the cell
/// when the cell is inside the sheet and the string not longer than Excel allows, and
/// refused otherwise; an empty string makes the cell blank, inside the sheet.
#[verifier::external_body]
fn zapis_s_formatem(
    list: &mut Worksheet,
    radek: u32,
    sloupec: u16,
    text: &str,
    format: &Format,
) -> (res: Result<(), XlsxError>)
    ensures
        res is Ok <==> (radek < RADKU_MAX && sloupec < SLOUPCU_MAX && (text@.len() == 0
            || delka_utf16(text@) <= MAX_DELKA_BUNKY)),
        bunky_listu(*final(list)) == if res is Err {
            bunky_listu(*old(list))
        } else if text@.len() == 0 {
            bunky_listu(*old(list)).remove((radek, sloupec))
        } else {
            bunky_listu(*old(list)).insert((radek, sloupec), text@)
        },
        ma_tabulku(*final(list)) == ma_tabulku(*old(list)),
        zmrazeni_listu(*final(list)) == zmrazeni_listu(*old(list)),
        filtr_listu(*final(list)) == filtr_listu(*old(list)),
{
    list.write_string_with_format(radek, sloupec, text, format).map(|_| ())
}

/// `Worksheet::write_string`: as `write_string_with_format`, but an empty string is
/// ignored.
#[verifier::external_body]
fn zapis(list: &mut Worksheet, radek: u32, sloupec: u16, text: &str) -> (res: Result<
    (),
    XlsxError,
>)
    ensures
        res is Ok <==> zapsatelna(radek as int, sloupec as int, text@),
        bunky_listu(*final(list)) == if res is Err || text@.len() == 0 {
            bunky_listu(*old(list))
        } else {
            bunky_listu(*old(list)).insert((radek, sloupec), text@)
        },
        ma_tabulku(*final(list)) == ma_tabulku(*old(list)),
        zmrazeni_listu(*final(list)) == zmrazeni_listu(*old(list)),
        filtr_listu(*final(list)) == filtr_listu(*old(list)),
{
    list.write_string(radek, sloupec, text).map(|_| ())
}

/// `Worksheet::set_freeze_panes`: it fails exactly outside the sheet; on success the
/// panes are frozen at the cell, and the cells, tables and autofilter stay as they
/// were.
#[verifier::external_body]
fn zmraz_panely(list: &mut Worksheet, radek: u32, sloupec: u16) -> (res: Result<(), XlsxError>)
    ensures
        res is Ok <==> (radek < RADKU_MAX && sloupec < SLOUPCU_MAX),
        bunky_listu(*final(list)) == bunky_listu(*old(list)),
        ma_tabulku(*final(list)) == ma_tabulku(*old(list)),
        res is Ok ==> zmrazeni_listu(*final(list)) == (radek, sloupec),
        res is Err ==> zmrazeni_listu(*final(list)) == zmrazeni_listu(*old(list)),
        filtr_listu(*final(list)) == filtr_listu(*old(list)),
{
    list.set_freeze_panes(radek, sloupec).map(|_| ())
}

/// `Worksheet::autofilter` over a range: it fails outside the sheet or for a reversed
/// range, succeeds otherwise on a sheet without tables (over a table's header it may
/// fail); on success the autofilter is the range. It leaves the cells, the tables and
/// the frozen cell as they were (what it leaves of an earlier autofilter when it fails
/// over a table is not stated).
#[verifier::external_body]
fn automaticky_filtr(
    list: &mut Worksheet,
    prvni_radek: u32,
    prvni_sloupec: u16,
    posledni_radek: u32,
    posledni_sloupec: u16,
) -> (res: Result<(), XlsxError>)
    ensures
        !(posledni_radek < RADKU_MAX && posledni_sloupec < SLOUPCU_MAX && prvni_radek
            <= posledni_radek && prvni_sloupec <= posledni_sloupec) ==> res is Err,
        posledni_radek < RADKU_MAX && posledni_sloupec < SLOUPCU_MAX && prvni_radek
            <= posledni_radek && prvni_sloupec <= posledni_sloupec && !ma_tabulku(*old(list))
            ==> res is Ok,
        bunky_listu(*final(list)) == bunky_listu(*old(list)),
        ma_tabulku(*final(list)) == ma_tabulku(*old(list)),
        zmrazeni_listu(*final(list)) == zmrazeni_listu(*old(list)),
        res is Ok ==> filtr_listu(*final(list)) == Some(
            (prvni_radek, prvni_sloupec, posledni_radek, posledni_sloupec),
        ),
{
    list.autofilter(prvni_radek, prvni_sloupec, posledni_radek, posledni_sloupec).map(|_| ())
}

/// `Worksheet::autofit`: it sets column widths and leaves the cells, the tables, the
/// frozen cell and the autofilter as they were.
#[verifier::external_body]
fn automaticka_sirka(list: &mut Worksheet)
    ensures
        bunky_listu(*final(list)) == bunky_listu(*old(list)),
        ma_tabulku(*final(list)) == ma_tabulku(*old(list)),
        zmrazeni_listu(*final(list)) == zmrazeni_listu(*old(list)),
        filtr_listu(*final(list)) == filtr_listu(*old(list)),
{
    list.autofit();
}

/// `Workbook::push_worksheet`: the sheet becomes the last one of the workbook, with its
/// cells, frozen cell and autofilter (a sheet without a name gets `SheetN`, which
/// changes none of these).
#[verifier::external_body]
fn pridej_list(sesit: &mut Workbook, list: Worksheet)
    ensures
        listy_sesitu(*final(sesit)) == listy_sesitu(*old(sesit)).push(
            (bunky_listu(list), zmrazeni_listu(list), filtr_listu(list)),
        ),
{
    sesit.push_worksheet(list);
}

/// `Workbook::save_to_buffer`: the bytes of the `.xlsx` file. The file records the
/// time it was made, so the bytes are not a function of the cells alone and nothing is
/// stated of them.
#[verifier::external_body]
fn uloz_do_bajtu(sesit: &mut Workbook) -> Result<Vec<u8>, XlsxError> {
    sesit.save_to_buffer()
}

/// `Display` of an `XlsxError`: its message. An `XlsxError` is opaque here, so nothing
/// is stated of the text.
#[verifier::external_body]
fn popis_chyby(chyba: &XlsxError) -> String {
    chyba.to_string()
}

/// Why the spreadsheet could not be written: the message of the writer.
#[derive(Debug)]
pub struct ChybaXlsx {
    pub zprava: String,
}

/// The error of the writer as the library's own error, carrying the writer's message.
fn chyba_xlsx(chyba: XlsxError) -> ChybaXlsx {
    ChybaXlsx { zprava: popis_chyby(&chyba) }
}

/// The rows of the export: the header, then the cells of each place.
pub open spec fn tabulka_exportu(data: Seq<ProvozovnaExport>) -> Seq<Seq<Seq<char>>> {
    seq![hlavicka_tabulky()] + data.map_values(|p: ProvozovnaExport| bunky(p))
}

/// Whether every cell of the rows can stand where it goes.
pub open spec fn tabulka_zapsatelna(t: Seq<Seq<Seq<char>>>) -> bool {
    forall|i: int, j: int|
        0 <= i < t.len() && 0 <= j < t[i].len() ==> zapsatelna(i, j, #[trigger] t[i][j])
}

/// The non-empty cells of the first `r` rows and of the first `c` columns of row `r`.
pub open spec fn bunky_do(t: Seq<Seq<Seq<char>>>, r: int, c: int) -> Map<(u32, u16), Seq<char>> {
    Map::new(
        |k: (u32, u16)|
            (k.0 < r || (k.0 == r && k.1 < c)) && k.0 < t.len() && k.1 < t[k.0 as int].len()
                && t[k.0 as int][k.1 as int].len() > 0,
        |k: (u32, u16)| t[k.0 as int][k.1 as int],
    )
}

/// The cells of a sheet that holds the rows `t`: each non-empty string at its row and
/// column.
pub open spec fn bunky_tabulky(t: Seq<Seq<Seq<char>>>) -> Map<(u32, u16), Seq<char>> {
    bunky_do(t, t.len() as int, 0)
}

/// The sheet "Provozovny" of the export: a bold grey header row, then one row per
/// place. It is made exactly when every cell can stand where it goes, and then holds
/// the rows of `tabulka_exportu`.
pub fn list_exportu(data: &Vec<ProvozovnaExport>) -> (res: Result<Worksheet, ChybaXlsx>)
    requires
        data@.len() < u32::MAX,
    ensures
        res is Ok <==> tabulka_zapsatelna(tabulka_exportu(data@)),
        res matches Ok(list) ==> bunky_listu(list) == bunky_tabulky(tabulka_exportu(data@))
            && !ma_tabulku(list),
{
    let ghost t = tabulka_exportu(data@);
    let radky = radky_tabulky(data);
    proof {
        assert forall|i: int| 0 <= i < t.len() implies texty((#[trigger] radky@[i])@) == t[i]
            && t[i].len() == 5 by {
            if i > 0 {
                assert(texty(radky@[(i - 1) + 1]@) == bunky(data@[i - 1]));
            }
        }
    }
    let mut list = novy_list();
    proof {
        reveal_strlit("Provozovny");
        assert(delka_utf16("Provozovny"@) == 10) by {
            reveal_with_fuel(delka_utf16, 11);
        }
    }
    if let Err(e) = pojmenuj_list(&mut list, "Provozovny") {
        return Err(chyba_xlsx(e));
    }
    let hlavicka = barva_pozadi(tucne(novy_format()), "D9D9D9");
    let pocet = radky.len();
    assert(bunky_listu(list) =~= bunky_do(t, 0, 0));
    let mut r: usize = 0;
    while r < pocet
        invariant
            t == tabulka_exportu(data@),
            pocet == t.len(),
            pocet == radky@.len(),
            pocet <= u32::MAX,
            r <= pocet,
            forall|i: int| 0 <= i < t.len() ==> texty((#[trigger] radky@[i])@) == t[i] && t[i].len()
                == 5,
            bunky_listu(list) == bunky_do(t, r as int, 0),
            !ma_tabulku(list),
            forall|i: int, j: int|
                0 <= i < r && 0 <= j < t[i].len() ==> zapsatelna(i, j, #[trigger] t[i][j]),
        decreases pocet - r,
    {
        let radek = &radky[r];
        let mut c: usize = 0;
        while c < 5
            invariant
                t == tabulka_exportu(data@),
                pocet == t.len(),
                pocet == radky@.len(),
                pocet <= u32::MAX,
                r < pocet,
                c <= 5,
                radek == radky@[r as int],
                texty(radek@) == t[r as int],
                t[r as int].len() == 5,
                bunky_listu(list) == bunky_do(t, r as int, c as int),
                !ma_tabulku(list),
                forall|i: int, j: int|
                    0 <= i < r && 0 <= j < t[i].len() ==> zapsatelna(i, j, #[trigger] t[i][j]),
                forall|j: int| 0 <= j < c ==> zapsatelna(r as int, j, #[trigger] t[r as int][j]),
            decreases 5 - c,
        {
            let bunka = radek[c].as_str();
            assert(bunka@ == t[r as int][c as int]);
            let ghost pred = bunky_listu(list);
            let v = if r == 0 {
                zapis_s_formatem(&mut list, 0, c as u16, bunka, &hlavicka)
            } else {
                zapis(&mut list, r as u32, c as u16, bunka)
            };
            if let Err(e) = v {
                proof {
                    assert(!zapsatelna(r as int, c as int, t[r as int][c as int]));
                    assert(!tabulka_zapsatelna(t));
                }
                return Err(chyba_xlsx(e));
            }
            assert(bunky_listu(list) =~= bunky_do(t, r as int, c + 1));
            c = c + 1;
        }
        assert(bunky_do(t, r as int, 5) =~= bunky_do(t, r + 1, 0));
        r = r + 1;
    }
    Ok(list)
}

/// The workbook of the export: the one sheet of `list_exportu`, its panes frozen below
/// the header row, an autofilter over the whole table, columns fitted to their content.
/// It is made exactly when every cell can stand where it goes and the table has fewer
/// rows than a sheet, and then holds that sheet alone.
pub fn sesit_exportu(data: &Vec<ProvozovnaExport>) -> (res: Result<Workbook, ChybaXlsx>)
    requires
        data@.len() < u32::MAX,
    ensures
        res is Ok <==> (tabulka_zapsatelna(tabulka_exportu(data@)) && data@.len() < RADKU_MAX),
        res matches Ok(sesit) ==> listy_sesitu(sesit) == seq![
            (
                bunky_tabulky(tabulka_exportu(data@)),
                (1u32, 0u16),
                Some((0u32, 0u16, data@.len() as u32, 4u16)),
            ),
        ],
{
    let mut list = match list_exportu(data) {
        Ok(l) => l,
        Err(e) => {
            return Err(e);
        },
    };
    if let Err(e) = zmraz_panely(&mut list, 1, 0) {
        return Err(chyba_xlsx(e));
    }
    let n = data.len();
    if let Err(e) = automaticky_filtr(&mut list, 0, 0, n as u32, 4) {
        return Err(chyba_xlsx(e));
    }
    automaticka_sirka(&mut list);
    let mut sesit = novy_sesit();
    pridej_list(&mut sesit, list);
    assert(listy_sesitu(sesit) =~= seq![
        (
            bunky_tabulky(tabulka_exportu(data@)),
            (1u32, 0u16),
            Some((0u32, 0u16, data@.len() as u32, 4u16)),
        ),
    ]);
    Ok(sesit)
}

/// The export as an `.xlsx` file: the workbook of `sesit_exportu`, saved. It fails
/// where that workbook cannot be made; otherwise whether saving succeeds is decided by
/// `Workbook::save_to_buffer`, whose success rests on the whole state of the workbook
/// and is not stated. The bytes record the time the file was made, so nothing is
/// stated of them either.
pub fn do_xlsx(data: &Vec<ProvozovnaExport>) -> (res: Result<Vec<u8>, ChybaXlsx>)
    requires
        data@.len() < u32::MAX,
    ensures
        !tabulka_zapsatelna(tabulka_exportu(data@)) || data@.len() >= RADKU_MAX ==> res is Err,
{
    let mut sesit = match sesit_exportu(data) {
        Ok(s) => s,
        Err(e) => {
            return Err(e);
        },
    };
    match uloz_do_bajtu(&mut sesit) {
        Ok(b) => Ok(b),
        Err(e) => Err(chyba_xlsx(e)),
    }
}

} // verus!
