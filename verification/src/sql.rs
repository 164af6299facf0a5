//! The filter conditions of the listing queries, as a small expression language: how
//! a condition is written into SQL, and which rows of `provozovny` it lets through.
use vstd::prelude::*;
use crate::text::dekadicky;

verus! {

/// The columns of `provozovny` that the filters read.
pub enum Sloupec {
    /// `mesto`, the city; may be `NULL`.
    Mesto,
    /// `is_contacted`, the place was contacted.
    Kontaktovano,
    /// `is_closed`, a contract was made with the place.
    Smluveno,
    /// `country_code`; may be `NULL`.
    Zeme,
}

/// A condition over one row and the query's parameters (`$1`, `$2`, … by number).
pub enum Podminka {
    /// `$k = ''`
    ParametrPrazdny(nat),
    /// `$k = 'text'`
    ParametrJe(nat, Seq<char>),
    /// A boolean column.
    Priznak(Sloupec),
    /// `column ILIKE $k`
    Podobny(Sloupec, nat),
    /// `column = $k`
    RovenParametru(Sloupec, nat),
    /// `(a AND b)`
    A(Box<Podminka>, Box<Podminka>),
    /// `(a OR b)`
    Nebo(Box<Podminka>, Box<Podminka>),
}

/// A row of `provozovny` as the filters see it.
pub struct RadekV {
    pub mesto: Option<Seq<char>>,
    pub kontaktovano: bool,
    pub smluveno: bool,
    pub zeme: Option<Seq<char>>,
}

pub open spec fn nazev_sloupce(s: Sloupec, alias: Seq<char>) -> Seq<char> {
    alias + match s {
        Sloupec::Mesto => "mesto"@,
        Sloupec::Kontaktovano => "is_contacted"@,
        Sloupec::Smluveno => "is_closed"@,
        Sloupec::Zeme => "country_code"@,
    }
}

/// `$k`.
pub open spec fn parametr(k: nat) -> Seq<char> {
    seq!['$'] + dekadicky(k)
}

/// How a condition is written, its columns prefixed by `alias` (`p.` or nothing).
pub open spec fn text_podminky(p: Podminka, alias: Seq<char>) -> Seq<char>
    decreases p,
{
    match p {
        Podminka::ParametrPrazdny(k) => parametr(k) + " = ''"@,
        Podminka::ParametrJe(k, t) => parametr(k) + " = '"@ + t + "'"@,
        Podminka::Priznak(s) => nazev_sloupce(s, alias),
        Podminka::Podobny(s, k) => nazev_sloupce(s, alias) + " ILIKE "@ + parametr(k),
        Podminka::RovenParametru(s, k) => nazev_sloupce(s, alias) + " = "@ + parametr(k),
        Podminka::A(a, b) => "("@ + text_podminky(*a, alias) + " AND "@ + text_podminky(
            *b,
            alias,
        ) + ")"@,
        Podminka::Nebo(a, b) => "("@ + text_podminky(*a, alias) + " OR "@ + text_podminky(
            *b,
            alias,
        ) + ")"@,
    }
}

/// The value of parameter `$k` among the parameters `$1`, `$2`, ….
pub open spec fn hodnota_parametru(parametry: Seq<Seq<char>>, k: nat) -> Seq<char> {
    parametry[k - 1]
}

/// Whether the condition lets the row through, for the parameters given. `ilike` is
/// what `ILIKE` answers for a value and a pattern. A comparison with `NULL` lets no
/// row through, as in a `WHERE` clause built of `AND` and `OR` alone.
pub open spec fn plati(
    p: Podminka,
    parametry: Seq<Seq<char>>,
    r: RadekV,
    ilike: spec_fn(Seq<char>, Seq<char>) -> bool,
) -> bool
    decreases p,
{
    match p {
        Podminka::ParametrPrazdny(k) => hodnota_parametru(parametry, k).len() == 0,
        Podminka::ParametrJe(k, t) => hodnota_parametru(parametry, k) == t,
        Podminka::Priznak(s) => match s {
            Sloupec::Kontaktovano => r.kontaktovano,
            Sloupec::Smluveno => r.smluveno,
            _ => false,
        },
        Podminka::Podobny(s, k) => match hodnota_sloupce(s, r) {
            Some(v) => ilike(v, hodnota_parametru(parametry, k)),
            None => false,
        },
        Podminka::RovenParametru(s, k) => hodnota_sloupce(s, r) == Some(
            hodnota_parametru(parametry, k),
        ),
        Podminka::A(a, b) => plati(*a, parametry, r, ilike) && plati(*b, parametry, r, ilike),
        Podminka::Nebo(a, b) => plati(*a, parametry, r, ilike) || plati(*b, parametry, r, ilike),
    }
}

/// The text of a text column of the row.
pub open spec fn hodnota_sloupce(s: Sloupec, r: RadekV) -> Option<Seq<char>> {
    match s {
        Sloupec::Mesto => r.mesto,
        Sloupec::Zeme => r.zeme,
        _ => None,
    }
}

/// A `WHERE` clause of conditions that must all hold, one per line.
pub open spec fn text_podminek(c: Seq<Podminka>, alias: Seq<char>) -> Seq<char>
    decreases c.len(),
{
    if c.len() == 0 {
        Seq::empty()
    } else if c.len() == 1 {
        text_podminky(c[0], alias)
    } else {
        text_podminky(c[0], alias) + "\n      AND "@ + text_podminek(c.drop_first(), alias)
    }
}

/// Whether all the conditions let the row through.
pub open spec fn plati_vse(
    c: Seq<Podminka>,
    parametry: Seq<Seq<char>>,
    r: RadekV,
    ilike: spec_fn(Seq<char>, Seq<char>) -> bool,
) -> bool {
    forall|i: int| 0 <= i < c.len() ==> plati(#[trigger] c[i], parametry, r, ilike)
}

/// The filters of the listing, over the city pattern `$m`, the state `$s` and the
/// country `$z`: a city matching the pattern (an empty pattern: any row), the flag that
/// the state names, the country.
pub open spec fn podminka_filtru(m: nat, s: nat, z: nat) -> Seq<Podminka> {
    seq![podminka_mesta(m), podminka_stavu(s), podminka_zeme(z)]
}

/// `($m = '' OR mesto ILIKE $m)`
pub open spec fn podminka_mesta(m: nat) -> Podminka {
    Podminka::Nebo(
        Box::new(Podminka::ParametrPrazdny(m)),
        Box::new(Podminka::Podobny(Sloupec::Mesto, m)),
    )
}

/// `($s = '' OR (($s = 'kontaktovane' AND is_contacted) OR ($s = 'smluvene' AND is_closed)))`
pub open spec fn podminka_stavu(s: nat) -> Podminka {
    Podminka::Nebo(
        Box::new(Podminka::ParametrPrazdny(s)),
        Box::new(
            Podminka::Nebo(
                Box::new(
                    Podminka::A(
                        Box::new(Podminka::ParametrJe(s, "kontaktovane"@)),
                        Box::new(Podminka::Priznak(Sloupec::Kontaktovano)),
                    ),
                ),
                Box::new(
                    Podminka::A(
                        Box::new(Podminka::ParametrJe(s, "smluvene"@)),
                        Box::new(Podminka::Priznak(Sloupec::Smluveno)),
                    ),
                ),
            ),
        ),
    )
}

/// `($z = '' OR country_code = $z)`
pub open spec fn podminka_zeme(z: nat) -> Podminka {
    Podminka::Nebo(
        Box::new(Podminka::ParametrPrazdny(z)),
        Box::new(Podminka::RovenParametru(Sloupec::Zeme, z)),
    )
}

proof fn lemma_parametr(k: nat)
    requires
        1 <= k <= 9,
    ensures
        parametr(k) == seq!['$', crate::text::cifra(k)],
{
    assert(parametr(k) =~= seq!['$', crate::text::cifra(k)]);
}

/// Three conditions, one per line.
proof fn lemma_text_tri(c: Seq<Podminka>, alias: Seq<char>)
    requires
        c.len() == 3,
    ensures
        text_podminek(c, alias) == text_podminky(c[0], alias) + "\n      AND "@ + (text_podminky(
            c[1],
            alias,
        ) + "\n      AND "@ + text_podminky(c[2], alias)),
{
    reveal_with_fuel(text_podminek, 3);
    assert(c.drop_first().len() == 2);
    assert(c.drop_first()[0] == c[1]);
    assert(c.drop_first().drop_first().len() == 1);
    assert(c.drop_first().drop_first()[0] == c[2]);
}

proof fn lemma_text_mesta(m: nat, alias: Seq<char>)
    requires
        1 <= m <= 9,
    ensures
        text_podminky(podminka_mesta(m), alias) == "("@ + seq!['$', crate::text::cifra(m)]
            + " = ''"@ + " OR "@ + (alias + "mesto"@) + " ILIKE "@ + seq!['$', crate::text::cifra(m)]
            + ")"@,
{
    lemma_parametr(m);
    reveal_with_fuel(text_podminky, 3);
}

proof fn lemma_text_stavu(s: nat, alias: Seq<char>)
    requires
        1 <= s <= 9,
    ensures
        text_podminky(podminka_stavu(s), alias) == "("@ + seq!['$', crate::text::cifra(s)]
            + " = ''"@ + " OR "@ + ("("@ + ("("@ + (seq!['$', crate::text::cifra(s)] + " = '"@
            + "kontaktovane"@ + "'"@) + " AND "@ + (alias + "is_contacted"@) + ")"@) + " OR "@ + (
        "("@ + (seq!['$', crate::text::cifra(s)] + " = '"@ + "smluvene"@ + "'"@) + " AND "@ + (
        alias + "is_closed"@) + ")"@) + ")"@) + ")"@,
{
    lemma_parametr(s);
    reveal_with_fuel(text_podminky, 4);
}

proof fn lemma_text_zeme(z: nat, alias: Seq<char>)
    requires
        1 <= z <= 9,
    ensures
        text_podminky(podminka_zeme(z), alias) == "("@ + seq!['$', crate::text::cifra(z)]
            + " = ''"@ + " OR "@ + (alias + "country_code"@) + " = "@ + seq!['$', crate::text::cifra(z)]
            + ")"@,
{
    lemma_parametr(z);
    reveal_with_fuel(text_podminky, 3);
}

/// How the filters of the listing are written, with parameters `$3`, `$4`, `$5`.
pub proof fn text_filtru_vypisu()
    ensures
        text_podminek(podminka_filtru(3, 4, 5), "p."@) == "($3 = '' OR p.mesto ILIKE $3)\n      AND ($4 = '' OR (($4 = 'kontaktovane' AND p.is_contacted) OR ($4 = 'smluvene' AND p.is_closed)))\n      AND ($5 = '' OR p.country_code = $5)"@,
{
    let c = podminka_filtru(3, 4, 5);
    lemma_text_tri(c, "p."@);
    assert(text_podminky(c[0], "p."@) == "($3 = '' OR p.mesto ILIKE $3)"@) by {
        reveal_strlit("mesto");
        reveal_strlit("is_contacted");
        reveal_strlit("is_closed");
        reveal_strlit("country_code");
        reveal_strlit(" = ''");
        reveal_strlit(" = '");
        reveal_strlit("'");
        reveal_strlit(" ILIKE ");
        reveal_strlit(" = ");
        reveal_strlit("(");
        reveal_strlit(" AND ");
        reveal_strlit(")");
        reveal_strlit(" OR ");
        reveal_strlit("kontaktovane");
        reveal_strlit("smluvene");
        reveal_strlit("p.");
        reveal_strlit("");
        lemma_text_mesta(3, "p."@);
        reveal_strlit("($3 = '' OR p.mesto ILIKE $3)");
    }
    assert(text_podminky(c[1], "p."@) == "($4 = '' OR (($4 = 'kontaktovane' AND p.is_contacted) OR ($4 = 'smluvene' AND p.is_closed)))"@) by {
        reveal_strlit("mesto");
        reveal_strlit("is_contacted");
        reveal_strlit("is_closed");
        reveal_strlit("country_code");
        reveal_strlit(" = ''");
        reveal_strlit(" = '");
        reveal_strlit("'");
        reveal_strlit(" ILIKE ");
        reveal_strlit(" = ");
        reveal_strlit("(");
        reveal_strlit(" AND ");
        reveal_strlit(")");
        reveal_strlit(" OR ");
        reveal_strlit("kontaktovane");
        reveal_strlit("smluvene");
        reveal_strlit("p.");
        reveal_strlit("");
        lemma_text_stavu(4, "p."@);
        reveal_strlit("($4 = '' OR (($4 = 'kontaktovane' AND p.is_contacted) OR ($4 = 'smluvene' AND p.is_closed)))");
    }
    assert(text_podminky(c[2], "p."@) == "($5 = '' OR p.country_code = $5)"@) by {
        reveal_strlit("mesto");
        reveal_strlit("is_contacted");
        reveal_strlit("is_closed");
        reveal_strlit("country_code");
        reveal_strlit(" = ''");
        reveal_strlit(" = '");
        reveal_strlit("'");
        reveal_strlit(" ILIKE ");
        reveal_strlit(" = ");
        reveal_strlit("(");
        reveal_strlit(" AND ");
        reveal_strlit(")");
        reveal_strlit(" OR ");
        reveal_strlit("kontaktovane");
        reveal_strlit("smluvene");
        reveal_strlit("p.");
        reveal_strlit("");
        lemma_text_zeme(5, "p."@);
        reveal_strlit("($5 = '' OR p.country_code = $5)");
    }
    reveal_strlit("($3 = '' OR p.mesto ILIKE $3)");
    reveal_strlit("($4 = '' OR (($4 = 'kontaktovane' AND p.is_contacted) OR ($4 = 'smluvene' AND p.is_closed)))");
    reveal_strlit("($5 = '' OR p.country_code = $5)");
    reveal_strlit("\n      AND ");
    reveal_strlit("($3 = '' OR p.mesto ILIKE $3)\n      AND ($4 = '' OR (($4 = 'kontaktovane' AND p.is_contacted) OR ($4 = 'smluvene' AND p.is_closed)))\n      AND ($5 = '' OR p.country_code = $5)");
    assert("($3 = '' OR p.mesto ILIKE $3)"@ + "\n      AND "@ + ("($4 = '' OR (($4 = 'kontaktovane' AND p.is_contacted) OR ($4 = 'smluvene' AND p.is_closed)))"@ + "\n      AND "@ + "($5 = '' OR p.country_code = $5)"@) =~= "($3 = '' OR p.mesto ILIKE $3)\n      AND ($4 = '' OR (($4 = 'kontaktovane' AND p.is_contacted) OR ($4 = 'smluvene' AND p.is_closed)))\n      AND ($5 = '' OR p.country_code = $5)"@);
}

/// How the filters of the count are written, with parameters `$1`, `$2`, `$3`.
pub proof fn text_filtru_poctu()
    ensures
        text_podminek(podminka_filtru(1, 2, 3), ""@) == "($1 = '' OR mesto ILIKE $1)\n      AND ($2 = '' OR (($2 = 'kontaktovane' AND is_contacted) OR ($2 = 'smluvene' AND is_closed)))\n      AND ($3 = '' OR country_code = $3)"@,
{
    let c = podminka_filtru(1, 2, 3);
    lemma_text_tri(c, ""@);
    assert(text_podminky(c[0], ""@) == "($1 = '' OR mesto ILIKE $1)"@) by {
        reveal_strlit("mesto");
        reveal_strlit("is_contacted");
        reveal_strlit("is_closed");
        reveal_strlit("country_code");
        reveal_strlit(" = ''");
        reveal_strlit(" = '");
        reveal_strlit("'");
        reveal_strlit(" ILIKE ");
        reveal_strlit(" = ");
        reveal_strlit("(");
        reveal_strlit(" AND ");
        reveal_strlit(")");
        reveal_strlit(" OR ");
        reveal_strlit("kontaktovane");
        reveal_strlit("smluvene");
        reveal_strlit("p.");
        reveal_strlit("");
        lemma_text_mesta(1, ""@);
        reveal_strlit("($1 = '' OR mesto ILIKE $1)");
    }
    assert(text_podminky(c[1], ""@) == "($2 = '' OR (($2 = 'kontaktovane' AND is_contacted) OR ($2 = 'smluvene' AND is_closed)))"@) by {
        reveal_strlit("mesto");
        reveal_strlit("is_contacted");
        reveal_strlit("is_closed");
        reveal_strlit("country_code");
        reveal_strlit(" = ''");
        reveal_strlit(" = '");
        reveal_strlit("'");
        reveal_strlit(" ILIKE ");
        reveal_strlit(" = ");
        reveal_strlit("(");
        reveal_strlit(" AND ");
        reveal_strlit(")");
        reveal_strlit(" OR ");
        reveal_strlit("kontaktovane");
        reveal_strlit("smluvene");
        reveal_strlit("p.");
        reveal_strlit("");
        lemma_text_stavu(2, ""@);
        reveal_strlit("($2 = '' OR (($2 = 'kontaktovane' AND is_contacted) OR ($2 = 'smluvene' AND is_closed)))");
    }
    assert(text_podminky(c[2], ""@) == "($3 = '' OR country_code = $3)"@) by {
        reveal_strlit("mesto");
        reveal_strlit("is_contacted");
        reveal_strlit("is_closed");
        reveal_strlit("country_code");
        reveal_strlit(" = ''");
        reveal_strlit(" = '");
        reveal_strlit("'");
        reveal_strlit(" ILIKE ");
        reveal_strlit(" = ");
        reveal_strlit("(");
        reveal_strlit(" AND ");
        reveal_strlit(")");
        reveal_strlit(" OR ");
        reveal_strlit("kontaktovane");
        reveal_strlit("smluvene");
        reveal_strlit("p.");
        reveal_strlit("");
        lemma_text_zeme(3, ""@);
        reveal_strlit("($3 = '' OR country_code = $3)");
    }
    reveal_strlit("($1 = '' OR mesto ILIKE $1)");
    reveal_strlit("($2 = '' OR (($2 = 'kontaktovane' AND is_contacted) OR ($2 = 'smluvene' AND is_closed)))");
    reveal_strlit("($3 = '' OR country_code = $3)");
    reveal_strlit("\n      AND ");
    reveal_strlit("($1 = '' OR mesto ILIKE $1)\n      AND ($2 = '' OR (($2 = 'kontaktovane' AND is_contacted) OR ($2 = 'smluvene' AND is_closed)))\n      AND ($3 = '' OR country_code = $3)");
    assert("($1 = '' OR mesto ILIKE $1)"@ + "\n      AND "@ + ("($2 = '' OR (($2 = 'kontaktovane' AND is_contacted) OR ($2 = 'smluvene' AND is_closed)))"@ + "\n      AND "@ + "($3 = '' OR country_code = $3)"@) =~= "($1 = '' OR mesto ILIKE $1)\n      AND ($2 = '' OR (($2 = 'kontaktovane' AND is_contacted) OR ($2 = 'smluvene' AND is_closed)))\n      AND ($3 = '' OR country_code = $3)"@);
}

/// What the filters let through: a row whose city matches the pattern `$m` (an empty
/// pattern: every row, those without a city too), which is contacted for the state
/// `kontaktovane`, contracted for `smluvene` (an empty state: every row; any other
/// value: none), and whose country is `$z` (an empty country: every row).
pub proof fn filtry_propousti(
    m: nat,
    s: nat,
    z: nat,
    parametry: Seq<Seq<char>>,
    r: RadekV,
    ilike: spec_fn(Seq<char>, Seq<char>) -> bool,
)
    requires
        1 <= m <= parametry.len(),
        1 <= s <= parametry.len(),
        1 <= z <= parametry.len(),
    ensures
        plati_vse(podminka_filtru(m, s, z), parametry, r, ilike) == ({
            let vzor = parametry[m - 1];
            let stav = parametry[s - 1];
            let zeme = parametry[z - 1];
            &&& vzor.len() == 0 || (r.mesto is Some && ilike(r.mesto->0, vzor))
            &&& stav.len() == 0 || (stav == "kontaktovane"@ && r.kontaktovano) || (stav
                == "smluvene"@ && r.smluveno)
            &&& zeme.len() == 0 || r.zeme == Some(zeme)
        }),
{
    reveal_with_fuel(plati, 6);
    let c = podminka_filtru(m, s, z);
    assert(plati_vse(c, parametry, r, ilike) == (plati(c[0], parametry, r, ilike) && plati(
        c[1],
        parametry,
        r,
        ilike,
    ) && plati(c[2], parametry, r, ilike)));
}

} // verus!
