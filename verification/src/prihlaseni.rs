//! Login with a shared code and the `session` cookie that carries the login.
use vstd::prelude::*;
use crate::text::{
    do_znaku, lemma_do_znaku_je, orez, orizni, pripoj, stejne, text, zacina, zacina_na, znaky,
};

verus! {

/// How long a login lasts, in seconds (24 h).
pub const PLATNOST_SESSION: u64 = 86400;

/// Whether the submitted code (`kod` of the form) matches the expected one (`LOGIN_KOD`);
/// a missing value counts as empty on both sides.
pub fn kod_odpovida(zadany: Option<&String>, ocekavany: Option<&String>) -> (res: bool)
    ensures
        res == (match zadany {
            Some(z) => z@,
            None => Seq::<char>::empty(),
        } == match ocekavany {
            Some(o) => o@,
            None => Seq::<char>::empty(),
        }),
{
    let z: &str = match zadany {
        Some(z) => z.as_str(),
        None => "",
    };
    let o: &str = match ocekavany {
        Some(o) => o.as_str(),
        None => "",
    };
    proof {
        reveal_strlit("");
        assert(""@ =~= Seq::<char>::empty());
    }
    stejne(z, o)
}

pub open spec fn je_hex_male(c: char) -> bool {
    ('0' <= c && c <= '9') || ('a' <= c && c <= 'f')
}

/// A UUID in its hyphenated lower-case form: 36 characters, `-` at 8, 13, 18 and 23,
/// lower-case hexadecimal digits elsewhere.
pub open spec fn je_id_session(s: Seq<char>) -> bool {
    &&& s.len() == 36
    &&& forall|i: int|
        0 <= i < 36 ==> if i == 8 || i == 13 || i == 18 || i == 23 {
            #[trigger] s[i] == '-'
        } else {
            je_hex_male(s[i])
        }
}

/// `uuid::Uuid::new_v4().to_string()`: a random UUID, written by its `Display` impl
/// (the hyphenated lower-case form). Which UUID comes back rests on chance; the contract
/// states only its form.
#[verifier::external_body]
fn nahodne_uuid() -> (res: String)
    ensures
        je_id_session(res@),
{
    uuid::Uuid::new_v4().to_string()
}

pub open spec fn cookie_v(id: Seq<char>) -> Seq<char> {
    "session="@ + id + "; HttpOnly; Secure; SameSite=Lax; Path=/; Max-Age=86400"@
}

/// The `Set-Cookie` value of a login. `Secure` works on http://localhost as well, which
/// browsers count as a secure context.
pub fn cookie_session(id: &str) -> (res: String)
    ensures
        res@ == cookie_v(id@),
{
    let mut s = text("session=");
    pripoj(&mut s, id);
    pripoj(&mut s, "; HttpOnly; Secure; SameSite=Lax; Path=/; Max-Age=86400");
    s
}

/// A successful login: the new session id and its cookie.
#[derive(Debug)]
pub struct Prihlaseni {
    pub id: String,
    pub cookie: String,
}

/// A login attempt: with a matching code, a new random session id and its cookie;
/// `None` otherwise.
pub fn prihlas(zadany: Option<&String>, ocekavany: Option<&String>) -> (res: Option<Prihlaseni>)
    ensures
        res is Some == (match zadany {
            Some(z) => z@,
            None => Seq::<char>::empty(),
        } == match ocekavany {
            Some(o) => o@,
            None => Seq::<char>::empty(),
        }),
        res matches Some(p) ==> je_id_session(p.id@) && p.cookie@ == cookie_v(p.id@),
{
    if !kod_odpovida(zadany, ocekavany) {
        return None;
    }
    let id = nahodne_uuid();
    let cookie = cookie_session(id.as_str());
    Some(Prihlaseni { id, cookie })
}

/// `s` with the prefix `p` removed as many times as it is there
/// (`str::trim_start_matches`).
pub open spec fn bez_opakovane_predpony(s: Seq<char>, p: Seq<char>) -> Seq<char>
    decreases s.len(),
{
    if p.len() > 0 && zacina_na(s, p) {
        bez_opakovane_predpony(s.skip(p.len() as int), p)
    } else {
        s
    }
}

/// The session id that a `Cookie` header carries: the first `;`-separated part that,
/// trimmed, starts with `session=`, trimmed and stripped of that prefix.
pub open spec fn session_z_hlavicky(s: Seq<char>) -> Option<Seq<char>>
    decreases s.len(),
{
    let i = do_znaku(s, ';');
    let cast = orez(s.take(i as int));
    if zacina_na(cast, "session="@) {
        Some(bez_opakovane_predpony(cast, "session="@))
    } else if i < s.len() {
        session_z_hlavicky(s.skip(i as int + 1))
    } else {
        None
    }
}

fn bez_predpony_session<'a>(s: &'a str) -> (res: &'a str)
    ensures
        res@ == bez_opakovane_predpony(s@, "session="@),
{
    proof {
        reveal_strlit("session=");
    }
    let mut r: &str = s;
    while zacina(r, "session=")
        invariant
            bez_opakovane_predpony(s@, "session="@) == bez_opakovane_predpony(r@, "session="@),
        decreases r@.len(),
    {
        proof {
            reveal_strlit("session=");
        }
        let n = r.unicode_len();
        let ghost pred = r@;
        r = r.substring_char(8, n);
        assert(r@ =~= pred.skip(8));
    }
    r
}

/// Reads the session id from the `Cookie` header.
pub fn session_z_cookie(hlavicka: &str) -> (res: Option<String>)
    ensures
        match res {
            Some(id) => session_z_hlavicky(hlavicka@) == Some(id@),
            None => session_z_hlavicky(hlavicka@) is None,
        },
{
    proof {
        reveal_strlit("session=");
    }
    let z = znaky(hlavicka);
    let n = z.len();
    let mut od: usize = 0;
    assert(hlavicka@.skip(0) =~= hlavicka@);
    loop
        invariant
            z@ == hlavicka@,
            n == z@.len(),
            od <= n,
            session_z_hlavicky(hlavicka@) == session_z_hlavicky(hlavicka@.skip(od as int)),
        decreases n - od,
    {
        let mut konec: usize = od;
        while konec < n && z[konec] != ';'
            invariant
                z@ == hlavicka@,
                n == z@.len(),
                od <= konec <= n,
                forall|k: int| od <= k < konec ==> z@[k] != ';',
            decreases n - konec,
        {
            konec = konec + 1;
        }
        let ghost zbytek = hlavicka@.skip(od as int);
        proof {
            lemma_do_znaku_je(zbytek, ';', konec - od);
            assert(zbytek.take(konec - od) =~= hlavicka@.subrange(od as int, konec as int));
        }
        let cast = orizni(hlavicka.substring_char(od, konec));
        if zacina(cast, "session=") {
            return Some(text(bez_predpony_session(cast)));
        }
        if konec == n {
            return None;
        }
        assert(zbytek.skip(konec - od + 1) =~= hlavicka@.skip(konec + 1));
        od = konec + 1;
    }
}

/// Whether a session is still valid: it exists (`Some` with its age in seconds) and is
/// younger than 24 hours.
pub fn session_platna(stari_sekund: Option<u64>) -> (res: bool)
    ensures
        res == match stari_sekund {
            Some(t) => t < PLATNOST_SESSION,
            None => false,
        },
{
    match stari_sekund {
        Some(t) => t < PLATNOST_SESSION,
        None => false,
    }
}

/// What the login sets is what the check reads back: the `Cookie` header that a
/// browser sends for the cookie of a login, `session=<id>`, alone or followed by other
/// cookies, gives the same id.
pub proof fn cookie_vraci_id_session(id: Seq<char>, dalsi: Seq<char>)
    requires
        je_id_session(id),
        dalsi.len() == 0 || dalsi[0] == ';',
    ensures
        session_z_hlavicky("session="@ + id + dalsi) == Some(id),
{
    reveal_strlit("session=");
    let p = "session="@;
    let h = p + id + dalsi;
    let cast = p + id;
    assert forall|k: int| 0 <= k < cast.len() implies h[k] != ';' by {
        if k >= 8 {
            assert(cast[k] == id[k - 8]);
            if k - 8 == 8 || k - 8 == 13 || k - 8 == 18 || k - 8 == 23 {
                assert(id[k - 8] == '-');
            } else {
                assert(je_hex_male(id[k - 8]));
            }
        }
    }
    lemma_do_znaku_je(h, ';', cast.len() as int);
    assert(h.take(cast.len() as int) =~= cast);
    assert(!crate::text::je_bily(cast[0]));
    assert(crate::text::orez_zleva(cast) == cast);
    assert(je_hex_male(id[35]));
    assert(cast.last() == id[35]);
    assert(crate::text::orez_zprava(cast) == cast);
    assert(orez(cast) == cast);
    assert(cast.subrange(0, 8) =~= p);
    assert(cast.skip(8) =~= id);
    assert(je_hex_male(id[0]));
    assert(!zacina_na(id, p)) by {
        if zacina_na(id, p) {
            assert(id.subrange(0, 8)[0] == 's');
        }
    }
    assert(bez_opakovane_predpony(id, p) == id);
}

} // verus!
