//! The bulk selection: ids of places chosen across pages and filters, kept in the
//! session as a `BTreeSet<i32>`.
use std::collections::BTreeSet;
use vstd::prelude::*;
use crate::parametry::pole_v;
use crate::text::{cislo_i32, obsahuje, orez, orizni, parsuj_i32, stejne};

verus! {

broadcast use vstd::std_specs::btree::group_btree_axioms, vstd::laws_cmp::group_laws_cmp;

/// A change of the selection.
#[derive(Debug, Clone, Copy, PartialEq, Eq, Structural)]
pub enum AkceVyberu {
    /// Add the ids.
    Pridat,
    /// Remove the ids.
    Odebrat,
    /// Empty the selection.
    Zrusit,
}

pub open spec fn akce_z(s: Seq<char>) -> Option<AkceVyberu> {
    if s == "pridat"@ {
        Some(AkceVyberu::Pridat)
    } else if s == "odebrat"@ {
        Some(AkceVyberu::Odebrat)
    } else if s == "zrusit"@ {
        Some(AkceVyberu::Zrusit)
    } else {
        None
    }
}

/// The action named by the form field `akce`; `None` for an unknown one.
pub fn akce_z_textu(s: &str) -> (res: Option<AkceVyberu>)
    ensures
        res == akce_z(s@),
{
    if stejne(s, "pridat") {
        Some(AkceVyberu::Pridat)
    } else if stejne(s, "odebrat") {
        Some(AkceVyberu::Odebrat)
    } else if stejne(s, "zrusit") {
        Some(AkceVyberu::Zrusit)
    } else {
        None
    }
}

/// The selection after an action.
pub open spec fn po_akci(vyber: Set<i32>, akce: AkceVyberu, ids: Seq<i32>) -> Set<i32> {
    match akce {
        AkceVyberu::Pridat => vyber.union(ids.to_set()),
        AkceVyberu::Odebrat => vyber.difference(ids.to_set()),
        AkceVyberu::Zrusit => Set::empty(),
    }
}

/// Applies an action to the selection.
pub fn uprav_vyber(vyber: &mut BTreeSet<i32>, akce: AkceVyberu, ids: &Vec<i32>)
    ensures
        final(vyber)@ == po_akci(old(vyber)@, akce, ids@),
{
    match akce {
        AkceVyberu::Pridat => {
            let n = ids.len();
            let mut i: usize = 0;
            while i < n
                invariant
                    n == ids@.len(),
                    i <= n,
                    vyber@ == old(vyber)@.union(ids@.take(i as int).to_set()),
                decreases n - i,
            {
                vyber.insert(ids[i]);
                assert(ids@.take(i + 1).to_set() =~= ids@.take(i as int).to_set().insert(
                    ids@[i as int],
                )) by {
                    assert(ids@.take(i + 1) =~= ids@.take(i as int).push(ids@[i as int]));
                    ids@.take(i as int).lemma_push_to_set_commute(ids@[i as int]);
                }
                i = i + 1;
                assert(vyber@ =~= old(vyber)@.union(ids@.take(i as int).to_set()));
            }
            assert(ids@.take(n as int) =~= ids@);
        },
        AkceVyberu::Odebrat => {
            let n = ids.len();
            let mut i: usize = 0;
            while i < n
                invariant
                    n == ids@.len(),
                    i <= n,
                    vyber@ == old(vyber)@.difference(ids@.take(i as int).to_set()),
                decreases n - i,
            {
                let id = ids[i];
                vyber.remove(&id);
                assert(ids@.take(i + 1).to_set() =~= ids@.take(i as int).to_set().insert(
                    ids@[i as int],
                )) by {
                    assert(ids@.take(i + 1) =~= ids@.take(i as int).push(ids@[i as int]));
                    ids@.take(i as int).lemma_push_to_set_commute(ids@[i as int]);
                }
                i = i + 1;
                assert(vyber@ =~= old(vyber)@.difference(ids@.take(i as int).to_set()));
            }
            assert(ids@.take(n as int) =~= ids@);
        },
        AkceVyberu::Zrusit => {
            vyber.clear();
        },
    }
}

pub struct FormularVyberuV {
    pub akce: Seq<char>,
    pub ids: Seq<i32>,
    pub zpet: Option<Seq<char>>,
}

/// The form of `POST /vyber`: `akce` = pridat | odebrat | zrusit, `id` (may repeat),
/// `zpet`.
#[derive(Debug)]
pub struct FormularVyberu {
    pub akce: String,
    pub ids: Vec<i32>,
    pub zpet: Option<String>,
}

impl View for FormularVyberu {
    type V = FormularVyberuV;

    open spec fn view(&self) -> FormularVyberuV {
        FormularVyberuV {
            akce: self.akce@,
            ids: self.ids@,
            zpet: match self.zpet {
                Some(z) => Some(z@),
                None => None,
            },
        }
    }
}

pub open spec fn krok_vyberu(s: FormularVyberuV, klic: Seq<char>, hodnota: Seq<char>) -> FormularVyberuV {
    if klic == "akce"@ {
        FormularVyberuV { akce: hodnota, ..s }
    } else if klic == "id"@ {
        match cislo_i32(orez(hodnota)) {
            Some(id) => FormularVyberuV { ids: s.ids.push(id), ..s },
            None => s,
        }
    } else if klic == "zpet"@ {
        FormularVyberuV { zpet: Some(hodnota), ..s }
    } else {
        s
    }
}

pub open spec fn formular_vyberu(pole: Seq<(Seq<char>, Seq<char>)>) -> FormularVyberuV
    decreases pole.len(),
{
    if pole.len() == 0 {
        FormularVyberuV { akce: Seq::empty(), ids: Seq::empty(), zpet: None }
    } else {
        let p = pole.last();
        krok_vyberu(formular_vyberu(pole.drop_last()), p.0, p.1)
    }
}

impl FormularVyberu {
    pub fn z_pole(pole: &Vec<(String, String)>) -> (res: FormularVyberu)
        ensures
            res@ == formular_vyberu(pole_v(pole@)),
    {
        let mut f = FormularVyberu { akce: String::new(), ids: Vec::new(), zpet: None };
        let n = pole.len();
        let mut i: usize = 0;
        assert(pole_v(pole@.take(0)) =~= Seq::<(Seq<char>, Seq<char>)>::empty());
        assert(f@ == formular_vyberu(Seq::<(Seq<char>, Seq<char>)>::empty()));
        while i < n
            invariant
                n == pole@.len(),
                i <= n,
                f@ == formular_vyberu(pole_v(pole@.take(i as int))),
            decreases n - i,
        {
            let (klic, hodnota) = &pole[i];
            assert(pole_v(pole@.take(i + 1)).drop_last() =~= pole_v(pole@.take(i as int)));
            assert(pole_v(pole@.take(i + 1)).last() == (klic@, hodnota@));
            let ghost pred = f@;
            if stejne(klic.as_str(), "akce") {
                f.akce = hodnota.clone();
            } else if stejne(klic.as_str(), "id") {
                match parsuj_i32(orizni(hodnota.as_str())) {
                    Some(id) => {
                        f.ids.push(id);
                    },
                    None => {},
                }
            } else if stejne(klic.as_str(), "zpet") {
                f.zpet = Some(hodnota.clone());
            }
            assert(f@ == krok_vyberu(pred, klic@, hodnota@));
            i = i + 1;
        }
        assert(pole@.take(n as int) =~= pole@);
        f
    }
}

/// Whether the request asked for JSON: its `Accept` header (when it is readable text)
/// contains `application/json`.
pub fn chce_json(accept: Option<&str>) -> (res: bool)
    ensures
        res == match accept {
            Some(a) => crate::text::obsahuje_usek(a@, "application/json"@),
            None => false,
        },
{
    match accept {
        Some(a) => obsahuje(a, "application/json"),
        None => false,
    }
}

/// The selection cleaned of ids that are no longer in the database: `existujici` are
/// the ids of the selection that the database still has. The second value says
/// whether the cleaned selection differs in size from the old one, and so must be
/// written back to the session.
pub fn procisti_vyber(vyber: &BTreeSet<i32>, existujici: &Vec<i32>) -> (res: (BTreeSet<i32>, bool))
    ensures
        res.0@ == existujici@.to_set(),
        res.1 == (res.0@.len() != vyber@.len()),
{
    let mut nove: BTreeSet<i32> = BTreeSet::new();
    let n = existujici.len();
    let mut i: usize = 0;
    while i < n
        invariant
            n == existujici@.len(),
            i <= n,
            nove@ == existujici@.take(i as int).to_set(),
        decreases n - i,
    {
        nove.insert(existujici[i]);
        assert(existujici@.take(i + 1).to_set() =~= existujici@.take(i as int).to_set().insert(
            existujici@[i as int],
        )) by {
            assert(existujici@.take(i + 1) =~= existujici@.take(i as int).push(
                existujici@[i as int],
            ));
            existujici@.take(i as int).lemma_push_to_set_commute(existujici@[i as int]);
        }
        i = i + 1;
    }
    assert(existujici@.take(n as int) =~= existujici@);
    let zmena = nove.len() != vyber.len();
    (nove, zmena)
}

/// Adding ids that were all outside the selection and then removing them gives the
/// selection back; adding twice is adding once; emptying leaves nothing.
pub proof fn zakony_vyberu(vyber: Set<i32>, ids: Seq<i32>)
    ensures
        vyber.disjoint(ids.to_set()) ==> po_akci(
            po_akci(vyber, AkceVyberu::Pridat, ids),
            AkceVyberu::Odebrat,
            ids,
        ) == vyber,
        po_akci(po_akci(vyber, AkceVyberu::Pridat, ids), AkceVyberu::Pridat, ids) == po_akci(
            vyber,
            AkceVyberu::Pridat,
            ids,
        ),
        po_akci(vyber, AkceVyberu::Zrusit, ids).is_empty(),
        forall|id: i32| ids.contains(id) ==> po_akci(vyber, AkceVyberu::Pridat, ids).contains(id),
        forall|id: i32|
            ids.contains(id) ==> !po_akci(vyber, AkceVyberu::Odebrat, ids).contains(id),
{
    let s = ids.to_set();
    if vyber.disjoint(s) {
        assert(vyber.union(s).difference(s) =~= vyber);
    }
    assert(vyber.union(s).union(s) =~= vyber.union(s));
    assert forall|id: i32| ids.contains(id) implies po_akci(
        vyber,
        AkceVyberu::Pridat,
        ids,
    ).contains(id) by {
        assert(s.contains(id));
    }
    assert forall|id: i32| ids.contains(id) implies !po_akci(
        vyber,
        AkceVyberu::Odebrat,
        ids,
    ).contains(id) by {
        assert(s.contains(id));
    }
}

} // verus!
