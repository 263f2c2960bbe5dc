//! The choice of the wifi authentication: its entries and the
//! authentication read back from them.
use vstd::prelude::*;
use crate::config::Auth;
use crate::display::select::{Selection, selections_view, lemma_view_push};

verus! {

/// The name shown for an authentication.
pub open spec fn auth_name(a: Auth) -> Seq<u8> {
    match a {
        Auth::Open => seq![79u8, 80, 69, 78],
        Auth::Wpa => seq![87u8, 80, 65],
        Auth::Wpa2 => seq![87u8, 80, 65, 50],
        Auth::Wpa2Mixed => seq![87u8, 80, 65, 50, 32, 77, 73, 88, 69, 68],
        Auth::Wpa3 => seq![87u8, 80, 65, 51],
        Auth::Wpa2Wpa3 => seq![87u8, 80, 65, 51, 47, 87, 80, 65, 50],
    }
}

/// The authentications in the order of the choice.
pub open spec fn auth_at(i: int) -> Auth {
    if i == 0 { Auth::Open }
    else if i == 1 { Auth::Wpa }
    else if i == 2 { Auth::Wpa2 }
    else if i == 3 { Auth::Wpa2Mixed }
    else if i == 4 { Auth::Wpa3 }
    else { Auth::Wpa2Wpa3 }
}

/// The authentication whose name is `name`; `Open` for an unknown name.
pub open spec fn auth_of_name(name: Seq<u8>) -> Auth {
    if name == auth_name(Auth::Open) { Auth::Open }
    else if name == auth_name(Auth::Wpa) { Auth::Wpa }
    else if name == auth_name(Auth::Wpa2) { Auth::Wpa2 }
    else if name == auth_name(Auth::Wpa2Mixed) { Auth::Wpa2Mixed }
    else if name == auth_name(Auth::Wpa3) { Auth::Wpa3 }
    else if name == auth_name(Auth::Wpa2Wpa3) { Auth::Wpa2Wpa3 }
    else { Auth::Open }
}

/// The authentication chosen in `s`: the one named by the first selected
/// entry; `Open` when no entry is selected.
pub open spec fn chosen_auth(s: Seq<(Seq<u8>, bool)>) -> Auth {
    if exists|i: int| 0 <= i < s.len() && #[trigger] s[i].1 {
        let i = choose|i: int| 0 <= i < s.len() && #[trigger] s[i].1 && forall|j: int| 0 <= j < i ==> !#[trigger] s[j].1;
        auth_of_name(s[i].0)
    } else {
        Auth::Open
    }
}

/// Each authentication is read back from its name.
pub proof fn lemma_auth_name_roundtrip(a: Auth)
    ensures
        auth_of_name(auth_name(a)) == a,
{
    let n = auth_name(a);
    assert(auth_name(Auth::Open)[0] == 79u8);
    assert(auth_name(Auth::Wpa).len() == 3);
    assert(auth_name(Auth::Wpa2).len() == 4 && auth_name(Auth::Wpa2)[3] == 50u8);
    assert(auth_name(Auth::Wpa2Mixed).len() == 10);
    assert(auth_name(Auth::Wpa3).len() == 4 && auth_name(Auth::Wpa3)[3] == 51u8);
    assert(auth_name(Auth::Wpa2Wpa3).len() == 9);
    assert(n[0] == 79u8 <==> a == Auth::Open);
}

/// The name of an authentication.
pub fn auth_as_bytes(auth: Auth) -> (r: Vec<u8>)
    ensures
        r@ == auth_name(auth),
{
    let r = match auth {
        Auth::Open => vec![79u8, 80, 69, 78],
        Auth::Wpa => vec![87u8, 80, 65],
        Auth::Wpa2 => vec![87u8, 80, 65, 50],
        Auth::Wpa2Mixed => vec![87u8, 80, 65, 50, 32, 77, 73, 88, 69, 68],
        Auth::Wpa3 => vec![87u8, 80, 65, 51],
        Auth::Wpa2Wpa3 => vec![87u8, 80, 65, 51, 47, 87, 80, 65, 50],
    };
    assert(r@ =~= auth_name(auth));
    r
}

/// The six entries of the choice, with `selected` the selected one.
pub fn fill_auth_selections(selected: Auth) -> (r: Vec<Selection>)
    ensures
        selections_view(r@) == Seq::new(6, |i: int| (auth_name(auth_at(i)), auth_at(i) == selected)),
{
    let mut out: Vec<Selection> = Vec::new();
    let order = [Auth::Open, Auth::Wpa, Auth::Wpa2, Auth::Wpa2Mixed, Auth::Wpa3, Auth::Wpa2Wpa3];
    let mut i: usize = 0;
    while i < 6
        invariant
            0 <= i <= 6,
            order@ == seq![Auth::Open, Auth::Wpa, Auth::Wpa2, Auth::Wpa2Mixed, Auth::Wpa3, Auth::Wpa2Wpa3],
            selections_view(out@) =~= Seq::new(i as nat, |k: int| (auth_name(auth_at(k)), auth_at(k) == selected)),
        decreases 6 - i,
    {
        let a = order[i];
        assert(a == auth_at(i as int));
        let entry: Selection = (auth_as_bytes(a), a == selected);
        let ghost before = out@;
        proof { lemma_view_push(before, entry); }
        out.push(entry);
        i = i + 1;
        assert(selections_view(out@) =~= Seq::new(i as nat, |k: int| (auth_name(auth_at(k)), auth_at(k) == selected)));
    }
    out
}

/// The authentication chosen in `selections` (see `chosen_auth`).
pub fn selected_auth_from_selections(selections: &Vec<Selection>) -> (r: Auth)
    ensures
        r == chosen_auth(selections_view(selections@)),
{
    let ghost sv = selections_view(selections@);
    let mut i: usize = 0;
    while i < selections.len()
        invariant
            0 <= i <= selections@.len(),
            sv == selections_view(selections@),
            forall|j: int| 0 <= j < i ==> !#[trigger] sv[j].1,
        decreases selections.len() - i,
    {
        if selections[i].1 {
            let name = &selections[i].0;
            assert(sv[i as int].1);
            assert(name@ == sv[i as int].0);
            proof {
                let c = choose|k: int| 0 <= k < sv.len() && #[trigger] sv[k].1 && forall|j: int| 0 <= j < k ==> !#[trigger] sv[j].1;
                assert(0 <= c < sv.len() && sv[c].1 && forall|j: int| 0 <= j < c ==> !#[trigger] sv[j].1);
                if c < i {
                    assert(!sv[c].1);
                }
                if i < c {
                    assert(!sv[i as int].1);
                }
            }
            assert(chosen_auth(sv) == auth_of_name(name@));
            let order = [Auth::Open, Auth::Wpa, Auth::Wpa2, Auth::Wpa2Mixed, Auth::Wpa3, Auth::Wpa2Wpa3];
            let mut k: usize = 0;
            while k < 6
                invariant
                    0 <= k <= 6,
                    sv == selections_view(selections@),
                    chosen_auth(sv) == auth_of_name(name@),
                    order@ == seq![Auth::Open, Auth::Wpa, Auth::Wpa2, Auth::Wpa2Mixed, Auth::Wpa3, Auth::Wpa2Wpa3],
                    forall|j: int| 0 <= j < k ==> name@ != auth_name(#[trigger] auth_at(j)),
                decreases 6 - k,
            {
                let candidate = auth_as_bytes(order[k]);
                if crate::command_args::bytes_eq(name, &candidate) {
                    assert(order[k as int] == auth_at(k as int));
                    proof { lemma_auth_name_roundtrip(order[k as int]); }
                    return order[k];
                }
                assert(order[k as int] == auth_at(k as int));
                k = k + 1;
            }
            assert(name@ != auth_name(auth_at(0)) && name@ != auth_name(auth_at(1)) && name@ != auth_name(auth_at(2))
                && name@ != auth_name(auth_at(3)) && name@ != auth_name(auth_at(4)) && name@ != auth_name(auth_at(5)));
            assert(auth_of_name(name@) == Auth::Open);
            return Auth::Open;
        }
        i = i + 1;
    }
    assert(!exists|j: int| 0 <= j < sv.len() && #[trigger] sv[j].1);
    Auth::Open
}

/// Reading the authentication back from the entries filled for it gives it
/// back.
pub proof fn lemma_auth_choice_roundtrip(a: Auth)
    ensures
        chosen_auth(Seq::new(6, |i: int| (auth_name(auth_at(i)), auth_at(i) == a))) == a,
{
    let s = Seq::new(6, |i: int| (auth_name(auth_at(i)), auth_at(i) == a));
    let k: int = match a {
        Auth::Open => 0,
        Auth::Wpa => 1,
        Auth::Wpa2 => 2,
        Auth::Wpa2Mixed => 3,
        Auth::Wpa3 => 4,
        Auth::Wpa2Wpa3 => 5,
    };
    assert(s[k].1);
    assert forall|j: int| 0 <= j < 6 && j != k implies !#[trigger] s[j].1 by {
        assert(auth_at(j) != a);
    }
    let c = choose|i: int| 0 <= i < s.len() && #[trigger] s[i].1 && forall|j: int| 0 <= j < i ==> !#[trigger] s[j].1;
    assert(forall|j: int| 0 <= j < k ==> !#[trigger] s[j].1);
    assert(c == k);
    lemma_auth_name_roundtrip(a);
}

} // verus!
