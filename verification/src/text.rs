use vstd::prelude::*;
use crate::arsenal::{Buildable, Weapon, EMP_DISABLE_TURNS};
use crate::player::Player;
use crate::structures::{AA_DETECTION_RANGE, SHIELD_MAX_HEALTH, SHIELD_RADIUS, SHIELD_RECHARGE_PER_TURN};

verus! {

/// The character of decimal digit `d`.
pub open spec fn digit_char(d: nat) -> char {
    if d == 0 { '0' }
    else if d == 1 { '1' }
    else if d == 2 { '2' }
    else if d == 3 { '3' }
    else if d == 4 { '4' }
    else if d == 5 { '5' }
    else if d == 6 { '6' }
    else if d == 7 { '7' }
    else if d == 8 { '8' }
    else { '9' }
}

/// The decimal representation of `n`, without leading zeros.
pub open spec fn decimal(n: nat) -> Seq<char>
    decreases n,
{
    if n < 10 {
        seq![digit_char(n)]
    } else {
        decimal(n / 10).push(digit_char(n % 10))
    }
}

fn digit_str(d: u32) -> (r: &'static str)
    requires
        d < 10,
    ensures
        r@ == seq![digit_char(d as nat)],
{
    proof {
        reveal_strlit("0");
        reveal_strlit("1");
        reveal_strlit("2");
        reveal_strlit("3");
        reveal_strlit("4");
        reveal_strlit("5");
        reveal_strlit("6");
        reveal_strlit("7");
        reveal_strlit("8");
        reveal_strlit("9");
    }
    if d == 0 { "0" }
    else if d == 1 { "1" }
    else if d == 2 { "2" }
    else if d == 3 { "3" }
    else if d == 4 { "4" }
    else if d == 5 { "5" }
    else if d == 6 { "6" }
    else if d == 7 { "7" }
    else if d == 8 { "8" }
    else { "9" }
}

/// Writes `n` in decimal, as the labels of the game show numbers.
pub fn decimal_string(n: u32) -> (r: String)
    ensures
        r@ == decimal(n as nat),
        digits_value(r@) == n,
    decreases n,
{
    proof {
        lemma_decimal_reads_back(n as nat);
    }
    if n < 10 {
        String::from_str(digit_str(n))
    } else {
        let mut s = decimal_string(n / 10);
        s.append(digit_str(n % 10));
        proof {
            assert(seq![digit_char((n % 10) as nat)] =~= Seq::<char>::empty().push(digit_char((n % 10) as nat)));
            assert(s@ =~= decimal((n / 10) as nat).push(digit_char((n % 10) as nat)));
        }
        s
    }
}

/// What the pointer rests on in the toolbar.
#[derive(Clone, Copy, PartialEq, Eq, Debug, Structural)]
pub enum TooltipSubject {
    Weapon(Weapon),
    Buildable(Buildable),
}

/// The tooltip describes the hovered weapon button if there is one, else the
/// hovered structure button, else nothing.
pub open spec fn spec_tooltip_subject(hovered_weapon: Option<Weapon>, hovered_buildable: Option<Buildable>) -> Option<TooltipSubject> {
    match hovered_weapon {
        Some(w) => Some(TooltipSubject::Weapon(w)),
        None => match hovered_buildable {
            Some(b) => Some(TooltipSubject::Buildable(b)),
            None => None,
        },
    }
}

/// The tooltip of a weapon: its name and what it does.
pub open spec fn spec_weapon_tooltip(w: Weapon) -> Seq<char> {
    let s = w.spec_stats();
    if w == Weapon::ClusterGrenade {
        let sub = Weapon::ClusterSubmunition.spec_stats();
        w.spec_name() + "\n5x Submunitions\nDamage: "@ + decimal(sub.damage as nat) + " each\nBlast Radius: "@
            + decimal(sub.blast_radius as nat)
    } else if w == Weapon::EMP {
        w.spec_name() + "\nDisables AA for "@ + decimal(EMP_DISABLE_TURNS as nat) + " turns\nBlast Radius: "@
            + decimal(s.blast_radius as nat)
    } else if w == Weapon::Burst {
        w.spec_name() + "\n3x Projectiles\nDamage: "@ + decimal(s.damage as nat) + " each\nBlast Radius: "@
            + decimal(s.blast_radius as nat)
    } else {
        w.spec_name() + "\nDamage: "@ + decimal(s.damage as nat) + "\nBlast Radius: "@ + decimal(s.blast_radius as nat)
    }
}

/// The tooltip of a structure: its name, health and what it does.
pub open spec fn spec_buildable_tooltip(b: Buildable) -> Seq<char> {
    match b {
        Buildable::AALauncher => "AA Launcher\nHealth: "@ + decimal(b.spec_health() as nat) + "\nDetection Range: "@
            + decimal(AA_DETECTION_RANGE as nat) + "\nFires tracking missiles at\nenemy projectiles (1/turn)"@,
        Buildable::Wall => "Wall\nHealth: "@ + decimal(b.spec_health() as nat) + "\nDefensive barrier that\nblocks projectiles"@,
        Buildable::ShieldGenerator => "Shield Generator\nHealth: "@ + decimal(b.spec_health() as nat) + "\nShield: "@
            + decimal(SHIELD_MAX_HEALTH as nat) + " (recharges "@ + decimal(SHIELD_RECHARGE_PER_TURN as nat) + "/ turn)\nRadius: "@
            + decimal(SHIELD_RADIUS as nat) + "\nProjects protective dome\nthat absorbs damage"@,
    }
}

pub open spec fn spec_tooltip_text(subject: TooltipSubject) -> Seq<char> {
    match subject {
        TooltipSubject::Weapon(w) => spec_weapon_tooltip(w),
        TooltipSubject::Buildable(b) => spec_buildable_tooltip(b),
    }
}

/// Which button the tooltip describes: a hovered weapon button before a
/// hovered structure button.
pub fn tooltip_subject(hovered_weapon: Option<Weapon>, hovered_buildable: Option<Buildable>) -> (r: Option<TooltipSubject>)
    ensures
        r == spec_tooltip_subject(hovered_weapon, hovered_buildable),
        hovered_weapon matches Some(w) ==> r == Some(TooltipSubject::Weapon(w)),
        hovered_weapon is None ==> (hovered_buildable matches Some(b) ==> r == Some(TooltipSubject::Buildable(b))),
        (hovered_weapon is None && hovered_buildable is None) ==> r is None,
{
    match hovered_weapon {
        Some(w) => Some(TooltipSubject::Weapon(w)),
        None => match hovered_buildable {
            Some(b) => Some(TooltipSubject::Buildable(b)),
            None => None,
        },
    }
}

fn weapon_tooltip(w: Weapon) -> (r: String)
    ensures
        r@ == spec_weapon_tooltip(w),
{
    let s = w.stats();
    let mut t = String::from_str(w.name());
    match w {
        Weapon::ClusterGrenade => {
            let sub = Weapon::ClusterSubmunition.stats();
            t.append("\n5x Submunitions\nDamage: ");
            t.append(decimal_string(sub.damage).as_str());
            t.append(" each\nBlast Radius: ");
            t.append(decimal_string(sub.blast_radius).as_str());
        },
        Weapon::EMP => {
            t.append("\nDisables AA for ");
            t.append(decimal_string(EMP_DISABLE_TURNS).as_str());
            t.append(" turns\nBlast Radius: ");
            t.append(decimal_string(s.blast_radius).as_str());
        },
        Weapon::Burst => {
            t.append("\n3x Projectiles\nDamage: ");
            t.append(decimal_string(s.damage).as_str());
            t.append(" each\nBlast Radius: ");
            t.append(decimal_string(s.blast_radius).as_str());
        },
        _ => {
            t.append("\nDamage: ");
            t.append(decimal_string(s.damage).as_str());
            t.append("\nBlast Radius: ");
            t.append(decimal_string(s.blast_radius).as_str());
        },
    }
    t
}

fn buildable_tooltip(b: Buildable) -> (r: String)
    ensures
        r@ == spec_buildable_tooltip(b),
{
    match b {
        Buildable::AALauncher => {
            let mut t = String::from_str("AA Launcher\nHealth: ");
            t.append(decimal_string(b.health()).as_str());
            t.append("\nDetection Range: ");
            t.append(decimal_string(AA_DETECTION_RANGE).as_str());
            t.append("\nFires tracking missiles at\nenemy projectiles (1/turn)");
            t
        },
        Buildable::Wall => {
            let mut t = String::from_str("Wall\nHealth: ");
            t.append(decimal_string(b.health()).as_str());
            t.append("\nDefensive barrier that\nblocks projectiles");
            t
        },
        Buildable::ShieldGenerator => {
            let mut t = String::from_str("Shield Generator\nHealth: ");
            t.append(decimal_string(b.health()).as_str());
            t.append("\nShield: ");
            t.append(decimal_string(SHIELD_MAX_HEALTH).as_str());
            t.append(" (recharges ");
            t.append(decimal_string(SHIELD_RECHARGE_PER_TURN).as_str());
            t.append("/ turn)\nRadius: ");
            t.append(decimal_string(SHIELD_RADIUS).as_str());
            t.append("\nProjects protective dome\nthat absorbs damage");
            t
        },
    }
}

/// The text of the tooltip for a toolbar button.
pub fn tooltip_text(subject: TooltipSubject) -> (r: String)
    ensures
        r@ == spec_tooltip_text(subject),
{
    match subject {
        TooltipSubject::Weapon(w) => weapon_tooltip(w),
        TooltipSubject::Buildable(b) => buildable_tooltip(b),
    }
}

/// The turn indicator's text: "Blue's Turn" or "Red's Turn".
pub fn turn_label(p: Player) -> (r: String)
    ensures
        r@ == p.spec_name() + "'s Turn"@,
{
    let mut t = String::from_str(p.name());
    t.append("'s Turn");
    t
}

/// The banner shown when the match is over: "Blue Wins!" or "Red Wins!".
pub fn winner_label(p: Player) -> (r: String)
    ensures
        r@ == p.spec_name() + " Wins!"@,
{
    let mut t = String::from_str(p.name());
    t.append(" Wins!");
    t
}

/// Decimal representations are made of digits only, and the first digit is
/// not a zero unless the number is zero.
pub proof fn lemma_decimal_well_formed(n: nat)
    ensures
        decimal(n).len() >= 1,
        forall|i: int| 0 <= i < decimal(n).len() ==> '0' <= #[trigger] decimal(n)[i] <= '9',
        n > 0 ==> decimal(n)[0] != '0',
    decreases n,
{
    if n >= 10 {
        lemma_decimal_well_formed(n / 10);
        let prev = decimal(n / 10);
        assert forall|i: int| 0 <= i < decimal(n).len() implies '0' <= #[trigger] decimal(n)[i] <= '9' by {
            if i < prev.len() {
                assert(decimal(n)[i] == prev[i]);
            }
        }
        assert(decimal(n)[0] == prev[0]);
    }
}

/// The digit a character stands for.
pub open spec fn digit_value(c: char) -> int {
    if c == '0' { 0 }
    else if c == '1' { 1 }
    else if c == '2' { 2 }
    else if c == '3' { 3 }
    else if c == '4' { 4 }
    else if c == '5' { 5 }
    else if c == '6' { 6 }
    else if c == '7' { 7 }
    else if c == '8' { 8 }
    else { 9 }
}

/// The number that a string of decimal digits reads as.
pub open spec fn digits_value(s: Seq<char>) -> int
    decreases s.len(),
{
    if s.len() == 0 {
        0
    } else {
        digits_value(s.drop_last()) * 10 + digit_value(s.last())
    }
}

/// Reading the decimal text of a number back gives the number.
pub proof fn lemma_decimal_reads_back(n: nat)
    ensures
        digits_value(decimal(n)) == n,
    decreases n,
{
    if n < 10 {
        assert(decimal(n).drop_last() =~= Seq::<char>::empty());
        assert(digits_value(Seq::<char>::empty()) == 0);
        assert(decimal(n).last() == digit_char(n));
        assert(digit_value(digit_char(n)) == n);
        assert(digits_value(decimal(n)) == digits_value(decimal(n).drop_last()) * 10 + digit_value(decimal(n).last()));
    } else {
        lemma_decimal_reads_back(n / 10);
        assert(decimal(n).drop_last() =~= decimal(n / 10));
        assert(decimal(n).last() == digit_char(n % 10));
        assert(digit_value(digit_char(n % 10)) == n % 10);
        assert((n / 10) * 10 + n % 10 == n) by (nonlinear_arith);
        assert(digits_value(decimal(n)) == digits_value(decimal(n).drop_last()) * 10 + digit_value(decimal(n).last()));
    }
}

proof fn lemma_digit_char_injective(a: nat, b: nat)
    requires
        a < 10,
        b < 10,
        digit_char(a) == digit_char(b),
    ensures
        a == b,
{
}

/// Different numbers are written differently.
pub proof fn lemma_decimal_injective(m: nat, n: nat)
    requires
        decimal(m) == decimal(n),
    ensures
        m == n,
    decreases m,
{
    if m >= 10 && n >= 10 {
        let a = decimal(m);
        let b = decimal(n);
        assert(a.drop_last() =~= decimal(m / 10));
        assert(b.drop_last() =~= decimal(n / 10));
        lemma_decimal_injective(m / 10, n / 10);
        assert(a.last() == digit_char(m % 10));
        assert(b.last() == digit_char(n % 10));
        lemma_digit_char_injective(m % 10, n % 10);
    } else if m >= 10 {
        lemma_decimal_well_formed(m / 10);
        assert(decimal(m).len() >= 2);
    } else if n >= 10 {
        lemma_decimal_well_formed(n / 10);
        assert(decimal(n).len() >= 2);
    } else {
        assert(decimal(m)[0] == digit_char(m));
        assert(decimal(n)[0] == digit_char(n));
        lemma_digit_char_injective(m, n);
    }
}

} // verus!
