//! Which monitor is primary, the order bars are created in, and where each bar ends up.

use vstd::prelude::*;

verus! {

/// The index of the last monitor flagged primary, or 0 when none is.
pub open spec fn primary_spec(flags: Seq<bool>) -> int
    decreases flags.len(),
{
    if flags.len() == 0 {
        0
    } else if flags.last() {
        flags.len() - 1
    } else {
        primary_spec(flags.drop_last())
    }
}

/// Picks the primary monitor from the monitors' primary flags, in monitor order: the
/// last flagged one wins, and monitor 0 stands in when none is flagged.
pub fn select_primary(flags: &Vec<bool>) -> (r: usize)
    ensures
        r == primary_spec(flags@),
{
    let mut primary: usize = 0;
    let n = flags.len();
    let mut i: usize = 0;
    while i < n
        invariant
            n == flags@.len(),
            i <= n,
            primary == primary_spec(flags@.take(i as int)),
        decreases n - i,
    {
        assert(flags@.take(i + 1).drop_last() =~= flags@.take(i as int));
        if flags[i] {
            primary = i;
        }
        i = i + 1;
    }
    assert(flags@.take(n as int) =~= flags@);
    primary
}

/// The monitors in the order their bars are made: the primary first (the others share
/// its web view), then the rest in monitor order.
pub open spec fn creation_order_spec(count: nat, primary: nat) -> Seq<usize> {
    seq![primary as usize] + Seq::new(count, |i: int| i as usize).remove(primary as int)
}

/// The monitor indices in the order their bars are made.
pub fn creation_order(count: usize, primary: usize) -> (r: Vec<usize>)
    requires
        primary < count,
    ensures
        r@ == creation_order_spec(count as nat, primary as nat),
{
    let mut r: Vec<usize> = Vec::new();
    r.push(primary);
    let mut i: usize = 0;
    while i < count
        invariant
            primary < count,
            i <= count,
            r@ == seq![primary] + Seq::new(i as nat, |k: int| k as usize).filter(|k: usize| k != primary),
        decreases count - i,
    {
        proof {
            reveal_with_fuel(Seq::<_>::filter, 1);
            assert(Seq::new((i + 1) as nat, |k: int| k as usize).drop_last() =~= Seq::new(i as nat, |k: int| k as usize));
        }
        if i != primary {
            r.push(i);
        }
        i = i + 1;
        assert(r@ =~= seq![primary] + Seq::new(i as nat, |k: int| k as usize).filter(|k: usize| k != primary));
    }
    proof {
        lemma_filter_is_remove(count as nat, primary as nat);
    }
    r
}

proof fn lemma_filter_is_remove(count: nat, primary: nat)
    requires
        primary < count,
        count <= usize::MAX,
    ensures
        Seq::new(count, |k: int| k as usize).filter(|k: usize| k != primary as usize) =~= Seq::new(
            count,
            |k: int| k as usize,
        ).remove(primary as int),
    decreases count,
{
    let s = Seq::new(count, |k: int| k as usize);
    let f = |k: usize| k != primary as usize;
    let t = Seq::new((count - 1) as nat, |k: int| k as usize);
    reveal_with_fuel(Seq::<_>::filter, 1);
    assert(s.drop_last() =~= t);
    assert(s.last() == (count - 1) as usize);
    if primary + 1 == count {
        lemma_filter_all((count - 1) as nat, primary);
        assert(!f(s.last()));
        assert(s.filter(f) == t.filter(f));
        assert(s.remove(primary as int) =~= t);
    } else {
        lemma_filter_is_remove((count - 1) as nat, primary);
        assert(f(s.last()));
        assert(s.filter(f) == t.filter(f).push(s.last()));
        assert(s.remove(primary as int) =~= t.remove(primary as int).push(s.last()));
    }
}

proof fn lemma_filter_all(count: nat, primary: nat)
    requires
        count <= primary,
        primary <= usize::MAX,
    ensures
        Seq::new(count, |k: int| k as usize).filter(|k: usize| k != primary as usize) =~= Seq::new(
            count,
            |k: int| k as usize,
        ),
    decreases count,
{
    let s = Seq::new(count, |k: int| k as usize);
    let f = |k: usize| k != primary as usize;
    reveal_with_fuel(Seq::<_>::filter, 1);
    if count > 0 {
        let t = Seq::new((count - 1) as nat, |k: int| k as usize);
        assert(s.drop_last() =~= t);
        lemma_filter_all((count - 1) as nat, primary);
        assert(s.last() == (count - 1) as usize);
        assert(f(s.last()));
        assert(s.filter(f) == t.filter(f).push(s.last()));
    }
}

/// Puts the primary monitor's bar back among the other bars, at the primary's index.
pub fn arrange_bars<T>(primary_bar: T, other_bars: Vec<T>, primary: usize) -> (r: Vec<T>)
    requires
        primary <= other_bars@.len(),
    ensures
        r@ == other_bars@.insert(primary as int, primary_bar),
{
    let mut bars = other_bars;
    bars.insert(primary, primary_bar);
    bars
}

/// Making bars in creation order and then putting the primary's bar back at its index
/// leaves bar `i` on monitor `i`.
pub proof fn lemma_bars_in_monitor_order(count: nat, primary: nat)
    requires
        primary < count,
    ensures
        creation_order_spec(count, primary).drop_first().insert(primary as int, creation_order_spec(count, primary)[0])
            =~= Seq::new(count, |i: int| i as usize),
{
    let s = Seq::new(count, |i: int| i as usize);
    let order = creation_order_spec(count, primary);
    assert(order.drop_first() =~= s.remove(primary as int));
    assert(order[0] == primary as usize);
    assert(s.remove(primary as int).insert(primary as int, primary as usize) =~= s);
}

/// The layer a bar is shown in.
#[derive(PartialEq, Eq, Structural)]
pub enum BarLayer {
    Top,
    Bottom,
}

/// Whether a bar takes keyboard focus.
#[derive(PartialEq, Eq, Structural)]
pub enum BarKeyboardMode {
    /// Focus when clicked.
    OnDemand,
    /// Never focused.
    Disabled,
}

/// The layer and keyboard mode a bar is switched to when asked for layer `name`: `top`
/// raises it and lets it take focus on demand; any other name lowers it without focus.
pub fn bar_layer_settings(name: &str) -> (r: (BarLayer, BarKeyboardMode))
    ensures
        name@ == "top"@ ==> r == (BarLayer::Top, BarKeyboardMode::OnDemand),
        name@ != "top"@ ==> r == (BarLayer::Bottom, BarKeyboardMode::Disabled),
{
    if crate::text::str_eq(name, "top") {
        (BarLayer::Top, BarKeyboardMode::OnDemand)
    } else {
        (BarLayer::Bottom, BarKeyboardMode::Disabled)
    }
}

} // verus!
