//! What the commands of the registry do to the real surfaces, as a model:
//! one entry for each slot, empty or holding whether its surface is visible.
//! Carried out in order, the commands of every operation lead from the model
//! of the registry before it to the model of the registry after it.

use crate::message::EventView;
use crate::registry::RegistryState;
use crate::registry::SurfaceAction;
use crate::registry::SurfaceCommand;
use crate::registry::command;
use crate::registry::start_commands;
use crate::registry::started;
use crate::registry::suspend_commands;
use crate::shell::step_commands;
use crate::shell::stepped;
use crate::storage::SessionView;
use vstd::prelude::*;

verus! {

/// The surfaces that a registry calls for: one where a slot is full, and
/// visible where it is the active one.
pub open spec fn mirror_of(r: RegistryState) -> Seq<Option<bool>> {
    Seq::new(
        r.slots.len(),
        |i: int|
            if r.slots[i] is Some {
                Some(i == r.active)
            } else {
                None
            },
    )
}

/// The surfaces after one command. A surface is constructed hidden, in its
/// slot or in a new last slot; it is shown or hidden where there is one;
/// suspending empties a slot, removing takes the slot away. Loading and
/// moving through a page's history change none of this.
pub open spec fn carried_out(m: Seq<Option<bool>>, c: SurfaceCommand) -> Seq<Option<bool>> {
    let i = c.index as int;
    match c.action {
        SurfaceAction::CreateHome | SurfaceAction::CreateHistory | SurfaceAction::CreateUrl => if i
            < m.len() {
            m.update(i, Some(false))
        } else {
            (m + Seq::new((i - m.len()) as nat, |j: int| None::<bool>)).push(Some(false))
        },
        SurfaceAction::Show => if i < m.len() && m[i] is Some {
            m.update(i, Some(true))
        } else {
            m
        },
        SurfaceAction::Hide => if i < m.len() && m[i] is Some {
            m.update(i, Some(false))
        } else {
            m
        },
        SurfaceAction::Suspend => if i < m.len() {
            m.update(i, None)
        } else {
            m
        },
        SurfaceAction::Remove => if i < m.len() {
            m.remove(i)
        } else {
            m
        },
        _ => m,
    }
}

/// The surfaces after a list of commands, carried out in order.
pub open spec fn carried_out_all(m: Seq<Option<bool>>, cmds: Seq<SurfaceCommand>) -> Seq<
    Option<bool>,
>
    decreases cmds.len(),
{
    if cmds.len() == 0 {
        m
    } else {
        carried_out(carried_out_all(m, cmds.drop_last()), cmds.last())
    }
}

/// Carrying out a list with one more command is carrying out the list and
/// then the command.
pub proof fn lemma_carried_out_push(
    m: Seq<Option<bool>>,
    cmds: Seq<SurfaceCommand>,
    c: SurfaceCommand,
)
    ensures
        carried_out_all(m, cmds.push(c)) == carried_out(carried_out_all(m, cmds), c),
{
    assert(cmds.push(c).drop_last() =~= cmds);
}

/// The surfaces after the background tabs among the first `k` have been
/// suspended.
proof fn lemma_suspend_mirror(r: RegistryState, k: int)
    requires
        r.wf(),
        r.tabs.len() <= usize::MAX,
        0 <= k <= r.tabs.len(),
    ensures
        carried_out_all(mirror_of(r), suspend_commands(r.slots, r.active, k)) == Seq::new(
            r.slots.len(),
            |i: int|
                if i < k && i != r.active {
                    None
                } else {
                    mirror_of(r)[i]
                },
        ),
    decreases k,
{
    let m = mirror_of(r);
    let target = Seq::new(
        r.slots.len(),
        |i: int|
            if i < k && i != r.active {
                None
            } else {
                m[i]
            },
    );
    if k <= 0 {
        assert(target =~= m);
    } else {
        lemma_suspend_mirror(r, k - 1);
        let before = carried_out_all(m, suspend_commands(r.slots, r.active, k - 1));
        if k - 1 != r.active && r.slots[k - 1] is Some {
            let c = command(SurfaceAction::Suspend, k - 1);
            lemma_carried_out_push(m, suspend_commands(r.slots, r.active, k - 1), c);
            assert(carried_out(before, c) =~= target);
        } else {
            assert(before =~= target);
        }
    }
}

/// The commands of opening a tab lead to the surfaces that the registry
/// then calls for.
pub proof fn lemma_open_mirror(r: RegistryState)
    requires
        r.wf(),
        r.tabs.len() < usize::MAX,
    ensures
        carried_out_all(mirror_of(r), r.open_commands()) == mirror_of(r.opened()),
{
    let m = mirror_of(r);
    let n = r.tabs.len() as int;
    let first = if n >= crate::registry::SUSPEND_THRESHOLD {
        suspend_commands(r.slots, r.active, n)
    } else {
        Seq::empty()
    };
    let hide = command(SurfaceAction::Hide, r.active);
    let create = command(SurfaceAction::CreateHome, n);
    let show = command(SurfaceAction::Show, n);
    if n >= crate::registry::SUSPEND_THRESHOLD {
        lemma_suspend_mirror(r, n);
    }
    let m0 = carried_out_all(m, first);
    lemma_carried_out_push(m, first, hide);
    lemma_carried_out_push(m, first.push(hide), create);
    lemma_carried_out_push(m, first.push(hide).push(create), show);
    let m1 = carried_out(m0, hide);
    let m2 = carried_out(m1, create);
    let m3 = carried_out(m2, show);
    assert(m1.len() == n);
    assert(m1 + Seq::new(0nat, |j: int| None::<bool>) =~= m1);
    assert(m2 =~= m1.push(Some(false)));
    assert(m3 =~= mirror_of(r.opened()));
}

/// The commands of waking a tab lead to the surfaces of the registry after
/// it, but that the woken surface is still hidden.
proof fn lemma_wake_mirror(r: RegistryState, m: Seq<Option<bool>>, i: int)
    requires
        r.tabs.len() == r.slots.len(),
        r.tabs.len() <= usize::MAX,
        m.len() == r.tabs.len(),
        0 <= i < r.tabs.len(),
        m[i] is None <==> r.tabs[i].suspended,
    ensures
        carried_out_all(m, r.wake_commands(i)) == (if r.tabs[i].suspended {
            m.update(i, Some(false))
        } else {
            m
        }),
{
    if r.tabs[i].suspended {
        let c = command(SurfaceAction::CreateUrl, i);
        assert(r.wake_commands(i) =~= Seq::empty().push(c));
        lemma_carried_out_push(m, Seq::empty(), c);
    }
}

/// Carrying out two lists one after the other is carrying out their
/// concatenation.
pub proof fn lemma_carried_out_concat(
    m: Seq<Option<bool>>,
    a: Seq<SurfaceCommand>,
    b: Seq<SurfaceCommand>,
)
    ensures
        carried_out_all(m, a + b) == carried_out_all(carried_out_all(m, a), b),
    decreases b.len(),
{
    if b.len() == 0 {
        assert(a + b =~= a);
    } else {
        lemma_carried_out_concat(m, a, b.drop_last());
        assert((a + b).drop_last() =~= a + b.drop_last());
        assert((a + b).last() == b.last());
    }
}

/// The commands of switching to a tab lead to the surfaces that the
/// registry then calls for.
pub proof fn lemma_switch_mirror(r: RegistryState, i: int)
    requires
        r.wf(),
        r.tabs.len() <= usize::MAX,
    ensures
        carried_out_all(mirror_of(r), r.switch_commands(i)) == mirror_of(r.switched(i)),
{
    let m = mirror_of(r);
    if 0 <= i < r.tabs.len() {
        let hide = command(SurfaceAction::Hide, r.active);
        let show = command(SurfaceAction::Show, i);
        let front = seq![hide];
        assert(front =~= Seq::empty().push(hide));
        lemma_carried_out_push(m, Seq::empty(), hide);
        let m1 = carried_out(m, hide);
        lemma_carried_out_concat(m, front, r.wake_commands(i));
        lemma_wake_mirror(r, m1, i);
        lemma_carried_out_push(m, front + r.wake_commands(i), show);
        let m2 = carried_out_all(m1, r.wake_commands(i));
        assert(carried_out(m2, show) =~= mirror_of(r.switched(i)));
    }
}

/// The commands of closing a tab lead to the surfaces that the registry
/// then calls for.
pub proof fn lemma_close_mirror(r: RegistryState, i: int)
    requires
        r.wf(),
        r.tabs.len() <= usize::MAX,
    ensures
        carried_out_all(mirror_of(r), r.close_commands(i)) == mirror_of(r.closed(i)),
{
    let m = mirror_of(r);
    if !(0 <= i < r.tabs.len()) {
    } else if r.tabs.len() == 1 {
        let load = command(SurfaceAction::LoadHome, 0);
        assert(r.close_commands(i) =~= Seq::empty().push(load));
        lemma_carried_out_push(m, Seq::empty(), load);
        assert(m =~= mirror_of(r.closed(i)));
    } else {
        let a = r.active_after_close(i);
        let rest = RegistryState {
            tabs: r.tabs.remove(i),
            slots: r.slots.remove(i),
            active: a,
        };
        let remove = command(SurfaceAction::Remove, i);
        let show = command(SurfaceAction::Show, a);
        let front = seq![remove];
        assert(front =~= Seq::empty().push(remove));
        lemma_carried_out_push(m, Seq::empty(), remove);
        let m1 = carried_out(m, remove);
        assert(m1 =~= m.remove(i));
        lemma_carried_out_concat(m, front, rest.wake_commands(a));
        lemma_wake_mirror(rest, m1, a);
        lemma_carried_out_push(m, front + rest.wake_commands(a), show);
        let m2 = carried_out_all(m1, rest.wake_commands(a));
        assert(carried_out(m2, show) =~= mirror_of(r.closed(i)));
    }
}

/// The commands of opening the history page lead to the surfaces that the
/// registry then calls for.
pub proof fn lemma_history_mirror(r: RegistryState)
    requires
        r.wf(),
        r.tabs.len() < usize::MAX,
    ensures
        carried_out_all(mirror_of(r), r.history_commands()) == mirror_of(r.with_history_tab()),
{
    let m = mirror_of(r);
    let n = r.tabs.len() as int;
    let hide = command(SurfaceAction::Hide, r.active);
    let create = command(SurfaceAction::CreateHistory, n);
    let show = command(SurfaceAction::Show, n);
    assert(r.history_commands() =~= Seq::empty().push(hide).push(create).push(show));
    lemma_carried_out_push(m, Seq::empty(), hide);
    lemma_carried_out_push(m, Seq::empty().push(hide), create);
    lemma_carried_out_push(m, Seq::empty().push(hide).push(create), show);
    let m1 = carried_out(m, hide);
    let m2 = carried_out(m1, create);
    assert(m1 + Seq::new(0nat, |j: int| None::<bool>) =~= m1);
    assert(m2 =~= m1.push(Some(false)));
    assert(carried_out(m2, show) =~= mirror_of(r.with_history_tab()));
}

/// One command that leaves the surfaces as they are, alone in a list or
/// not there at all, leaves them as they are.
proof fn lemma_quiet_mirror(m: Seq<Option<bool>>, cmds: Seq<SurfaceCommand>)
    requires
        cmds.len() <= 1,
        cmds.len() == 1 ==> carried_out(m, cmds[0]) == m,
    ensures
        carried_out_all(m, cmds) == m,
{
    if cmds.len() == 1 {
        assert(cmds.drop_last() =~= Seq::empty());
        assert(carried_out_all(m, cmds.drop_last()) == m);
        assert(cmds.last() == cmds[0]);
    }
}

/// Whatever the event, its commands lead from the surfaces that the
/// registry called for before it to those that it calls for after it:
/// a surface for each live tab and no other, and the active one alone
/// visible.
pub proof fn lemma_step_mirror(r: RegistryState, e: EventView)
    requires
        r.wf(),
        r.tabs.len() < usize::MAX,
    ensures
        carried_out_all(mirror_of(r), step_commands(r, e)) == mirror_of(stepped(r, e)),
{
    let m = mirror_of(r);
    match e {
        EventView::Navigate(url) => {
            lemma_quiet_mirror(m, r.navigate_commands(url));
            assert(mirror_of(r.navigated(url)) =~= m);
        },
        EventView::GoBack => {
            lemma_quiet_mirror(m, step_commands(r, e));
        },
        EventView::GoForward => {
            lemma_quiet_mirror(m, step_commands(r, e));
        },
        EventView::Reload => {
            lemma_quiet_mirror(m, step_commands(r, e));
        },
        EventView::NewTab => {
            lemma_open_mirror(r);
        },
        EventView::CloseTab(i) => {
            lemma_close_mirror(r, i as int);
        },
        EventView::SwitchTab(i) => {
            lemma_switch_mirror(r, i as int);
        },
        EventView::ShowHistory => {
            lemma_history_mirror(r);
        },
        EventView::PageUrlChanged(i, url) => {
            assert(mirror_of(stepped(r, e)) =~= m);
        },
        EventView::PageFaviconChanged(i, url) => {
            assert(mirror_of(stepped(r, e)) =~= m);
        },
        EventView::PageTitleChanged(i, title) => {
            assert(mirror_of(stepped(r, e)) =~= m);
        },
        EventView::UpdateAvailable(version, url) => {},
        EventView::ApplyUpdate => {},
    }
}

/// The surfaces after the first `k` tabs of a starting shell have been
/// given theirs, beginning with an empty entry for each tab.
proof fn lemma_start_prefix_mirror(s: SessionView, k: int)
    requires
        s.tabs.len() <= usize::MAX,
        0 <= s.active < s.tabs.len(),
        0 <= k <= s.tabs.len(),
    ensures
        carried_out_all(Seq::new(s.tabs.len(), |i: int| None::<bool>), start_commands(s, k))
            == Seq::new(
            s.tabs.len(),
            |i: int|
                if i < k {
                    mirror_of(started(s))[i]
                } else {
                    None
                },
        ),
    decreases k,
{
    let none = Seq::new(s.tabs.len(), |i: int| None::<bool>);
    let target = Seq::new(
        s.tabs.len(),
        |i: int|
            if i < k {
                mirror_of(started(s))[i]
            } else {
                None
            },
    );
    if k <= 0 {
        assert(target =~= none);
    } else {
        let i = k - 1;
        lemma_start_prefix_mirror(s, i);
        let rest = start_commands(s, i);
        let m0 = carried_out_all(none, rest);
        if i == s.active {
            let create = command(
                if crate::tab::INTERNAL_SCHEME@.is_prefix_of(s.tabs[i]) {
                    SurfaceAction::CreateHome
                } else {
                    SurfaceAction::CreateUrl
                },
                i,
            );
            let show = command(SurfaceAction::Show, i);
            lemma_carried_out_push(none, rest, create);
            lemma_carried_out_push(none, rest.push(create), show);
            let m1 = carried_out(m0, create);
            assert(carried_out(m1, show) =~= target);
        } else if i < crate::registry::SUSPEND_THRESHOLD {
            let create = command(SurfaceAction::CreateUrl, i);
            let hide = command(SurfaceAction::Hide, i);
            lemma_carried_out_push(none, rest, create);
            lemma_carried_out_push(none, rest.push(create), hide);
            let m1 = carried_out(m0, create);
            assert(carried_out(m1, hide) =~= target);
        } else {
            assert(m0 =~= target);
        }
    }
}

/// The commands of a starting shell, carried out on an empty entry for each
/// tab, lead to the surfaces that its registry calls for.
pub proof fn lemma_start_mirror(s: SessionView)
    requires
        s.tabs.len() <= usize::MAX,
        0 <= s.active < s.tabs.len(),
    ensures
        carried_out_all(
            Seq::new(s.tabs.len(), |i: int| None::<bool>),
            start_commands(s, s.tabs.len() as int),
        ) == mirror_of(started(s)),
{
    lemma_start_prefix_mirror(s, s.tabs.len() as int);
    assert(Seq::new(
        s.tabs.len(),
        |i: int|
            if i < s.tabs.len() {
                mirror_of(started(s))[i]
            } else {
                None
            },
    ) =~= mirror_of(started(s)));
}

} // verus!
