//! Applying the log changes that the flows decide to the progress log, and
//! what whole runs of the flows leave in it.
use vstd::prelude::*;

use crate::i18n::Translations;
use crate::state::InstallOptions;
use crate::install_flow::{
    law_precheck_ends_done, law_uninstall_ends_done, spec_install_step, spec_precheck_step,
    spec_uninstall_step, InstallCommand, InstallDirsText, InstallStep, LogOp, PrecheckCommand,
    PrecheckStep, ProgramInstall, UninstallCommand, UninstallDirsText, UninstallStep,
};
use crate::state::{
    action, action_post, entry_index, is_first_line, lemma_entry_index,
    lemma_entry_index_appended, lemma_entry_index_same_apps, lemma_first_line_is_entry,
    law_action_appends, law_set_status_then_status, set_status, set_status_post, status_of, update_status_if_present, InstallLogEntry,
    InstallStatus,
};
use crate::text::{concat2, push_str, replace, replaced, views};

verus! {

/// The program a change addresses.
pub open spec fn op_app(op: LogOp) -> Seq<char> {
    match op {
        LogOp::SetStatus { app, .. } => app@,
        LogOp::InsertFirst { app, .. } => app@,
        LogOp::Action { app, .. } => app@,
        LogOp::SizedAction { app, .. } => app@,
        LogOp::SpeedAction { app, .. } => app@,
        LogOp::PathAction { app, .. } => app@,
        LogOp::SizedDownloading { app, .. } => app@,
    }
}

/// What `action` does, for a message given by its text: it ends the
/// actions of the first line of `app`, or a pending line is added for it
/// with that one action.
pub open spec fn action_text_post(
    old: Seq<InstallLogEntry>,
    new: Seq<InstallLogEntry>,
    app: Seq<char>,
    text: Seq<char>,
) -> bool {
    match entry_index(old, app) {
        Some(i) => {
            &&& new.len() == old.len()
            &&& new[i].app == old[i].app
            &&& new[i].status == old[i].status
            &&& new[i].actions@.len() == old[i].actions@.len() + 1
            &&& new[i].actions@.subrange(0, old[i].actions@.len() as int) == old[i].actions@
            &&& new[i].actions@.last()@ == text
            &&& forall|j: int| 0 <= j < old.len() && j != i ==> new[j] == old[j]
        },
        None => {
            &&& new.len() == old.len() + 1
            &&& new.subrange(0, old.len() as int) == old
            &&& new[old.len() as int].app@ == app
            &&& new[old.len() as int].status is Pending
            &&& new[old.len() as int].actions@.len() == 1
            &&& new[old.len() as int].actions@[0]@ == text
        },
    }
}

/// The first line of `app`, if any, reads `Downloading("<app> (<value>)")`.
pub open spec fn downloading_post(
    old: Seq<InstallLogEntry>,
    new: Seq<InstallLogEntry>,
    app: Seq<char>,
    value: Seq<char>,
) -> bool {
    match entry_index(old, app) {
        Some(i) => {
            &&& new.len() == old.len()
            &&& new[i].app == old[i].app
            &&& new[i].actions == old[i].actions
            &&& new[i].status matches InstallStatus::Downloading(x) && x@ == app + " ("@ + value
                + ")"@
            &&& forall|j: int| 0 <= j < old.len() && j != i ==> new[j] == old[j]
        },
        None => new == old,
    }
}

/// What applying a change does to the log; `value` is the rendered size,
/// rate or path that a sized, rate or path change puts in its placeholder.
#[verifier::opaque]
pub open spec fn op_post(
    old: Seq<InstallLogEntry>,
    new: Seq<InstallLogEntry>,
    op: LogOp,
    value: Seq<char>,
) -> bool {
    match op {
        LogOp::SetStatus { app, status } => set_status_post(old, new, app@, status),
        LogOp::InsertFirst { app, status } => {
            &&& new.len() == old.len() + 1
            &&& new[0].app@ == app@
            &&& new[0].status == status
            &&& new[0].actions@.len() == 0
            &&& new.subrange(1, new.len() as int) == old
        },
        LogOp::Action { app, message } => action_post(old, new, app@, message),
        LogOp::SizedAction { app, template, .. } => action_text_post(
            old,
            new,
            app@,
            replaced(template@, "{size}"@, value),
        ),
        LogOp::SpeedAction { app, template, .. } => action_text_post(
            old,
            new,
            app@,
            replaced(template@, "{speed}"@, value),
        ),
        LogOp::PathAction { app, template, .. } => action_text_post(
            old,
            new,
            app@,
            replaced(template@, "{path}"@, value),
        ),
        LogOp::SizedDownloading { app, .. } => downloading_post(old, new, app@, value),
    }
}

/// What applying changes one after the other does to the log.
pub open spec fn ops_post(
    old: Seq<InstallLogEntry>,
    new: Seq<InstallLogEntry>,
    ops: Seq<LogOp>,
    values: Seq<Seq<char>>,
) -> bool
    decreases ops.len(),
{
    if ops.len() == 0 {
        new == old
    } else {
        exists|mid: Seq<InstallLogEntry>|
            #[trigger] op_post(old, mid, ops[0], values[0]) && ops_post(
                mid,
                new,
                ops.drop_first(),
                values.drop_first(),
            )
    }
}

proof fn lemma_action_text(
    old: Seq<InstallLogEntry>,
    new: Seq<InstallLogEntry>,
    app: Seq<char>,
    message: String,
)
    requires
        action_post(old, new, app, message),
    ensures
        action_text_post(old, new, app, message@),
{
    match entry_index(old, app) {
        Some(i) => {
            assert(new[i].actions@.subrange(0, old[i].actions@.len() as int) =~= old[i].actions@);
        },
        None => {},
    }
}

/// Applies one change to the log. `value` is the size, rate or path that
/// the caller rendered for it (unused by the other changes).
pub fn apply_op(log: &mut Vec<InstallLogEntry>, op: LogOp, value: &str)
    ensures
        op_post(old(log)@, final(log)@, op, value@),
{
    reveal(op_post);
    let ghost before = log@;
    match op {
        LogOp::SetStatus { app, status } => set_status(log, app.as_str(), status),
        LogOp::InsertFirst { app, status } => {
            log.insert(0, InstallLogEntry { app, status, actions: Vec::new() });
            assert(log@.subrange(1, log@.len() as int) =~= before);
        },
        LogOp::Action { app, message } => action(log, app.as_str(), message),
        LogOp::SizedAction { app, template, .. } => {
            let m = replace(template.as_str(), "{size}", value);
            let ghost mv = m;
            action(log, app.as_str(), m);
            proof {
                lemma_action_text(before, log@, app@, mv);
            }
        },
        LogOp::SpeedAction { app, template, .. } => {
            let m = replace(template.as_str(), "{speed}", value);
            let ghost mv = m;
            action(log, app.as_str(), m);
            proof {
                lemma_action_text(before, log@, app@, mv);
            }
        },
        LogOp::PathAction { app, template, .. } => {
            let m = replace(template.as_str(), "{path}", value);
            let ghost mv = m;
            action(log, app.as_str(), m);
            proof {
                lemma_action_text(before, log@, app@, mv);
            }
        },
        LogOp::SizedDownloading { app, .. } => {
            let mut s = concat2(app.as_str(), " (");
            push_str(&mut s, value);
            push_str(&mut s, ")");
            update_status_if_present(log, app.as_str(), InstallStatus::Downloading(s));
        },
    }
}

proof fn lemma_ops_post_snoc(
    a: Seq<InstallLogEntry>,
    b: Seq<InstallLogEntry>,
    c: Seq<InstallLogEntry>,
    s: Seq<LogOp>,
    vs: Seq<Seq<char>>,
    op: LogOp,
    v: Seq<char>,
)
    requires
        s.len() == vs.len(),
        ops_post(a, b, s, vs),
        op_post(b, c, op, v),
    ensures
        ops_post(a, c, s.push(op), vs.push(v)),
    decreases s.len(),
{
    if s.len() == 0 {
        assert(s.push(op).drop_first() =~= Seq::<LogOp>::empty());
        assert(vs.push(v).drop_first() =~= Seq::<Seq<char>>::empty());
        assert(ops_post(c, c, s.push(op).drop_first(), vs.push(v).drop_first()));
        assert(op_post(a, c, s.push(op)[0], vs.push(v)[0]));
    } else {
        let mid = choose|mid: Seq<InstallLogEntry>|
            #[trigger] op_post(a, mid, s[0], vs[0]) && ops_post(mid, b, s.drop_first(), vs.drop_first());
        lemma_ops_post_snoc(mid, b, c, s.drop_first(), vs.drop_first(), op, v);
        assert(s.push(op).drop_first() =~= s.drop_first().push(op));
        assert(vs.push(v).drop_first() =~= vs.drop_first().push(v));
        assert(ops_post(mid, c, s.push(op).drop_first(), vs.push(v).drop_first()));
        assert(op_post(a, mid, s.push(op)[0], vs.push(v)[0]));
    }
}

/// Applies changes one after the other; `values[i]` is what the caller
/// rendered for `ops[i]`.
pub fn apply_ops(log: &mut Vec<InstallLogEntry>, ops: Vec<LogOp>, values: Vec<String>)
    requires
        ops@.len() == values@.len(),
    ensures
        ops_post(old(log)@, final(log)@, ops@, views(values@)),
{
    let ghost all_ops = ops@;
    let ghost all_vals = views(values@);
    assert(all_ops.len() == ops.len());
    let ghost start = log@;
    let mut rest = ops;
    let mut vals = values;
    let mut i: usize = 0;
    assert(all_ops.subrange(0, 0) =~= Seq::<LogOp>::empty());
    assert(all_vals.subrange(0, 0) =~= Seq::<Seq<char>>::empty());
    while rest.len() > 0
        invariant
            all_ops.len() == all_vals.len(),
            all_ops.len() <= usize::MAX,
            i <= all_ops.len(),
            rest@ == all_ops.subrange(i as int, all_ops.len() as int),
            views(vals@) == all_vals.subrange(i as int, all_vals.len() as int),
            ops_post(start, log@, all_ops.subrange(0, i as int), all_vals.subrange(0, i as int)),
        decreases rest.len(),
    {
        assert(vals@.len() == views(vals@).len());
        let ghost vals_before = vals@;
        let op = rest.remove(0);
        let v = vals.remove(0);
        let ghost before = log@;
        proof {
            assert(views(vals_before)[0] == v@);
            assert(all_vals.subrange(i as int, all_vals.len() as int)[0] == all_vals[i as int]);
            assert(views(vals@) =~= views(vals_before).subrange(1, views(vals_before).len() as int));
            assert(views(vals@) =~= all_vals.subrange(i + 1, all_vals.len() as int));
            assert(rest@ =~= all_ops.subrange(i + 1, all_ops.len() as int));
        }
        apply_op(log, op, v.as_str());
        proof {
            lemma_ops_post_snoc(
                start,
                before,
                log@,
                all_ops.subrange(0, i as int),
                all_vals.subrange(0, i as int),
                all_ops[i as int],
                all_vals[i as int],
            );
            assert(all_ops.subrange(0, i as int).push(all_ops[i as int]) =~= all_ops.subrange(
                0,
                i + 1,
            ));
            assert(all_vals.subrange(0, i as int).push(all_vals[i as int]) =~= all_vals.subrange(
                0,
                i + 1,
            ));
        }
        i = i + 1;
    }
    assert(all_ops.subrange(0, i as int) =~= all_ops);
    assert(all_vals.subrange(0, i as int) =~= all_vals);
}

// ───────────────────────────── what runs leave in the log ─────────────────────────────

/// The line of `key` is first, and the lines of `base` follow it in order.
pub open spec fn line_first(log: Seq<InstallLogEntry>, key: Seq<char>, base: Seq<InstallLogEntry>) -> bool {
    &&& log.len() == base.len() + 1
    &&& log[0].app@ == key
    &&& log.subrange(1, log.len() as int) == base
}

/// The change addresses `app` and does not insert a line first.
pub open spec fn addresses(op: LogOp, app: Seq<char>) -> bool {
    op_app(op) == app && !(op is InsertFirst)
}

/// A change to the first line of the log, when that line is the line of
/// the program addressed: the other lines stay, the line's actions only
/// grow at the end, and a status change sets its status.
proof fn lemma_op_on_first(
    old: Seq<InstallLogEntry>,
    new: Seq<InstallLogEntry>,
    op: LogOp,
    v: Seq<char>,
    key: Seq<char>,
    base: Seq<InstallLogEntry>,
)
    requires
        line_first(old, key, base),
        addresses(op, key),
        op_post(old, new, op, v),
    ensures
        line_first(new, key, base),
        new[0].actions@.len() >= old[0].actions@.len(),
        new[0].actions@.subrange(0, old[0].actions@.len() as int) == old[0].actions@,
        op matches LogOp::SetStatus { status, .. } ==> new[0].status == status,
        op is Action ==> new[0].status == old[0].status,
{
    reveal(op_post);
    assert(is_first_line(old, key, 0));
    lemma_first_line_is_entry(old, key, 0);
    assert(new.len() == old.len());
    assert forall|j: int| 1 <= j < new.len() implies new[j] == old[j] by {}
    assert(new.subrange(1, new.len() as int) =~= old.subrange(1, old.len() as int));
    assert(new[0].actions@.subrange(0, old[0].actions@.len() as int) =~= old[0].actions@);
}

proof fn lemma_ops_on_first(
    old: Seq<InstallLogEntry>,
    new: Seq<InstallLogEntry>,
    ops: Seq<LogOp>,
    vals: Seq<Seq<char>>,
    key: Seq<char>,
    base: Seq<InstallLogEntry>,
)
    requires
        line_first(old, key, base),
        forall|i: int| 0 <= i < ops.len() ==> addresses(#[trigger] ops[i], key),
        ops_post(old, new, ops, vals),
    ensures
        line_first(new, key, base),
        new[0].actions@.len() >= old[0].actions@.len(),
        new[0].actions@.subrange(0, old[0].actions@.len() as int) == old[0].actions@,
        ops.len() > 0 ==> (ops.last() matches LogOp::SetStatus { status, .. } ==> new[0].status
            == status),
    decreases ops.len(),
{
    if ops.len() == 0 {
        assert(new[0].actions@.subrange(0, old[0].actions@.len() as int) =~= old[0].actions@);
    } else {
        let mid = choose|mid: Seq<InstallLogEntry>|
            #[trigger] op_post(old, mid, ops[0], vals[0]) && ops_post(
                mid,
                new,
                ops.drop_first(),
                vals.drop_first(),
            );
        assert(addresses(ops[0], key));
        lemma_op_on_first(old, mid, ops[0], vals[0], key, base);
        assert forall|i: int| 0 <= i < ops.drop_first().len() implies addresses(
            #[trigger] ops.drop_first()[i],
            key,
        ) by {
            assert(addresses(ops[i + 1], key));
        }
        lemma_ops_on_first(mid, new, ops.drop_first(), vals.drop_first(), key, base);
        let a = old[0].actions@;
        let b = mid[0].actions@;
        let c = new[0].actions@;
        assert(c.subrange(0, a.len() as int) =~= c.subrange(0, b.len() as int).subrange(0, a.len() as int));
        if ops.len() == 1 {
            assert(new == mid);
        } else {
            assert(ops.drop_first().last() == ops.last());
        }
    }
}

/// Every change of a pre-check step after the first addresses the
/// pre-check line.
proof fn lemma_precheck_ops_address_key(
    t: Translations,
    programs: Seq<ProgramInstall>,
    step: PrecheckStep,
    ops: Seq<LogOp>,
    cmd: PrecheckCommand,
)
    requires
        spec_precheck_step(t, programs, step, ops, cmd),
        !(step is Begin),
    ensures
        forall|i: int| 0 <= i < ops.len() ==> addresses(#[trigger] ops[i], t.precheck_title@),
{
    assert forall|i: int| 0 <= i < ops.len() implies addresses(#[trigger] ops[i], t.precheck_title@) by {
        if i == 0 {
        } else if i == 1 {
        } else {
        }
    }
}

proof fn lemma_precheck_tail(
    t: Translations,
    programs: Seq<ProgramInstall>,
    base: Seq<InstallLogEntry>,
    steps: Seq<PrecheckStep>,
    opss: Seq<Seq<LogOp>>,
    cmds: Seq<PrecheckCommand>,
    values: Seq<Seq<Seq<char>>>,
    logs: Seq<Seq<InstallLogEntry>>,
    k: int,
)
    requires
        1 <= k <= steps.len(),
        opss.len() == steps.len(),
        cmds.len() == steps.len(),
        values.len() == steps.len(),
        logs.len() == steps.len() + 1,
        forall|j: int| 0 < j < steps.len() ==> !(#[trigger] steps[j] is Begin),
        forall|j: int|
            0 <= j < steps.len() ==> spec_precheck_step(t, programs, #[trigger] steps[j], opss[j], cmds[j]),
        forall|j: int| 0 <= j < steps.len() ==> ops_post(#[trigger] logs[j], logs[j + 1], opss[j], values[j]),
        line_first(logs[k], t.precheck_title@, base),
        logs[k][0].actions@.len() >= 1,
        logs[k][0].actions@[0]@ == t.precheck_checking_conn@,
    ensures
        line_first(logs.last(), t.precheck_title@, base),
        logs.last()[0].actions@.len() >= 1,
        logs.last()[0].actions@[0]@ == t.precheck_checking_conn@,
        k < steps.len() && cmds.last() is Finish ==> (logs.last()[0].status matches InstallStatus::Done(x) && x@ == t.precheck_done@),
    decreases steps.len() - k,
{
    if k < steps.len() {
        let key = t.precheck_title@;
        assert(spec_precheck_step(t, programs, steps[k], opss[k], cmds[k]));
        assert(ops_post(logs[k], logs[k + 1], opss[k], values[k]));
        lemma_precheck_ops_address_key(t, programs, steps[k], opss[k], cmds[k]);
        lemma_ops_on_first(logs[k], logs[k + 1], opss[k], values[k], key, base);
        assert(logs[k + 1][0].actions@.subrange(0, logs[k][0].actions@.len() as int)[0]
            == logs[k + 1][0].actions@[0]);
        lemma_precheck_tail(t, programs, base, steps, opss, cmds, values, logs, k + 1);
        if k == steps.len() - 1 && cmds.last() is Finish {
            law_precheck_ends_done(t, programs, steps[k], opss[k], cmds[k]);
            assert(logs[k + 1] == logs.last());
        }
    }
}

/// A whole pre-check, from its first step to the one that ends it, puts
/// its line first in the log with the earlier lines after it in their
/// order, and leaves that line done, its first action the connectivity
/// check, whatever the connectivity, the speed test and the programs.
pub proof fn law_precheck_run(
    t: Translations,
    programs: Seq<ProgramInstall>,
    base: Seq<InstallLogEntry>,
    steps: Seq<PrecheckStep>,
    opss: Seq<Seq<LogOp>>,
    cmds: Seq<PrecheckCommand>,
    values: Seq<Seq<Seq<char>>>,
    logs: Seq<Seq<InstallLogEntry>>,
)
    requires
        precheck_run(t, programs, steps, opss, cmds, values, logs),
        logs[0] == base,
    ensures
        line_first(logs.last(), t.precheck_title@, base),
        logs.last()[0].status matches InstallStatus::Done(x) && x@ == t.precheck_done@,
        logs.last()[0].actions@.len() >= 1,
        logs.last()[0].actions@[0]@ == t.precheck_checking_conn@,
{
    reveal(op_post);
    let key = t.precheck_title@;
    assert(spec_precheck_step(t, programs, steps[0], opss[0], cmds[0]));
    assert(ops_post(logs[0], logs[1], opss[0], values[0]));
    let ops = opss[0];
    let vals = values[0];
    let m1 = choose|mid: Seq<InstallLogEntry>|
        #[trigger] op_post(base, mid, ops[0], vals[0]) && ops_post(mid, logs[1], ops.drop_first(), vals.drop_first());
    assert(line_first(m1, key, base));
    let rest = ops.drop_first();
    let m2 = choose|mid: Seq<InstallLogEntry>|
        #[trigger] op_post(m1, mid, rest[0], vals.drop_first()[0]) && ops_post(
            mid,
            logs[1],
            rest.drop_first(),
            vals.drop_first().drop_first(),
        );
    assert(rest.drop_first().len() == 0);
    assert(logs[1] == m2);
    assert(is_first_line(m1, key, 0));
    lemma_first_line_is_entry(m1, key, 0);
    assert(m2[0].actions@ == m1[0].actions@.push(rest[0]->message));
    assert(m2.subrange(1, m2.len() as int) =~= m1.subrange(1, m1.len() as int));
    assert(steps.len() > 1);
    lemma_precheck_tail(t, programs, base, steps, opss, cmds, values, logs, 1);
}

/// `new` differs from `old` at most in the first line of `app`, which keeps
/// its program, or by a line for `app` added at the end.
pub open spec fn touches_only(old: Seq<InstallLogEntry>, new: Seq<InstallLogEntry>, app: Seq<char>) -> bool {
    match entry_index(old, app) {
        Some(i) => {
            &&& new.len() == old.len()
            &&& new[i].app == old[i].app
            &&& forall|j: int| 0 <= j < old.len() && j != i ==> new[j] == old[j]
        },
        None => new == old || {
            &&& new.len() == old.len() + 1
            &&& new.subrange(0, old.len() as int) == old
            &&& new[old.len() as int].app@ == app
        },
    }
}

proof fn lemma_op_touches(old: Seq<InstallLogEntry>, new: Seq<InstallLogEntry>, op: LogOp, v: Seq<char>)
    requires
        op_post(old, new, op, v),
        !(op is InsertFirst),
    ensures
        touches_only(old, new, op_app(op)),
{
    reveal(op_post);
}

proof fn lemma_touch_elsewhere(
    old: Seq<InstallLogEntry>,
    new: Seq<InstallLogEntry>,
    app: Seq<char>,
    other: Seq<char>,
)
    requires
        touches_only(old, new, app),
        app != other,
    ensures
        status_of(new, other) == status_of(old, other),
        new.len() >= old.len(),
        old.len() > 0 && old[0].app@ != app ==> new[0] == old[0],
{
    lemma_entry_index(old, app);
    lemma_entry_index(old, other);
    match entry_index(old, app) {
        Some(i) => {
            assert forall|j: int| 0 <= j < old.len() implies #[trigger] old[j].app@ == new[j].app@ by {
                if j != i {
                    assert(new[j] == old[j]);
                }
            }
            lemma_entry_index_same_apps(old, new, other);
            if let Some(k) = entry_index(old, other) {
                assert(k != i);
                assert(new[k] == old[k]);
            }
            if old.len() > 0 && old[0].app@ != app {
                assert(i != 0);
            }
        },
        None => {
            if new != old {
                lemma_entry_index_appended(old, new, other);
                if let Some(k) = entry_index(old, other) {
                    assert(new.subrange(0, old.len() as int)[k] == new[k]);
                }
                if old.len() > 0 {
                    assert(new.subrange(0, old.len() as int)[0] == new[0]);
                }
            }
        },
    }
}

/// Changes that all address `app` leave the status of every other program
/// and, when it is another program's, the first line as they were.
proof fn lemma_ops_elsewhere(
    old: Seq<InstallLogEntry>,
    new: Seq<InstallLogEntry>,
    ops: Seq<LogOp>,
    vals: Seq<Seq<char>>,
    app: Seq<char>,
)
    requires
        forall|i: int| 0 <= i < ops.len() ==> addresses(#[trigger] ops[i], app),
        ops_post(old, new, ops, vals),
    ensures
        forall|other: Seq<char>| other != app ==> #[trigger] status_of(new, other) == status_of(old, other),
        new.len() >= old.len(),
        old.len() > 0 && old[0].app@ != app ==> new[0] == old[0],
    decreases ops.len(),
{
    if ops.len() > 0 {
        let mid = choose|mid: Seq<InstallLogEntry>|
            #[trigger] op_post(old, mid, ops[0], vals[0]) && ops_post(
                mid,
                new,
                ops.drop_first(),
                vals.drop_first(),
            );
        assert(addresses(ops[0], app));
        lemma_op_touches(old, mid, ops[0], vals[0]);
        assert forall|i: int| 0 <= i < ops.drop_first().len() implies addresses(
            #[trigger] ops.drop_first()[i],
            app,
        ) by {
            assert(addresses(ops[i + 1], app));
        }
        lemma_ops_elsewhere(mid, new, ops.drop_first(), vals.drop_first(), app);
        assert forall|other: Seq<char>| other != app implies #[trigger] status_of(new, other)
            == status_of(old, other) by {
            lemma_touch_elsewhere(old, mid, app, other);
        }
        if old.len() > 0 {
            assert(app.push('/').len() == app.len() + 1);
            assert(app.push('/') != app);
            lemma_touch_elsewhere(old, mid, app, app.push('/'));
        }
    }
}

/// After changes that all address `app` and end with a status change,
/// `app` has that status.
proof fn lemma_ops_last_status(
    old: Seq<InstallLogEntry>,
    new: Seq<InstallLogEntry>,
    ops: Seq<LogOp>,
    vals: Seq<Seq<char>>,
    app: Seq<char>,
)
    requires
        ops.len() > 0,
        forall|i: int| 0 <= i < ops.len() ==> addresses(#[trigger] ops[i], app),
        ops.last() is SetStatus,
        ops_post(old, new, ops, vals),
    ensures
        status_of(new, app) == Some(ops.last()->SetStatus_status),
    decreases ops.len(),
{
    let mid = choose|mid: Seq<InstallLogEntry>|
        #[trigger] op_post(old, mid, ops[0], vals[0]) && ops_post(
            mid,
            new,
            ops.drop_first(),
            vals.drop_first(),
        );
    assert(addresses(ops[0], app));
    if ops.len() == 1 {
        reveal(op_post);
        assert(new == mid);
        law_set_status_then_status(old, mid, app, ops[0]->SetStatus_status);
    } else {
        assert forall|i: int| 0 <= i < ops.drop_first().len() implies addresses(
            #[trigger] ops.drop_first()[i],
            app,
        ) by {
            assert(addresses(ops[i + 1], app));
        }
        assert(ops.drop_first().last() == ops.last());
        lemma_ops_last_status(mid, new, ops.drop_first(), vals.drop_first(), app);
    }
}

/// Every change of an installation step addresses the program's line.
proof fn lemma_install_ops_address(
    t: Translations,
    options: InstallOptions,
    job: ProgramInstall,
    dirs: InstallDirsText,
    step: InstallStep,
    ops: Seq<LogOp>,
    cmd: InstallCommand,
)
    requires
        spec_install_step(t, options, job, dirs, step, ops, cmd),
    ensures
        forall|i: int| 0 <= i < ops.len() ==> addresses(#[trigger] ops[i], job.name@),
{
    assert forall|i: int| 0 <= i < ops.len() implies addresses(#[trigger] ops[i], job.name@) by {
        if i == 0 {
        } else if i == 1 {
        } else {
        }
    }
}

/// The program's line is done (with the program's name) or in error.
pub open spec fn closed_status(s: Option<InstallStatus>, app: Seq<char>) -> bool {
    ||| (s matches Some(InstallStatus::Done(x)) && x@ == app)
    ||| (s matches Some(InstallStatus::Error(_)))
}

proof fn lemma_install_finish_closed(
    t: Translations,
    options: InstallOptions,
    job: ProgramInstall,
    dirs: InstallDirsText,
    step: InstallStep,
    ops: Seq<LogOp>,
    cmd: InstallCommand,
    old: Seq<InstallLogEntry>,
    new: Seq<InstallLogEntry>,
    vals: Seq<Seq<char>>,
)
    requires
        spec_install_step(t, options, job, dirs, step, ops, cmd),
        cmd is Finish,
        ops_post(old, new, ops, vals),
    ensures
        closed_status(status_of(new, job.name@), job.name@),
{
    let name = job.name@;
    lemma_install_ops_address(t, options, job, dirs, step, ops, cmd);
    if step is RecordWritten {
        let mid = choose|mid: Seq<InstallLogEntry>|
            #[trigger] op_post(old, mid, ops[0], vals[0]) && ops_post(
                mid,
                new,
                ops.drop_first(),
                vals.drop_first(),
            );
        let rest = ops.drop_first();
        let m2 = choose|m: Seq<InstallLogEntry>|
            #[trigger] op_post(mid, m, rest[0], vals.drop_first()[0]) && ops_post(
                m,
                new,
                rest.drop_first(),
                vals.drop_first().drop_first(),
            );
        assert(rest.drop_first().len() == 0);
        assert(new == m2);
        reveal(op_post);
        law_set_status_then_status(old, mid, name, ops[0]->SetStatus_status);
        law_action_appends(mid, m2, name, rest[0]->message);
    } else {
        assert(ops.len() > 0);
        lemma_ops_last_status(old, new, ops, vals, name);
    }
}

/// A run of the installation of one program: each step answered with the
/// outcome of the previous command, its changes applied to the log, until
/// the step that ends it.
pub open spec fn install_run(
    t: Translations,
    options: InstallOptions,
    job: ProgramInstall,
    dirs: InstallDirsText,
    steps: Seq<InstallStep>,
    opss: Seq<Seq<LogOp>>,
    cmds: Seq<InstallCommand>,
    values: Seq<Seq<Seq<char>>>,
    logs: Seq<Seq<InstallLogEntry>>,
) -> bool {
    &&& steps.len() > 0
    &&& opss.len() == steps.len()
    &&& cmds.len() == steps.len()
    &&& values.len() == steps.len()
    &&& logs.len() == steps.len() + 1
    &&& forall|j: int|
        0 <= j < steps.len() ==> spec_install_step(t, options, job, dirs, #[trigger] steps[j], opss[j], cmds[j])
    &&& forall|j: int| 0 <= j < steps.len() ==> ops_post(#[trigger] logs[j], logs[j + 1], opss[j], values[j])
    &&& cmds.last() is Finish
}

proof fn lemma_install_run_from(
    t: Translations,
    options: InstallOptions,
    job: ProgramInstall,
    dirs: InstallDirsText,
    steps: Seq<InstallStep>,
    opss: Seq<Seq<LogOp>>,
    cmds: Seq<InstallCommand>,
    values: Seq<Seq<Seq<char>>>,
    logs: Seq<Seq<InstallLogEntry>>,
    k: int,
)
    requires
        install_run(t, options, job, dirs, steps, opss, cmds, values, logs),
        0 <= k <= steps.len(),
    ensures
        forall|other: Seq<char>| other != job.name@ ==> #[trigger] status_of(logs.last(), other) == status_of(logs[k], other),
        logs.last().len() >= logs[k].len(),
        logs[k].len() > 0 && logs[k][0].app@ != job.name@ ==> logs.last()[0] == logs[k][0],
        k < steps.len() ==> closed_status(status_of(logs.last(), job.name@), job.name@),
    decreases steps.len() - k,
{
    if k < steps.len() {
        assert(spec_install_step(t, options, job, dirs, steps[k], opss[k], cmds[k]));
        assert(ops_post(logs[k], logs[k + 1], opss[k], values[k]));
        lemma_install_ops_address(t, options, job, dirs, steps[k], opss[k], cmds[k]);
        lemma_ops_elsewhere(logs[k], logs[k + 1], opss[k], values[k], job.name@);
        lemma_install_run_from(t, options, job, dirs, steps, opss, cmds, values, logs, k + 1);
        if k == steps.len() - 1 {
            lemma_install_finish_closed(
                t,
                options,
                job,
                dirs,
                steps[k],
                opss[k],
                cmds[k],
                logs[k],
                logs[k + 1],
                values[k],
            );
        } else {
            assert forall|other: Seq<char>| other != job.name@ && other != job.name@ implies
                #[trigger] status_of(logs.last(), other) == status_of(logs[k], other) by {
                assert(status_of(logs.last(), other) == status_of(logs[k + 1], other));
                assert(status_of(logs[k + 1], other) == status_of(logs[k], other));
            }
        }
    }
}

/// The installation of one program ends with the program's line done or in
/// error; the status of every other program and a first line that is
/// another program's stay as they were.
pub proof fn law_install_run(
    t: Translations,
    options: InstallOptions,
    job: ProgramInstall,
    dirs: InstallDirsText,
    steps: Seq<InstallStep>,
    opss: Seq<Seq<LogOp>>,
    cmds: Seq<InstallCommand>,
    values: Seq<Seq<Seq<char>>>,
    logs: Seq<Seq<InstallLogEntry>>,
)
    requires
        install_run(t, options, job, dirs, steps, opss, cmds, values, logs),
    ensures
        closed_status(status_of(logs.last(), job.name@), job.name@),
        forall|other: Seq<char>| other != job.name@ ==> #[trigger] status_of(logs.last(), other) == status_of(logs[0], other),
        logs.last().len() >= logs[0].len(),
        logs[0].len() > 0 && logs[0][0].app@ != job.name@ ==> logs.last()[0] == logs[0][0],
{
    lemma_install_run_from(t, options, job, dirs, steps, opss, cmds, values, logs, 0);
}

/// A run of the pre-check: its first step, then each step answered with the
/// outcome of the previous command, its changes applied to the log, until
/// the step that ends it.
pub open spec fn precheck_run(
    t: Translations,
    programs: Seq<ProgramInstall>,
    steps: Seq<PrecheckStep>,
    opss: Seq<Seq<LogOp>>,
    cmds: Seq<PrecheckCommand>,
    values: Seq<Seq<Seq<char>>>,
    logs: Seq<Seq<InstallLogEntry>>,
) -> bool {
    &&& steps.len() > 0
    &&& opss.len() == steps.len()
    &&& cmds.len() == steps.len()
    &&& values.len() == steps.len()
    &&& logs.len() == steps.len() + 1
    &&& steps[0] is Begin
    &&& forall|j: int| 0 < j < steps.len() ==> !(#[trigger] steps[j] is Begin)
    &&& forall|j: int|
        0 <= j < steps.len() ==> spec_precheck_step(t, programs, #[trigger] steps[j], opss[j], cmds[j])
    &&& forall|j: int| 0 <= j < steps.len() ==> ops_post(#[trigger] logs[j], logs[j + 1], opss[j], values[j])
    &&& cmds.last() is Finish
}

/// The pre-check takes the log from `before` to `after`.
pub open spec fn precheck_leads(
    t: Translations,
    programs: Seq<ProgramInstall>,
    before: Seq<InstallLogEntry>,
    after: Seq<InstallLogEntry>,
) -> bool {
    exists|r: (
        Seq<PrecheckStep>,
        Seq<Seq<LogOp>>,
        Seq<PrecheckCommand>,
        Seq<Seq<Seq<char>>>,
        Seq<Seq<InstallLogEntry>>,
    )|
        #[trigger] precheck_run(t, programs, r.0, r.1, r.2, r.3, r.4) && r.4[0] == before && r.4.last()
            == after
}

/// The installation of `job` takes the log from `before` to `after`.
pub open spec fn install_leads(
    t: Translations,
    options: InstallOptions,
    job: ProgramInstall,
    dirs: InstallDirsText,
    before: Seq<InstallLogEntry>,
    after: Seq<InstallLogEntry>,
) -> bool {
    exists|r: (
        Seq<InstallStep>,
        Seq<Seq<LogOp>>,
        Seq<InstallCommand>,
        Seq<Seq<Seq<char>>>,
        Seq<Seq<InstallLogEntry>>,
    )|
        #[trigger] install_run(t, options, job, dirs, r.0, r.1, r.2, r.3, r.4) && r.4[0] == before
            && r.4.last() == after
}

proof fn lemma_programs_from(
    t: Translations,
    options: InstallOptions,
    programs: Seq<ProgramInstall>,
    dirs: Seq<InstallDirsText>,
    bounds: Seq<Seq<InstallLogEntry>>,
    k: int,
)
    requires
        0 <= k <= programs.len(),
        bounds.len() == programs.len() + 1,
        dirs.len() == programs.len(),
        forall|j: int|
            0 <= j < programs.len() ==> install_leads(t, options, programs[j], dirs[j], #[trigger] bounds[j], bounds[j + 1]),
        forall|j: int| 0 <= j < programs.len() ==> (#[trigger] programs[j]).name@ != bounds[k][0].app@,
        forall|i: int, j: int|
            0 <= i < j < programs.len() ==> (#[trigger] programs[i]).name@ != (#[trigger] programs[j]).name@,
        bounds[k].len() > 0,
        forall|i: int|
            0 <= i < k ==> closed_status(status_of(bounds[k], (#[trigger] programs[i]).name@), programs[i].name@),
    ensures
        bounds.last().len() > 0,
        bounds.last()[0] == bounds[k][0],
        forall|i: int|
            0 <= i < programs.len() ==> closed_status(
                status_of(bounds.last(), (#[trigger] programs[i]).name@),
                programs[i].name@,
            ),
    decreases programs.len() - k,
{
    if k < programs.len() {
        let job = programs[k];
        assert(install_leads(t, options, job, dirs[k], bounds[k], bounds[k + 1]));
        let r = choose|r: (
            Seq<InstallStep>,
            Seq<Seq<LogOp>>,
            Seq<InstallCommand>,
            Seq<Seq<Seq<char>>>,
            Seq<Seq<InstallLogEntry>>,
        )|
            #[trigger] install_run(t, options, job, dirs[k], r.0, r.1, r.2, r.3, r.4) && r.4[0]
                == bounds[k] && r.4.last() == bounds[k + 1];
        law_install_run(t, options, job, dirs[k], r.0, r.1, r.2, r.3, r.4);
        assert(programs[k].name@ != bounds[k][0].app@);
        assert forall|i: int| 0 <= i < k + 1 implies closed_status(
            status_of(bounds[k + 1], (#[trigger] programs[i]).name@),
            programs[i].name@,
        ) by {
            if i < k {
                assert(programs[i].name@ != programs[k].name@);
                assert(status_of(r.4.last(), programs[i].name@) == status_of(r.4[0], programs[i].name@));
            }
        }
        lemma_programs_from(t, options, programs, dirs, bounds, k + 1);
    }
}

/// A whole installation, the pre-check and then each program in turn, ends
/// with the pre-check line first and done, and the line of every program
/// done or in error: none is left pending or in progress. (The programs'
/// names differ from each other and from the pre-check's title.)
pub proof fn law_installation(
    t: Translations,
    options: InstallOptions,
    programs: Seq<ProgramInstall>,
    dirs: Seq<InstallDirsText>,
    base: Seq<InstallLogEntry>,
    bounds: Seq<Seq<InstallLogEntry>>,
)
    requires
        bounds.len() == programs.len() + 1,
        dirs.len() == programs.len(),
        precheck_leads(t, programs, base, bounds[0]),
        forall|j: int|
            0 <= j < programs.len() ==> install_leads(t, options, programs[j], dirs[j], #[trigger] bounds[j], bounds[j + 1]),
        forall|j: int| 0 <= j < programs.len() ==> (#[trigger] programs[j]).name@ != t.precheck_title@,
        forall|i: int, j: int|
            0 <= i < j < programs.len() ==> (#[trigger] programs[i]).name@ != (#[trigger] programs[j]).name@,
    ensures
        bounds.last()[0].app@ == t.precheck_title@,
        bounds.last()[0].status matches InstallStatus::Done(x) && x@ == t.precheck_done@,
        bounds.last()[0].actions@.len() >= 1,
        bounds.last()[0].actions@[0]@ == t.precheck_checking_conn@,
        forall|i: int|
            0 <= i < programs.len() ==> closed_status(
                status_of(bounds.last(), (#[trigger] programs[i]).name@),
                programs[i].name@,
            ),
{
    let r = choose|r: (
        Seq<PrecheckStep>,
        Seq<Seq<LogOp>>,
        Seq<PrecheckCommand>,
        Seq<Seq<Seq<char>>>,
        Seq<Seq<InstallLogEntry>>,
    )|
        #[trigger] precheck_run(t, programs, r.0, r.1, r.2, r.3, r.4) && r.4[0] == base && r.4.last()
            == bounds[0];
    law_precheck_run(t, programs, base, r.0, r.1, r.2, r.3, r.4);
    lemma_programs_from(t, options, programs, dirs, bounds, 0);
}

// ───────────────────────────── uninstallation runs ─────────────────────────────

/// After changes that all address `app` and end with a status change then
/// an action, `app` has that status.
proof fn lemma_ops_status_then_action(
    old: Seq<InstallLogEntry>,
    new: Seq<InstallLogEntry>,
    ops: Seq<LogOp>,
    vals: Seq<Seq<char>>,
    app: Seq<char>,
)
    requires
        ops.len() >= 2,
        forall|i: int| 0 <= i < ops.len() ==> addresses(#[trigger] ops[i], app),
        ops[ops.len() - 2] is SetStatus,
        ops.last() is Action,
        ops_post(old, new, ops, vals),
    ensures
        status_of(new, app) == Some(ops[ops.len() - 2]->SetStatus_status),
    decreases ops.len(),
{
    let mid = choose|mid: Seq<InstallLogEntry>|
        #[trigger] op_post(old, mid, ops[0], vals[0]) && ops_post(
            mid,
            new,
            ops.drop_first(),
            vals.drop_first(),
        );
    assert(addresses(ops[0], app));
    if ops.len() == 2 {
        let rest = ops.drop_first();
        let m2 = choose|m: Seq<InstallLogEntry>|
            #[trigger] op_post(mid, m, rest[0], vals.drop_first()[0]) && ops_post(
                m,
                new,
                rest.drop_first(),
                vals.drop_first().drop_first(),
            );
        assert(rest.drop_first().len() == 0);
        assert(new == m2);
        assert(addresses(ops[1], app));
        reveal(op_post);
        law_set_status_then_status(old, mid, app, ops[0]->SetStatus_status);
        law_action_appends(mid, m2, app, rest[0]->message);
    } else {
        assert forall|i: int| 0 <= i < ops.drop_first().len() implies addresses(
            #[trigger] ops.drop_first()[i],
            app,
        ) by {
            assert(addresses(ops[i + 1], app));
        }
        assert(ops.drop_first()[ops.drop_first().len() - 2] == ops[ops.len() - 2]);
        assert(ops.drop_first().last() == ops.last());
        lemma_ops_status_then_action(mid, new, ops.drop_first(), vals.drop_first(), app);
    }
}

/// Every change of an uninstallation step addresses the program's line.
proof fn lemma_uninstall_ops_address(
    t: Translations,
    name: Seq<char>,
    dirs: UninstallDirsText,
    step: UninstallStep,
    ops: Seq<LogOp>,
    cmd: UninstallCommand,
)
    requires
        spec_uninstall_step(t, name, dirs, step, ops, cmd),
    ensures
        forall|i: int| 0 <= i < ops.len() ==> addresses(#[trigger] ops[i], name),
{
    assert forall|i: int| 0 <= i < ops.len() implies addresses(#[trigger] ops[i], name) by {
        if i == 0 {
        } else if i == 1 {
        } else {
        }
    }
}

/// The program's line is done, with the program's name.
pub open spec fn done_status(s: Option<InstallStatus>, app: Seq<char>) -> bool {
    s matches Some(InstallStatus::Done(x)) && x@ == app
}

/// A run of the uninstallation of one program: each step answered with the
/// outcome of the previous command, its changes applied to the log, until
/// the step that ends it.
pub open spec fn uninstall_run(
    t: Translations,
    name: Seq<char>,
    dirs: UninstallDirsText,
    steps: Seq<UninstallStep>,
    opss: Seq<Seq<LogOp>>,
    cmds: Seq<UninstallCommand>,
    values: Seq<Seq<Seq<char>>>,
    logs: Seq<Seq<InstallLogEntry>>,
) -> bool {
    &&& steps.len() > 0
    &&& opss.len() == steps.len()
    &&& cmds.len() == steps.len()
    &&& values.len() == steps.len()
    &&& logs.len() == steps.len() + 1
    &&& forall|j: int|
        0 <= j < steps.len() ==> spec_uninstall_step(t, name, dirs, #[trigger] steps[j], opss[j], cmds[j])
    &&& forall|j: int| 0 <= j < steps.len() ==> ops_post(#[trigger] logs[j], logs[j + 1], opss[j], values[j])
    &&& cmds.last() is Finish
}

proof fn lemma_uninstall_run_from(
    t: Translations,
    name: Seq<char>,
    dirs: UninstallDirsText,
    steps: Seq<UninstallStep>,
    opss: Seq<Seq<LogOp>>,
    cmds: Seq<UninstallCommand>,
    values: Seq<Seq<Seq<char>>>,
    logs: Seq<Seq<InstallLogEntry>>,
    k: int,
)
    requires
        uninstall_run(t, name, dirs, steps, opss, cmds, values, logs),
        0 <= k <= steps.len(),
    ensures
        forall|other: Seq<char>| other != name ==> #[trigger] status_of(logs.last(), other) == status_of(logs[k], other),
        logs.last().len() >= logs[k].len(),
        logs[k].len() > 0 && logs[k][0].app@ != name ==> logs.last()[0] == logs[k][0],
        k < steps.len() ==> done_status(status_of(logs.last(), name), name),
    decreases steps.len() - k,
{
    if k < steps.len() {
        assert(spec_uninstall_step(t, name, dirs, steps[k], opss[k], cmds[k]));
        assert(ops_post(logs[k], logs[k + 1], opss[k], values[k]));
        lemma_uninstall_ops_address(t, name, dirs, steps[k], opss[k], cmds[k]);
        lemma_ops_elsewhere(logs[k], logs[k + 1], opss[k], values[k], name);
        lemma_uninstall_run_from(t, name, dirs, steps, opss, cmds, values, logs, k + 1);
        if k == steps.len() - 1 {
            law_uninstall_ends_done(t, name, dirs, steps[k], opss[k], cmds[k]);
            lemma_ops_status_then_action(logs[k], logs[k + 1], opss[k], values[k], name);
        } else {
            assert forall|other: Seq<char>| other != name implies #[trigger] status_of(
                logs.last(),
                other,
            ) == status_of(logs[k], other) by {
                assert(status_of(logs.last(), other) == status_of(logs[k + 1], other));
                assert(status_of(logs[k + 1], other) == status_of(logs[k], other));
            }
        }
    }
}

/// The uninstallation of one program ends with the program's line done;
/// the status of every other program and a first line that is another
/// program's stay as they were.
pub proof fn law_uninstall_run(
    t: Translations,
    name: Seq<char>,
    dirs: UninstallDirsText,
    steps: Seq<UninstallStep>,
    opss: Seq<Seq<LogOp>>,
    cmds: Seq<UninstallCommand>,
    values: Seq<Seq<Seq<char>>>,
    logs: Seq<Seq<InstallLogEntry>>,
)
    requires
        uninstall_run(t, name, dirs, steps, opss, cmds, values, logs),
    ensures
        done_status(status_of(logs.last(), name), name),
        forall|other: Seq<char>| other != name ==> #[trigger] status_of(logs.last(), other) == status_of(logs[0], other),
        logs.last().len() >= logs[0].len(),
        logs[0].len() > 0 && logs[0][0].app@ != name ==> logs.last()[0] == logs[0][0],
{
    lemma_uninstall_run_from(t, name, dirs, steps, opss, cmds, values, logs, 0);
}

/// The uninstallation of `name` takes the log from `before` to `after`.
pub open spec fn uninstall_leads(
    t: Translations,
    name: Seq<char>,
    dirs: UninstallDirsText,
    before: Seq<InstallLogEntry>,
    after: Seq<InstallLogEntry>,
) -> bool {
    exists|r: (
        Seq<UninstallStep>,
        Seq<Seq<LogOp>>,
        Seq<UninstallCommand>,
        Seq<Seq<Seq<char>>>,
        Seq<Seq<InstallLogEntry>>,
    )|
        #[trigger] uninstall_run(t, name, dirs, r.0, r.1, r.2, r.3, r.4) && r.4[0] == before
            && r.4.last() == after
}

proof fn lemma_uninstalls_from(
    t: Translations,
    names: Seq<Seq<char>>,
    dirs: Seq<UninstallDirsText>,
    bounds: Seq<Seq<InstallLogEntry>>,
    k: int,
)
    requires
        0 <= k <= names.len(),
        bounds.len() == names.len() + 1,
        dirs.len() == names.len(),
        forall|j: int|
            0 <= j < names.len() ==> uninstall_leads(t, names[j], dirs[j], #[trigger] bounds[j], bounds[j + 1]),
        forall|i: int, j: int| 0 <= i < j < names.len() ==> #[trigger] names[i] != #[trigger] names[j],
        forall|i: int| 0 <= i < k ==> done_status(status_of(bounds[k], #[trigger] names[i]), names[i]),
    ensures
        forall|i: int|
            0 <= i < names.len() ==> done_status(status_of(bounds.last(), #[trigger] names[i]), names[i]),
    decreases names.len() - k,
{
    if k < names.len() {
        assert(uninstall_leads(t, names[k], dirs[k], bounds[k], bounds[k + 1]));
        let r = choose|r: (
            Seq<UninstallStep>,
            Seq<Seq<LogOp>>,
            Seq<UninstallCommand>,
            Seq<Seq<Seq<char>>>,
            Seq<Seq<InstallLogEntry>>,
        )|
            #[trigger] uninstall_run(t, names[k], dirs[k], r.0, r.1, r.2, r.3, r.4) && r.4[0]
                == bounds[k] && r.4.last() == bounds[k + 1];
        law_uninstall_run(t, names[k], dirs[k], r.0, r.1, r.2, r.3, r.4);
        assert forall|i: int| 0 <= i < k + 1 implies done_status(
            status_of(bounds[k + 1], #[trigger] names[i]),
            names[i],
        ) by {
            if i < k {
                assert(names[i] != names[k]);
                assert(status_of(r.4.last(), names[i]) == status_of(r.4[0], names[i]));
            }
        }
        lemma_uninstalls_from(t, names, dirs, bounds, k + 1);
    }
}

/// A whole uninstallation, each program in turn, ends with the line of
/// every program done (the names being distinct).
pub proof fn law_uninstallation(
    t: Translations,
    names: Seq<Seq<char>>,
    dirs: Seq<UninstallDirsText>,
    bounds: Seq<Seq<InstallLogEntry>>,
)
    requires
        bounds.len() == names.len() + 1,
        dirs.len() == names.len(),
        forall|j: int|
            0 <= j < names.len() ==> uninstall_leads(t, names[j], dirs[j], #[trigger] bounds[j], bounds[j + 1]),
        forall|i: int, j: int| 0 <= i < j < names.len() ==> #[trigger] names[i] != #[trigger] names[j],
    ensures
        forall|i: int|
            0 <= i < names.len() ==> done_status(status_of(bounds.last(), #[trigger] names[i]), names[i]),
{
    lemma_uninstalls_from(t, names, dirs, bounds, 0);
}

} // verus!
