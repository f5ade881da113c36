//! The order of shell calls that registers, refreshes and restores the tray
//! icon, as a state machine driven by the outcome of each call.
use vstd::prelude::*;

verus! {

/// One call into the shell's notification-area interface.
#[derive(PartialEq, Eq, Structural, Clone, Copy, Debug)]
pub enum ShellOp {
    /// Register the icon (`NIM_ADD`).
    Add,
    /// Change the registered icon's data (`NIM_MODIFY`).
    Modify,
    /// Remove the icon (`NIM_DELETE`).
    Delete,
    /// Select version 4 behaviour of the icon (`NIM_SETVERSION`).
    SetVersion,
}

/// Where a plan stands: the call it issues next.
#[derive(PartialEq, Eq, Structural, Clone, Copy, Debug)]
pub enum Stage {
    /// Delete a stale registration left by an earlier instance.
    Delete,
    /// Register the icon.
    Add,
    /// The first registration failed: delete again.
    RetryDelete,
    /// Register once more, whatever the outcome.
    RetryAdd,
    /// Select version 4 behaviour.
    SetVersion,
    /// Send the current icon data.
    Modify,
    /// Send the current icon data again after re-registering.
    RetryModify,
    /// Nothing left to do.
    Idle,
}

/// What follows a completed registration.
#[derive(PartialEq, Eq, Structural, Clone, Copy, Debug)]
pub enum AfterRegister {
    /// Nothing: the plan is done.
    Finish,
    /// Send the icon data, as a refresh does.
    Resend,
    /// Send the icon data once more, whatever the outcome.
    RetryModify,
}

/// A plan of shell calls: its stage and what follows registration.
#[derive(PartialEq, Eq, Structural, Clone, Copy, Debug)]
pub struct ShellPlan {
    pub stage: Stage,
    pub after: AfterRegister,
}

/// The call that a stage issues; `Idle` issues none.
pub open spec fn stage_op(stage: Stage) -> Option<ShellOp> {
    match stage {
        Stage::Delete => Some(ShellOp::Delete),
        Stage::Add => Some(ShellOp::Add),
        Stage::RetryDelete => Some(ShellOp::Delete),
        Stage::RetryAdd => Some(ShellOp::Add),
        Stage::SetVersion => Some(ShellOp::SetVersion),
        Stage::Modify => Some(ShellOp::Modify),
        Stage::RetryModify => Some(ShellOp::Modify),
        Stage::Idle => None,
    }
}

impl ShellPlan {
    /// Registration: delete any stale icon, add; if adding failed, delete and
    /// add once more; then select version 4.
    pub open spec fn register_spec() -> ShellPlan {
        ShellPlan { stage: Stage::Delete, after: AfterRegister::Finish }
    }

    /// Refresh: send the icon data; if that failed (the icon is gone),
    /// register it again and send the data once more.
    pub open spec fn refresh_spec() -> ShellPlan {
        ShellPlan { stage: Stage::Modify, after: AfterRegister::RetryModify }
    }

    /// Restore: register, then refresh with the data as it was.
    pub open spec fn restore_spec() -> ShellPlan {
        ShellPlan { stage: Stage::Delete, after: AfterRegister::Resend }
    }

    /// The call this plan issues now, if any.
    pub open spec fn op_spec(self) -> Option<ShellOp> {
        stage_op(self.stage)
    }

    /// The plan after the current call returned `ok` (success).
    pub open spec fn next_spec(self, ok: bool) -> ShellPlan {
        let stage = match self.stage {
            Stage::Delete => Stage::Add,
            Stage::Add => if ok { Stage::SetVersion } else { Stage::RetryDelete },
            Stage::RetryDelete => Stage::RetryAdd,
            Stage::RetryAdd => Stage::SetVersion,
            Stage::SetVersion => match self.after {
                AfterRegister::Finish => Stage::Idle,
                AfterRegister::Resend => Stage::Modify,
                AfterRegister::RetryModify => Stage::RetryModify,
            },
            Stage::Modify => if ok { Stage::Idle } else { Stage::Delete },
            Stage::RetryModify => Stage::Idle,
            Stage::Idle => Stage::Idle,
        };
        let after = match self.stage {
            Stage::Modify => AfterRegister::RetryModify,
            _ => self.after,
        };
        ShellPlan { stage, after }
    }

    /// The calls issued when the calls return `outcomes`, in order, until the
    /// plan is done or the outcomes run out.
    pub open spec fn trace(self, outcomes: Seq<bool>) -> Seq<ShellOp>
        decreases outcomes.len(),
    {
        if self.stage == Stage::Idle || outcomes.len() == 0 {
            Seq::empty()
        } else {
            seq![self.op_spec().unwrap()] + self.next_spec(outcomes[0]).trace(
                outcomes.drop_first(),
            )
        }
    }

    /// The plan once the calls have returned `outcomes`.
    pub open spec fn run(self, outcomes: Seq<bool>) -> ShellPlan
        decreases outcomes.len(),
    {
        if self.stage == Stage::Idle || outcomes.len() == 0 {
            self
        } else {
            self.next_spec(outcomes[0]).run(outcomes.drop_first())
        }
    }

    /// A registration plan.
    pub fn register() -> (p: ShellPlan)
        ensures
            p == Self::register_spec(),
    {
        ShellPlan { stage: Stage::Delete, after: AfterRegister::Finish }
    }

    /// A refresh plan.
    pub fn refresh() -> (p: ShellPlan)
        ensures
            p == Self::refresh_spec(),
    {
        ShellPlan { stage: Stage::Modify, after: AfterRegister::RetryModify }
    }

    /// A restore plan.
    pub fn restore() -> (p: ShellPlan)
        ensures
            p == Self::restore_spec(),
    {
        ShellPlan { stage: Stage::Delete, after: AfterRegister::Resend }
    }

    /// The call to make now, or `None` once the plan is done.
    pub fn op(&self) -> (op: Option<ShellOp>)
        ensures
            op == self.op_spec(),
    {
        match self.stage {
            Stage::Delete => Some(ShellOp::Delete),
            Stage::Add => Some(ShellOp::Add),
            Stage::RetryDelete => Some(ShellOp::Delete),
            Stage::RetryAdd => Some(ShellOp::Add),
            Stage::SetVersion => Some(ShellOp::SetVersion),
            Stage::Modify => Some(ShellOp::Modify),
            Stage::RetryModify => Some(ShellOp::Modify),
            Stage::Idle => None,
        }
    }

    /// Moves past the current call, which returned `ok`.
    pub fn advance(&mut self, ok: bool)
        ensures
            *final(self) == old(self).next_spec(ok),
    {
        let stage = match self.stage {
            Stage::Delete => Stage::Add,
            Stage::Add => if ok {
                Stage::SetVersion
            } else {
                Stage::RetryDelete
            },
            Stage::RetryDelete => Stage::RetryAdd,
            Stage::RetryAdd => Stage::SetVersion,
            Stage::SetVersion => match self.after {
                AfterRegister::Finish => Stage::Idle,
                AfterRegister::Resend => Stage::Modify,
                AfterRegister::RetryModify => Stage::RetryModify,
            },
            Stage::Modify => if ok {
                Stage::Idle
            } else {
                Stage::Delete
            },
            Stage::RetryModify => Stage::Idle,
            Stage::Idle => Stage::Idle,
        };
        let after = match self.stage {
            Stage::Modify => AfterRegister::RetryModify,
            _ => self.after,
        };
        self.stage = stage;
        self.after = after;
    }

    /// Whether the plan is done.
    pub fn is_done(&self) -> (b: bool)
        ensures
            b <==> self.stage == Stage::Idle,
    {
        match self.stage {
            Stage::Idle => true,
            _ => false,
        }
    }
}

/// The calls of a registration whose first `Add` returned `first_add_ok`.
pub open spec fn register_ops(first_add_ok: bool) -> Seq<ShellOp> {
    if first_add_ok {
        seq![ShellOp::Delete, ShellOp::Add, ShellOp::SetVersion]
    } else {
        seq![ShellOp::Delete, ShellOp::Add, ShellOp::Delete, ShellOp::Add, ShellOp::SetVersion]
    }
}

/// The number of calls of such a registration.
pub open spec fn register_len(first_add_ok: bool) -> int {
    if first_add_ok { 3 } else { 5 }
}

/// Registration deletes before it adds, adds a second time exactly when the
/// first add failed, always ends by selecting version 4, and is then done.
pub proof fn lemma_register_protocol(outcomes: Seq<bool>)
    requires
        outcomes.len() >= 5,
    ensures
        ShellPlan::register_spec().trace(outcomes) == register_ops(outcomes[1]),
        ShellPlan::register_spec().run(outcomes).stage == Stage::Idle,
{
    lemma_register_then(ShellPlan::register_spec(), outcomes);
    let rest = outcomes.skip(register_len(outcomes[1]));
    assert(continuation(AfterRegister::Finish).trace(rest) == Seq::<ShellOp>::empty());
    assert(register_ops(outcomes[1]) + Seq::<ShellOp>::empty() =~= register_ops(outcomes[1]));
}

/// The plan that takes over once a registration has selected version 4.
pub open spec fn continuation(after: AfterRegister) -> ShellPlan {
    ShellPlan { stage: Stage::SetVersion, after }.next_spec(true)
}

/// A registration phase issues `register_ops` and then hands over to the
/// plan its `after` names.
proof fn lemma_register_then(p: ShellPlan, outcomes: Seq<bool>)
    requires
        p.stage == Stage::Delete,
        outcomes.len() >= 5,
    ensures
        p.trace(outcomes) == register_ops(outcomes[1]) + continuation(p.after).trace(
            outcomes.skip(register_len(outcomes[1])),
        ),
        p.run(outcomes) == continuation(p.after).run(outcomes.skip(register_len(outcomes[1]))),
{
    let o = outcomes;
    let p1 = p.next_spec(o[0]);
    let p2 = p1.next_spec(o[1]);
    let o1 = o.drop_first();
    let o2 = o1.drop_first();
    let o3 = o2.drop_first();
    assert(o1[0] == o[1]);
    assert(o2[0] == o[2]);
    assert(o3 == o.skip(3));
    if o[1] {
        let p3 = p2.next_spec(o[2]);
        assert(p3 == continuation(p.after));
        assert(p2.trace(o2) == seq![ShellOp::SetVersion] + p3.trace(o3));
        assert(p1.trace(o1) == seq![ShellOp::Add] + p2.trace(o2));
        assert(p.trace(o) == seq![ShellOp::Delete] + p1.trace(o1));
        assert(p.trace(o) =~= register_ops(o[1]) + p3.trace(o3));
        assert(p.run(o) == p1.run(o1));
        assert(p1.run(o1) == p2.run(o2));
        assert(p2.run(o2) == p3.run(o3));
    } else {
        let p3 = p2.next_spec(o[2]);
        let p4 = p3.next_spec(o[3]);
        let p5 = p4.next_spec(o[4]);
        let o4 = o3.drop_first();
        let o5 = o4.drop_first();
        assert(o3[0] == o[3]);
        assert(o4[0] == o[4]);
        assert(o5 == o.skip(5));
        assert(p5 == continuation(p.after));
        assert(p4.trace(o4) == seq![ShellOp::SetVersion] + p5.trace(o5));
        assert(p3.trace(o3) == seq![ShellOp::Add] + p4.trace(o4));
        assert(p2.trace(o2) == seq![ShellOp::Delete] + p3.trace(o3));
        assert(p1.trace(o1) == seq![ShellOp::Add] + p2.trace(o2));
        assert(p.trace(o) == seq![ShellOp::Delete] + p1.trace(o1));
        assert(p.trace(o) =~= register_ops(o[1]) + p5.trace(o5));
        assert(p.run(o) == p1.run(o1));
        assert(p1.run(o1) == p2.run(o2));
        assert(p2.run(o2) == p3.run(o3));
        assert(p3.run(o3) == p4.run(o4));
        assert(p4.run(o4) == p5.run(o5));
    }
}

/// The calls of a refresh whose first `Modify` returned `modify_ok` and
/// whose re-registration, if any, saw its first `Add` return `add_ok`.
pub open spec fn refresh_ops(modify_ok: bool, add_ok: bool) -> Seq<ShellOp> {
    if modify_ok {
        seq![ShellOp::Modify]
    } else {
        seq![ShellOp::Modify] + register_ops(add_ok) + seq![ShellOp::Modify]
    }
}

/// A plan about to send the icon data runs the same way whatever follows
/// registration in it.
proof fn lemma_modify_ignores_after(a: AfterRegister, outcomes: Seq<bool>)
    requires
        outcomes.len() >= 1,
    ensures
        (ShellPlan { stage: Stage::Modify, after: a }).trace(outcomes)
            == ShellPlan::refresh_spec().trace(outcomes),
        (ShellPlan { stage: Stage::Modify, after: a }).run(outcomes)
            == ShellPlan::refresh_spec().run(outcomes),
{
    let p = ShellPlan { stage: Stage::Modify, after: a };
    assert(p.next_spec(outcomes[0]) == ShellPlan::refresh_spec().next_spec(outcomes[0]));
}

/// Refresh sends the icon data once; if that fails the icon is gone, so it
/// registers the icon again (as registration does) and sends the data once
/// more, whatever that returns. It is then done.
pub proof fn lemma_refresh_protocol(outcomes: Seq<bool>)
    requires
        outcomes.len() >= 7,
    ensures
        ShellPlan::refresh_spec().trace(outcomes) == refresh_ops(outcomes[0], outcomes[2]),
        ShellPlan::refresh_spec().run(outcomes).stage == Stage::Idle,
{
    let o = outcomes;
    let p = ShellPlan::refresh_spec();
    let p1 = p.next_spec(o[0]);
    let o1 = o.drop_first();
    if o[0] {
        assert(p1.stage == Stage::Idle);
        assert(p.trace(o) =~= seq![ShellOp::Modify]);
    } else {
        assert(p1 == ShellPlan { stage: Stage::Delete, after: AfterRegister::RetryModify });
        lemma_register_then(p1, o1);
        assert(o1[1] == o[2]);
        let rest = o1.skip(register_len(o[2]));
        let c = continuation(AfterRegister::RetryModify);
        assert(c.stage == Stage::RetryModify);
        assert(c.next_spec(rest[0]).stage == Stage::Idle);
        assert(rest.len() >= 1);
        assert(c.next_spec(rest[0]).trace(rest.drop_first()) == Seq::<ShellOp>::empty());
        assert(c.trace(rest) =~= seq![ShellOp::Modify]);
        assert(p.trace(o) == seq![ShellOp::Modify] + p1.trace(o1));
        assert(p.trace(o) =~= refresh_ops(o[0], o[2]));
        assert(c.run(rest) == c.next_spec(rest[0]).run(rest.drop_first()));
    }
}

/// Restore is a registration followed by a refresh.
pub proof fn lemma_restore_protocol(outcomes: Seq<bool>)
    requires
        outcomes.len() >= 12,
    ensures
        ShellPlan::restore_spec().trace(outcomes) == register_ops(outcomes[1])
            + ShellPlan::refresh_spec().trace(outcomes.skip(register_len(outcomes[1]))),
        ShellPlan::restore_spec().run(outcomes).stage == Stage::Idle,
{
    let rest = outcomes.skip(register_len(outcomes[1]));
    lemma_register_then(ShellPlan::restore_spec(), outcomes);
    lemma_modify_ignores_after(AfterRegister::Resend, rest);
    lemma_refresh_protocol(rest);
}

/// An icon as the shell knows it: its window and its identifier there.
pub type IconKey = (usize, u32);

/// How a shell that keeps the set `reg` of registered icons answers `op`
/// for the icon `key`: the set afterwards, and whether the call succeeded.
/// Adding fails for an icon already registered; deleting, modifying and
/// selecting the version fail for one that is not.
pub open spec fn shell_answer(reg: Set<IconKey>, key: IconKey, op: ShellOp) -> (Set<IconKey>, bool) {
    match op {
        ShellOp::Add => if reg.contains(key) {
            (reg, false)
        } else {
            (reg.insert(key), true)
        },
        ShellOp::Delete => if reg.contains(key) {
            (reg.remove(key), true)
        } else {
            (reg, false)
        },
        ShellOp::Modify => (reg, reg.contains(key)),
        ShellOp::SetVersion => (reg, reg.contains(key)),
    }
}

/// Runs `plan` for at most `steps` calls against such a shell, starting from
/// the registered set `reg`: the plan and the registered set afterwards.
pub open spec fn simulate(plan: ShellPlan, reg: Set<IconKey>, key: IconKey, steps: nat) -> (
    ShellPlan,
    Set<IconKey>,
)
    decreases steps,
{
    if steps == 0 || plan.stage == Stage::Idle {
        (plan, reg)
    } else {
        let answer = shell_answer(reg, key, plan.op_spec().unwrap());
        simulate(plan.next_spec(answer.1), answer.0, key, (steps - 1) as nat)
    }
}

/// Against such a shell, a registration phase takes three calls whatever
/// was registered before, leaves the icon registered once, and hands over
/// to the plan its `after` names.
proof fn lemma_register_phase(p: ShellPlan, reg: Set<IconKey>, key: IconKey, n: nat)
    requires
        p.stage == Stage::Delete,
    ensures
        simulate(p, reg, key, n + 3) == simulate(continuation(p.after), reg.insert(key), key, n),
{
    let a0 = shell_answer(reg, key, ShellOp::Delete);
    let p1 = p.next_spec(a0.1);
    assert(p1.stage == Stage::Add);
    assert(!a0.0.contains(key));
    let a1 = shell_answer(a0.0, key, ShellOp::Add);
    assert(a1.1);
    assert(a1.0 =~= reg.insert(key));
    let p2 = p1.next_spec(a1.1);
    assert(p2.stage == Stage::SetVersion);
    let a2 = shell_answer(a1.0, key, ShellOp::SetVersion);
    assert(a2.1);
    assert(p2.next_spec(a2.1) == continuation(p.after));
    assert(simulate(p, reg, key, n + 3) == simulate(p1, a0.0, key, n + 2));
    assert(simulate(p1, a0.0, key, n + 2) == simulate(p2, a1.0, key, n + 1));
    assert(simulate(p2, a1.0, key, n + 1) == simulate(p2.next_spec(a2.1), a2.0, key, n));
}

/// Registration is idempotent: against a shell that keeps a set of
/// registered icons, it leaves exactly that set plus the icon, whatever was
/// registered before (a stale registration included), and registering again
/// changes nothing.
pub proof fn lemma_register_idempotent(reg: Set<IconKey>, key: IconKey)
    ensures
        simulate(ShellPlan::register_spec(), reg, key, 3).0.stage == Stage::Idle,
        simulate(ShellPlan::register_spec(), reg, key, 3).1 == reg.insert(key),
        simulate(
            ShellPlan::register_spec(),
            simulate(ShellPlan::register_spec(), reg, key, 3).1,
            key,
            3,
        ).1 == simulate(ShellPlan::register_spec(), reg, key, 3).1,
{
    lemma_register_phase(ShellPlan::register_spec(), reg, key, 0);
    lemma_register_phase(ShellPlan::register_spec(), reg.insert(key), key, 0);
    assert(reg.insert(key).insert(key) =~= reg.insert(key));
}

/// Against such a shell, refresh leaves the icon registered, whatever was
/// registered before, and is done within five calls: one when the icon was
/// registered, five when it was gone.
pub proof fn lemma_refresh_heals(reg: Set<IconKey>, key: IconKey)
    ensures
        simulate(ShellPlan::refresh_spec(), reg, key, 5).0.stage == Stage::Idle,
        simulate(ShellPlan::refresh_spec(), reg, key, 5).1 == reg.insert(key),
{
    let p = ShellPlan::refresh_spec();
    let a = shell_answer(reg, key, ShellOp::Modify);
    let p1 = p.next_spec(a.1);
    assert(simulate(p, reg, key, 5) == simulate(p1, reg, key, 4));
    if reg.contains(key) {
        assert(p1.stage == Stage::Idle);
        assert(reg.insert(key) =~= reg);
    } else {
        assert(p1.stage == Stage::Delete);
        lemma_register_phase(p1, reg, key, 1);
        let c = continuation(p1.after);
        assert(c.stage == Stage::RetryModify);
        assert(simulate(c, reg.insert(key), key, 1) == simulate(
            c.next_spec(true),
            reg.insert(key),
            key,
            0,
        ));
    }
}

/// Against such a shell, restore registers the icon anew and then sends its
/// data, leaving it registered once, within eight calls.
pub proof fn lemma_restore_reregisters(reg: Set<IconKey>, key: IconKey)
    ensures
        simulate(ShellPlan::restore_spec(), reg, key, 8).0.stage == Stage::Idle,
        simulate(ShellPlan::restore_spec(), reg, key, 8).1 == reg.insert(key),
{
    lemma_register_phase(ShellPlan::restore_spec(), reg, key, 5);
    let c = continuation(AfterRegister::Resend);
    assert(c.stage == Stage::Modify);
    let r = reg.insert(key);
    assert(r.contains(key));
    assert(simulate(c, r, key, 5) == simulate(c.next_spec(true), r, key, 4));
    assert(r.insert(key) =~= r);
}

} // verus!
