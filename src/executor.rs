use crate::instr::{chain, lemma_chain_in_bounds, lemma_skip_agrees_with_copy, skip_register_list, Instruction};
use crate::reg::{wrap_i16, BoundedRegSpan, Reg, RegSpan};
use crate::stack::{CallFrame, CallStack, InstanceCache, ValueStack};
use crate::value::{AnyConst32, I64Const32, UntypedVal};
use vstd::prelude::*;

verus! {

/// Where execution goes after a return.
#[derive(Debug, Clone, Copy, PartialEq, Eq, Structural)]
pub enum ReturnOutcome {
    /// Execution resumes in a calling function.
    Wasm,
    /// The invocation has finished; control goes back to the host.
    Host,
}

/// `post` holds, at `dst` and the `count - 1` slots after it, what `pre`
/// held at the slots of the first `count` registers of `srcs` relative to
/// `sp`, and what `pre` held everywhere else.
pub open spec fn copied(
    pre: Seq<UntypedVal>,
    post: Seq<UntypedVal>,
    sp: int,
    srcs: Seq<Reg>,
    dst: int,
    count: int,
) -> bool {
    &&& post.len() == pre.len()
    &&& forall|i: int| 0 <= i < count ==> #[trigger] post[dst + i] == pre[sp + srcs[i].0]
    &&& forall|x: int| 0 <= x < pre.len() && !(dst <= x < dst + count) ==> #[trigger] post[x] == pre[x]
}

/// No register of `srcs` is overwritten by the copy of a register before
/// it: copying them one by one gives what copying them all at once gives.
pub open spec fn no_clobber(sp: int, srcs: Seq<Reg>, dst: int) -> bool {
    forall|j: int| 0 <= j < srcs.len() ==> !(dst <= sp + #[trigger] srcs[j].0 < dst + j)
}

/// The registers of `values`, in order, wrapping around the 16-bit range.
pub open spec fn span_regs(values: BoundedRegSpan) -> Seq<Reg> {
    Seq::new(values.len as nat, |i: int| Reg(wrap_i16(values.span.0.0 + i)))
}

/// The registers that a many-value return reads: those of its own operands,
/// then those of the continuations at `ip`.
pub open spec fn many_regs(code: Seq<Instruction>, ip: int, values: Seq<Reg>) -> Seq<Reg> {
    values + chain(code, ip).unwrap().0
}

/// The interpreter state that the return protocol reads and changes.
pub struct Executor {
    /// The slots of all frames.
    pub values: ValueStack,
    /// The frames, the executing one last.
    pub calls: CallStack,
    /// Where the executing frame's registers start on the value stack.
    pub sp: usize,
    /// The position of the executing instruction.
    pub ip: usize,
    /// The instructions.
    pub code: Vec<Instruction>,
    /// What is cached of the current module instance.
    pub cache: InstanceCache,
}

impl Executor {
    /// The content of all allocated slots.
    pub open spec fn slots(&self) -> Seq<UntypedVal> {
        self.values.values@
    }

    /// The slot that register `r` of the executing frame stands for.
    pub open spec fn slot_of(&self, r: Reg) -> int {
        self.sp + r.0
    }

    /// Every register of `regs` stands for an allocated slot.
    pub open spec fn readable(&self, regs: Seq<Reg>) -> bool {
        forall|i: int| 0 <= i < regs.len() ==> 0 <= self.sp + (#[trigger] regs[i]).0 < self.slots().len()
    }

    /// The value that register `r` holds.
    pub open spec fn reg_value(&self, r: Reg) -> UntypedVal {
        self.slots()[self.slot_of(r)]
    }

    /// Where the results of the executing frame go: the caller's result
    /// registers, or the bottom of the value stack where no caller is left.
    pub open spec fn results_start(&self) -> int {
        let n = self.calls.frames@.len();
        if n >= 2 {
            self.calls.frames@[n - 2].base_offset + self.calls.frames@[n - 1].results.0.0
        } else {
            0
        }
    }

    /// A frame executes, its results go to non-negative registers, and
    /// `count` of them fit the allocated slots.
    pub open spec fn results_fit(&self, count: int) -> bool {
        let n = self.calls.frames@.len();
        &&& n > 0
        &&& n >= 2 ==> self.calls.frames@[n - 1].results.0.0 >= 0
        &&& self.results_start() + count <= self.slots().len()
    }

    /// The values of `srcs` can be returned: their slots are allocated,
    /// the results fit, and no copy overwrites a register still to be read.
    pub open spec fn can_return(&self, srcs: Seq<Reg>) -> bool {
        &&& self.readable(srcs)
        &&& self.results_fit(srcs.len() as int)
        &&& no_clobber(self.sp as int, srcs, self.results_start())
    }

    /// Whether register `condition` holds a value other than zero.
    pub open spec fn condition_holds(&self, condition: Reg) -> bool {
        self.reg_value(condition).bits != 0
    }

    /// `post` differs from `pre` at most in what the slots hold.
    pub open spec fn same_but_slots(&self, post: &Executor) -> bool {
        &&& post.slots().len() == self.slots().len()
        &&& post.values.len == self.values.len
        &&& post.calls.frames@ == self.calls.frames@
        &&& post.calls.instances@ == self.calls.instances@
        &&& post.sp == self.sp
        &&& post.ip == self.ip
        &&& post.code@ == self.code@
        &&& post.cache == self.cache
    }

    /// `post` is `pre` with its executing frame popped: the live slots are
    /// cut back to where that frame started, the instance it entered is
    /// left and the cache refreshed from the instance below, and execution
    /// resumes in the caller or, where none is left, goes back to the host
    /// with the instruction position at `ip_if_host`.
    pub open spec fn popped(&self, post: &Executor, outcome: ReturnOutcome, ip_if_host: int) -> bool {
        let n = self.calls.frames@.len();
        let top = self.calls.frames@[n - 1];
        let entered = top.changed_instance && self.calls.instances@.len() > 0;
        let instances = if entered {
            self.calls.instances@.drop_last()
        } else {
            self.calls.instances@
        };
        &&& post.calls.frames@ == self.calls.frames@.drop_last()
        &&& post.calls.instances@ == instances
        &&& post.values.len == if top.frame_offset < self.values.len {
            top.frame_offset
        } else {
            self.values.len
        }
        &&& post.code@ == self.code@
        &&& post.cache == if entered && instances.len() > 0 {
            InstanceCache { instance: Some(instances.last()) }
        } else {
            self.cache
        }
        &&& n >= 2 ==> outcome == ReturnOutcome::Wasm && post.sp == self.calls.frames@[n - 2].base_offset
            && post.ip == self.calls.frames@[n - 2].ip
        &&& n < 2 ==> outcome == ReturnOutcome::Host && post.sp == self.sp && post.ip == ip_if_host
    }

    /// `post` is `pre` after a return of `value`: the value is in the first
    /// result slot and the executing frame is popped.
    pub open spec fn returned_value(&self, post: &Executor, outcome: ReturnOutcome, value: UntypedVal) -> bool {
        &&& post.slots() == self.slots().update(self.results_start(), value)
        &&& self.popped(post, outcome, self.ip as int)
    }

    /// `post` is `pre` after a return of the values of `srcs`: they are in
    /// the result slots in order and the executing frame is popped.
    pub open spec fn returned_regs(
        &self,
        post: &Executor,
        outcome: ReturnOutcome,
        srcs: Seq<Reg>,
        ip_if_host: int,
    ) -> bool {
        &&& copied(self.slots(), post.slots(), self.sp as int, srcs, self.results_start(), srcs.len() as int)
        &&& self.popped(post, outcome, ip_if_host)
    }

    /// `post` is `pre` after a conditional return that did not happen:
    /// execution goes on at `next_ip` in the same frame.
    pub open spec fn not_returned(&self, post: &Executor, outcome: ReturnOutcome, next_ip: int) -> bool {
        &&& outcome == ReturnOutcome::Wasm
        &&& post.slots() == self.slots()
        &&& post.values.len == self.values.len
        &&& post.calls.frames@ == self.calls.frames@
        &&& post.calls.instances@ == self.calls.instances@
        &&& post.sp == self.sp
        &&& post.ip == next_ip
        &&& post.code@ == self.code@
        &&& post.cache == self.cache
    }

    /// Returns the value of register `r` of the executing frame.
    pub fn get_register(&self, r: Reg) -> (v: UntypedVal)
        requires
            0 <= self.slot_of(r) < self.slots().len(),
        ensures
            v == self.reg_value(r),
    {
        let _allocated = self.values.values.len();
        let index: usize = if r.0 >= 0 {
            self.sp + r.0 as usize
        } else {
            self.sp - (0i32 - r.0 as i32) as usize
        };
        self.values.values[index]
    }

    /// Pops the executing frame and resumes its caller, if any.
    ///
    /// The results must already be in place.
    fn return_impl(&mut self) -> (r: ReturnOutcome)
        requires
            old(self).calls.frames@.len() > 0,
        ensures
            old(self).popped(final(self), r, old(self).ip as int),
            final(self).slots() == old(self).slots(),
    {
        let (returned, popped_instance) = self.calls.pop().unwrap();
        self.values.truncate(returned.frame_offset);
        let new_instance = if popped_instance.is_some() {
            self.calls.instance()
        } else {
            None
        };
        if let Some(new_instance) = new_instance {
            self.cache.update(new_instance);
        }
        match self.calls.peek() {
            Some(caller) => {
                let caller: CallFrame = *caller;
                self.sp = caller.base_offset;
                self.ip = caller.ip;
                ReturnOutcome::Wasm
            },
            None => ReturnOutcome::Host,
        }
    }

    /// Returns without results.
    pub fn execute_return(&mut self) -> (r: ReturnOutcome)
        requires
            old(self).calls.frames@.len() > 0,
        ensures
            old(self).popped(final(self), r, old(self).ip as int),
            final(self).slots() == old(self).slots(),
    {
        self.return_impl()
    }

    /// Returns where the results go: the first slot of the frame that
    /// receives them, and the span of its registers that they fill.
    fn return_caller_results(&self) -> (r: (usize, RegSpan))
        requires
            self.results_fit(0),
        ensures
            self.calls.frames@.len() >= 2 ==> r == (
                self.calls.frames@[self.calls.frames@.len() - 2].base_offset,
                self.calls.frames@.last().results,
            ),
            self.calls.frames@.len() == 1 ==> r == (0usize, RegSpan(Reg(0))),
            r.0 + r.1.0.0 == self.results_start(),
            r.1.0.0 >= 0,
            r.0 + r.1.0.0 <= usize::MAX,
    {
        let _allocated = self.values.values.len();
        match self.calls.peek_2().unwrap() {
            (callee, Some(caller)) => (caller.base_offset, callee.results),
            (_, None) => (0, RegSpan::new(Reg::from(0i16))),
        }
    }

    /// Copies the values of `regs` to the result slots that follow the
    /// first `done` ones, which already hold the first `done` values of
    /// `srcs`.
    fn copy_regs(
        &mut self,
        dst: usize,
        done: usize,
        regs: &[Reg],
        Ghost(pre): Ghost<Seq<UntypedVal>>,
        Ghost(srcs): Ghost<Seq<Reg>>,
    )
        requires
            copied(pre, old(self).slots(), old(self).sp as int, srcs, dst as int, done as int),
            done + regs@.len() <= srcs.len(),
            srcs.subrange(done as int, done + regs@.len()) == regs@,
            no_clobber(old(self).sp as int, srcs, dst as int),
            forall|i: int| 0 <= i < srcs.len() ==> 0 <= old(self).sp + #[trigger] srcs[i].0 < pre.len(),
            dst + srcs.len() <= pre.len(),
        ensures
            copied(pre, final(self).slots(), old(self).sp as int, srcs, dst as int, done + regs@.len()),
            old(self).same_but_slots(final(self)),
    {
        let mut k: usize = 0;
        while k < regs.len()
            invariant
                0 <= k <= regs@.len(),
                copied(pre, self.slots(), self.sp as int, srcs, dst as int, done + k),
                old(self).same_but_slots(self),
                done + regs@.len() <= srcs.len(),
                srcs.subrange(done as int, done + regs@.len()) == regs@,
                no_clobber(self.sp as int, srcs, dst as int),
                forall|i: int| 0 <= i < srcs.len() ==> 0 <= self.sp + #[trigger] srcs[i].0 < pre.len(),
                dst + srcs.len() <= pre.len(),
            decreases regs@.len() - k,
        {
            let _allocated = self.values.values.len();
            let r = regs[k];
            assert(srcs[done + k] == r);
            let v = self.get_register(r);
            self.values.values.set(dst + done + k, v);
            k = k + 1;
        }
    }

    /// Returns the value `value` computed from an immediate.
    pub fn execute_return_value(&mut self, value: UntypedVal) -> (r: ReturnOutcome)
        requires
            old(self).results_fit(1),
        ensures
            old(self).returned_value(final(self), r, value),
    {
        let (base, results) = self.return_caller_results();
        let dst: usize = base + results.head().0 as usize;
        self.values.values.set(dst, value);
        self.return_impl()
    }

    /// Returns the value of one register.
    pub fn execute_return_reg(&mut self, value: Reg) -> (r: ReturnOutcome)
        requires
            old(self).results_fit(1),
            0 <= old(self).slot_of(value) < old(self).slots().len(),
        ensures
            old(self).returned_value(final(self), r, old(self).reg_value(value)),
    {
        let value = self.get_register(value);
        self.execute_return_value(value)
    }

    /// Returns the values of `values`, in order.
    fn execute_return_reg_n_impl(&mut self, values: &[Reg]) -> (r: ReturnOutcome)
        requires
            old(self).can_return(values@),
        ensures
            old(self).returned_regs(final(self), r, values@, old(self).ip as int),
    {
        let (base, results) = self.return_caller_results();
        let dst: usize = base + results.head().0 as usize;
        let ghost pre = self.slots();
        assert(values@.subrange(0, values@.len() as int) == values@);
        assert forall|i: int| 0 <= i < values@.len() implies 0 <= self.sp + #[trigger] values@[i].0
            < pre.len() by {
            assert(self.slot_of(values@[i]) == self.sp + values@[i].0);
        }
        self.copy_regs(dst, 0, values, Ghost(pre), Ghost(values@));
        self.return_impl()
    }

    /// Returns the values of two registers.
    pub fn execute_return_reg2(&mut self, values: [Reg; 2]) -> (r: ReturnOutcome)
        requires
            old(self).can_return(values@),
        ensures
            old(self).returned_regs(final(self), r, values@, old(self).ip as int),
    {
        self.execute_return_reg_n_impl(&values)
    }

    /// Returns the values of three registers.
    pub fn execute_return_reg3(&mut self, values: [Reg; 3]) -> (r: ReturnOutcome)
        requires
            old(self).can_return(values@),
        ensures
            old(self).returned_regs(final(self), r, values@, old(self).ip as int),
    {
        self.execute_return_reg_n_impl(&values)
    }

    /// Returns a 32-bit immediate, zero-extended to the slot's 64 bits.
    pub fn execute_return_imm32(&mut self, value: AnyConst32) -> (r: ReturnOutcome)
        requires
            old(self).results_fit(1),
        ensures
            old(self).returned_value(final(self), r, UntypedVal { bits: value.0 as u64 }),
    {
        self.execute_return_value(UntypedVal::from(u32::from(value)))
    }

    /// Returns a 64-bit integer given as a 32-bit immediate, sign-extended.
    pub fn execute_return_i64imm32(&mut self, value: I64Const32) -> (r: ReturnOutcome)
        requires
            old(self).results_fit(1),
        ensures
            old(self).returned_value(final(self), r, UntypedVal { bits: value.0 as i64 as u64 }),
    {
        self.execute_return_value(UntypedVal::from(i64::from(value)))
    }

    /// Returns the values of the registers of a span, in order.
    pub fn execute_return_span(&mut self, values: BoundedRegSpan) -> (r: ReturnOutcome)
        requires
            old(self).can_return(span_regs(values)),
        ensures
            old(self).returned_regs(final(self), r, span_regs(values), old(self).ip as int),
    {
        let (base, results) = self.return_caller_results();
        let dst: usize = base + results.head().0 as usize;
        let ghost pre = self.slots();
        let ghost srcs = span_regs(values);
        let head = values.span().head();
        let len = values.len();
        let mut i: u16 = 0;
        while i < len
            invariant
                i <= len,
                len == srcs.len(),
                srcs == span_regs(values),
                head == values.span.0,
                dst == old(self).results_start(),
                pre == old(self).slots(),
                old(self).can_return(srcs),
                copied(pre, self.slots(), self.sp as int, srcs, dst as int, i as int),
                old(self).same_but_slots(self),
            decreases len - i,
        {
            let _allocated = self.values.values.len();
            let src = head.next_n(i);
            assert(src == srcs[i as int]);
            assert(old(self).slot_of(srcs[i as int]) == self.sp + src.0);
            let v = self.get_register(src);
            self.values.values.set(dst + i as usize, v);
            i = i + 1;
        }
        self.return_impl()
    }

    /// Copies the values of `values` and of the continuations at `ip` to
    /// the result slots, in order, and returns the position just past the
    /// continuations.
    pub fn copy_many_return_values(&mut self, ip: usize, values: &[Reg]) -> (end: usize)
        requires
            chain(old(self).code@, ip as int) is Some,
            old(self).can_return(many_regs(old(self).code@, ip as int, values@)),
        ensures
            copied(
                old(self).slots(),
                final(self).slots(),
                old(self).sp as int,
                many_regs(old(self).code@, ip as int, values@),
                old(self).results_start(),
                many_regs(old(self).code@, ip as int, values@).len() as int,
            ),
            old(self).same_but_slots(final(self)),
            chain(old(self).code@, ip as int).unwrap().1 == end,
    {
        let (base, results) = self.return_caller_results();
        let dst: usize = base + results.head().0 as usize;
        let ghost pre = self.slots();
        let ghost whole = chain(self.code@, ip as int).unwrap();
        let ghost srcs = many_regs(self.code@, ip as int, values@);
        assert forall|i: int| 0 <= i < srcs.len() implies 0 <= self.sp + #[trigger] srcs[i].0
            < pre.len() by {
            assert(self.slot_of(srcs[i]) == self.sp + srcs[i].0);
        }
        assert(srcs.subrange(0, values@.len() as int) =~= values@);
        self.copy_regs(dst, 0, values, Ghost(pre), Ghost(srcs));
        let mut done: usize = values.len();
        let mut cur: usize = ip;
        assert(srcs.subrange(done as int, srcs.len() as int) =~= whole.0);
        loop
            invariant
                chain(self.code@, cur as int) is Some,
                chain(self.code@, cur as int).unwrap().1 == whole.1,
                done + chain(self.code@, cur as int).unwrap().0.len() == srcs.len(),
                srcs.subrange(done as int, srcs.len() as int) == chain(self.code@, cur as int).unwrap().0,
                copied(pre, self.slots(), self.sp as int, srcs, dst as int, done as int),
                old(self).same_but_slots(self),
                pre == old(self).slots(),
                dst == old(self).results_start(),
                srcs == many_regs(old(self).code@, ip as int, values@),
                whole == chain(old(self).code@, ip as int).unwrap(),
                no_clobber(self.sp as int, srcs, dst as int),
                forall|i: int| 0 <= i < srcs.len() ==> 0 <= self.sp + #[trigger] srcs[i].0 < pre.len(),
                dst + srcs.len() <= pre.len(),
            decreases self.code@.len() - cur,
        {
            let _allocated = self.values.values.len();
            let _n = self.code.len();
            proof {
                lemma_chain_in_bounds(self.code@, cur as int);
            }
            let instr = self.code[cur];
            let ghost rest = chain(self.code@, cur as int).unwrap().0;
            match instr {
                Instruction::RegisterList { regs } => {
                    let ghost tail = chain(self.code@, cur + 1).unwrap().0;
                    assert(rest == regs@ + tail);
                    assert(srcs.subrange(done as int, done + 3) =~= regs@) by {
                        assert(srcs.subrange(done as int, done + 3) =~= srcs.subrange(
                            done as int,
                            srcs.len() as int,
                        ).subrange(0, 3));
                    }
                    self.copy_regs(dst, done, &regs, Ghost(pre), Ghost(srcs));
                    assert(srcs.subrange(done + 3, srcs.len() as int) =~= tail) by {
                        assert(srcs.subrange(done + 3, srcs.len() as int) =~= srcs.subrange(
                            done as int,
                            srcs.len() as int,
                        ).subrange(3, rest.len() as int));
                    }
                    done = done + 3;
                    cur = cur + 1;
                },
                Instruction::Register { reg } => {
                    let one: [Reg; 1] = [reg];
                    assert(one@ =~= rest);
                    self.copy_regs(dst, done, &one, Ghost(pre), Ghost(srcs));
                    return cur + 1;
                },
                Instruction::Register2 { regs } => {
                    self.copy_regs(dst, done, &regs, Ghost(pre), Ghost(srcs));
                    return cur + 1;
                },
                Instruction::Register3 { regs } => {
                    self.copy_regs(dst, done, &regs, Ghost(pre), Ghost(srcs));
                    return cur + 1;
                },
                _ => {
                    return cur;
                },
            }
        }
    }

    /// Returns the values of three registers and of the continuations that
    /// follow the executing instruction.
    pub fn execute_return_many(&mut self, values: [Reg; 3]) -> (r: ReturnOutcome)
        requires
            chain(old(self).code@, old(self).ip + 1) is Some,
            old(self).can_return(many_regs(old(self).code@, old(self).ip + 1, values@)),
        ensures
            old(self).returned_regs(
                final(self),
                r,
                many_regs(old(self).code@, old(self).ip + 1, values@),
                old(self).ip + 1,
            ),
    {
        let _n = self.code.len();
        proof {
            lemma_chain_in_bounds(self.code@, self.ip + 1);
        }
        self.ip = self.ip + 1;
        let ip = self.ip;
        self.copy_many_return_values(ip, &values);
        self.return_impl()
    }

    /// Moves on to the next instruction.
    fn next_instr(&mut self)
        requires
            old(self).ip < old(self).code@.len(),
        ensures
            old(self).not_returned(final(self), ReturnOutcome::Wasm, old(self).ip + 1),
    {
        let _n = self.code.len();
        self.ip = self.ip + 1;
    }

    /// Reads register `condition` of the executing frame as a condition.
    fn condition(&self, condition: Reg) -> (r: bool)
        requires
            0 <= self.slot_of(condition) < self.slots().len(),
        ensures
            r == self.condition_holds(condition),
    {
        self.get_register(condition).to_bool()
    }

    /// Returns without results where `condition` holds; else goes on with
    /// the next instruction.
    pub fn execute_return_nez(&mut self, condition: Reg) -> (r: ReturnOutcome)
        requires
            0 <= old(self).slot_of(condition) < old(self).slots().len(),
            old(self).ip < old(self).code@.len(),
            old(self).condition_holds(condition) ==> old(self).calls.frames@.len() > 0,
        ensures
            old(self).condition_holds(condition) ==> old(self).popped(final(self), r, old(self).ip as int)
                && final(self).slots() == old(self).slots(),
            !old(self).condition_holds(condition) ==> old(self).not_returned(final(self), r, old(self).ip + 1),
    {
        if self.condition(condition) {
            self.execute_return()
        } else {
            self.next_instr();
            ReturnOutcome::Wasm
        }
    }

    /// Returns the value of one register where `condition` holds; else goes
    /// on with the next instruction.
    pub fn execute_return_nez_reg(&mut self, condition: Reg, value: Reg) -> (r: ReturnOutcome)
        requires
            0 <= old(self).slot_of(condition) < old(self).slots().len(),
            old(self).ip < old(self).code@.len(),
            old(self).condition_holds(condition) ==> old(self).results_fit(1) && 0 <= old(self).slot_of(value)
                < old(self).slots().len(),
        ensures
            old(self).condition_holds(condition) ==> old(self).returned_value(final(self), r, old(self).reg_value(value)),
            !old(self).condition_holds(condition) ==> old(self).not_returned(final(self), r, old(self).ip + 1),
    {
        if self.condition(condition) {
            self.execute_return_reg(value)
        } else {
            self.next_instr();
            ReturnOutcome::Wasm
        }
    }

    /// Returns the values of two registers where `condition` holds; else
    /// goes on with the next instruction.
    pub fn execute_return_nez_reg2(&mut self, condition: Reg, values: [Reg; 2]) -> (r: ReturnOutcome)
        requires
            0 <= old(self).slot_of(condition) < old(self).slots().len(),
            old(self).ip < old(self).code@.len(),
            old(self).condition_holds(condition) ==> old(self).can_return(values@),
        ensures
            old(self).condition_holds(condition) ==> old(self).returned_regs(final(self), r, values@, old(self).ip as int),
            !old(self).condition_holds(condition) ==> old(self).not_returned(final(self), r, old(self).ip + 1),
    {
        if self.condition(condition) {
            self.execute_return_reg2(values)
        } else {
            self.next_instr();
            ReturnOutcome::Wasm
        }
    }

    /// Returns `value` where `condition` holds; else goes on with the next
    /// instruction.
    pub fn execute_return_nez_value(&mut self, condition: Reg, value: UntypedVal) -> (r: ReturnOutcome)
        requires
            0 <= old(self).slot_of(condition) < old(self).slots().len(),
            old(self).ip < old(self).code@.len(),
            old(self).condition_holds(condition) ==> old(self).results_fit(1),
        ensures
            old(self).condition_holds(condition) ==> old(self).returned_value(final(self), r, value),
            !old(self).condition_holds(condition) ==> old(self).not_returned(final(self), r, old(self).ip + 1),
    {
        if self.condition(condition) {
            self.execute_return_value(value)
        } else {
            self.next_instr();
            ReturnOutcome::Wasm
        }
    }

    /// Returns a zero-extended 32-bit immediate where `condition` holds;
    /// else goes on with the next instruction.
    pub fn execute_return_nez_imm32(&mut self, condition: Reg, value: AnyConst32) -> (r: ReturnOutcome)
        requires
            0 <= old(self).slot_of(condition) < old(self).slots().len(),
            old(self).ip < old(self).code@.len(),
            old(self).condition_holds(condition) ==> old(self).results_fit(1),
        ensures
            old(self).condition_holds(condition) ==> old(self).returned_value(final(self), r, UntypedVal { bits: value.0 as u64 }),
            !old(self).condition_holds(condition) ==> old(self).not_returned(final(self), r, old(self).ip + 1),
    {
        self.execute_return_nez_value(condition, UntypedVal::from(u32::from(value)))
    }

    /// Returns a sign-extended 32-bit immediate as a 64-bit integer where
    /// `condition` holds; else goes on with the next instruction.
    pub fn execute_return_nez_i64imm32(&mut self, condition: Reg, value: I64Const32) -> (r: ReturnOutcome)
        requires
            0 <= old(self).slot_of(condition) < old(self).slots().len(),
            old(self).ip < old(self).code@.len(),
            old(self).condition_holds(condition) ==> old(self).results_fit(1),
        ensures
            old(self).condition_holds(condition) ==> old(self).returned_value(final(self), r, UntypedVal { bits: value.0 as i64 as u64 }),
            !old(self).condition_holds(condition) ==> old(self).not_returned(final(self), r, old(self).ip + 1),
    {
        self.execute_return_nez_value(condition, UntypedVal::from(i64::from(value)))
    }

    /// Returns the values of the registers of a span where `condition`
    /// holds; else goes on with the next instruction.
    pub fn execute_return_nez_span(&mut self, condition: Reg, values: BoundedRegSpan) -> (r: ReturnOutcome)
        requires
            0 <= old(self).slot_of(condition) < old(self).slots().len(),
            old(self).ip < old(self).code@.len(),
            old(self).condition_holds(condition) ==> old(self).can_return(span_regs(values)),
        ensures
            old(self).condition_holds(condition) ==> old(self).returned_regs(final(self), r, span_regs(values), old(self).ip as int),
            !old(self).condition_holds(condition) ==> old(self).not_returned(final(self), r, old(self).ip + 1),
    {
        if self.condition(condition) {
            self.execute_return_span(values)
        } else {
            self.next_instr();
            ReturnOutcome::Wasm
        }
    }

    /// Where `condition` holds, returns the values of two registers and of
    /// the continuations that follow; else skips the continuations and goes
    /// on just past them.
    pub fn execute_return_nez_many(&mut self, condition: Reg, values: [Reg; 2]) -> (r: ReturnOutcome)
        requires
            0 <= old(self).slot_of(condition) < old(self).slots().len(),
            chain(old(self).code@, old(self).ip + 1) is Some,
            old(self).condition_holds(condition) ==> old(self).can_return(many_regs(old(self).code@, old(self).ip + 1, values@)),
        ensures
            old(self).condition_holds(condition) ==> old(self).returned_regs(
                final(self),
                r,
                many_regs(old(self).code@, old(self).ip + 1, values@),
                old(self).ip + 1,
            ),
            !old(self).condition_holds(condition) ==> old(self).not_returned(
                final(self),
                r,
                chain(old(self).code@, old(self).ip + 1).unwrap().1,
            ),
    {
        let holds = self.condition(condition);
        let _n = self.code.len();
        proof {
            lemma_chain_in_bounds(self.code@, self.ip + 1);
        }
        self.ip = self.ip + 1;
        if holds {
            let ip = self.ip;
            self.copy_many_return_values(ip, &values);
            self.return_impl()
        } else {
            proof {
                lemma_skip_agrees_with_copy(self.code@, self.ip as int);
            }
            self.ip = skip_register_list(&self.code, self.ip);
            ReturnOutcome::Wasm
        }
    }
}

} // verus!
