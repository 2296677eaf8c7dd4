use wasmi::{
    skip_register_list, AnyConst32, BoundedRegSpan, CallFrame, CallStack, Executor, ExternRef,
    FuncRef, I64Const32, Instance, InstanceCache, Instruction, Reftype, Reg, RegSpan,
    ReturnOutcome, Transposer, UntypedVal, ValueStack,
};

fn frame(ip: usize, frame_offset: usize, base_offset: usize, results: i16) -> CallFrame {
    CallFrame {
        ip,
        frame_offset,
        base_offset,
        results: RegSpan::new(Reg::from(results)),
        changed_instance: false,
    }
}

fn executor(frames: &[CallFrame], slots: usize, live: usize, code: Vec<Instruction>) -> Executor {
    let mut calls = CallStack::new();
    for f in frames {
        calls.push(*f, None);
    }
    let top = *calls.peek().unwrap();
    Executor {
        values: ValueStack::new(slots, live),
        calls,
        sp: top.base_offset,
        ip: 0,
        code,
        cache: InstanceCache { instance: None },
    }
}

fn slot(exec: &Executor, index: usize) -> u64 {
    u64::from(exec.values.values[index])
}

fn put(exec: &mut Executor, index: usize, bits: u64) {
    exec.values.values[index] = UntypedVal::from(bits);
}

#[test]
fn return_from_root_goes_to_host() {
    let mut exec = executor(&[frame(0, 0, 0, 0)], 4, 4, vec![Instruction::Return]);
    put(&mut exec, 2, 42);
    let outcome = exec.execute_return_reg(Reg::from(2));
    assert_eq!(outcome, ReturnOutcome::Host);
    assert_eq!(exec.calls.len(), 0);
    assert_eq!(slot(&exec, 0), 42);
    assert_eq!(exec.values.len, 0);
}

#[test]
fn nested_return_resumes_caller() {
    let b = 3;
    let caller = frame(17, 0, b, 0);
    let callee = frame(0, b, b + 2, 1);
    let mut exec = executor(&[caller, callee], 10, 10, vec![Instruction::Return]);
    put(&mut exec, b + 2, 7);
    let outcome = exec.execute_return_reg(Reg::from(0));
    assert_eq!(outcome, ReturnOutcome::Wasm);
    assert_eq!(exec.values.len, b);
    assert_eq!(slot(&exec, b + 1), 7);
    assert_eq!(exec.sp, b);
    assert_eq!(exec.ip, 17);
    assert_eq!(exec.calls.len(), 1);
}

#[test]
fn return_reads_constants_below_the_frame() {
    let caller = frame(5, 0, 1, 0);
    let callee = frame(0, 4, 6, 2);
    let mut exec = executor(&[caller, callee], 12, 12, vec![Instruction::Return]);
    put(&mut exec, 5, 99);
    put(&mut exec, 7, 11);
    let outcome = exec.execute_return_reg2([Reg::from(-1), Reg::from(1)]);
    assert_eq!(outcome, ReturnOutcome::Wasm);
    assert_eq!(slot(&exec, 3), 99);
    assert_eq!(slot(&exec, 4), 11);
    assert_eq!(exec.values.len, 4);
}

#[test]
fn return_three_registers() {
    let caller = frame(2, 0, 0, 0);
    let callee = frame(0, 5, 5, 1);
    let mut exec = executor(&[caller, callee], 10, 10, vec![Instruction::Return]);
    put(&mut exec, 5, 1);
    put(&mut exec, 6, 2);
    put(&mut exec, 7, 3);
    let outcome = exec.execute_return_reg3([Reg::from(2), Reg::from(0), Reg::from(1)]);
    assert_eq!(outcome, ReturnOutcome::Wasm);
    assert_eq!([slot(&exec, 1), slot(&exec, 2), slot(&exec, 3)], [3, 1, 2]);
}

#[test]
fn return_immediates() {
    let mut exec = executor(&[frame(0, 0, 0, 0)], 2, 2, vec![Instruction::Return]);
    assert_eq!(exec.execute_return_imm32(AnyConst32::from(0xFFFF_FFFF)), ReturnOutcome::Host);
    assert_eq!(slot(&exec, 0), 0xFFFF_FFFF);
    let mut exec = executor(&[frame(0, 0, 0, 0)], 2, 2, vec![Instruction::Return]);
    assert_eq!(exec.execute_return_i64imm32(I64Const32::from(-2)), ReturnOutcome::Host);
    assert_eq!(slot(&exec, 0), (-2i64) as u64);
}

#[test]
fn return_nothing_refreshes_instance() {
    let mut calls = CallStack::new();
    calls.push(frame(9, 0, 0, 0), Some(Instance(1)));
    calls.push(frame(0, 2, 2, 0), Some(Instance(2)));
    let mut exec = Executor {
        values: ValueStack::new(4, 4),
        calls,
        sp: 2,
        ip: 0,
        code: vec![Instruction::Return],
        cache: InstanceCache { instance: Some(Instance(2)) },
    };
    assert_eq!(exec.execute_return(), ReturnOutcome::Wasm);
    assert_eq!(exec.cache.instance, Some(Instance(1)));
    assert_eq!(exec.calls.instance(), Some(Instance(1)));
    assert_eq!(exec.ip, 9);
    assert_eq!(exec.values.len, 2);
}

#[test]
fn return_span_of_registers() {
    let caller = frame(4, 0, 0, 0);
    let callee = frame(0, 3, 3, 0);
    let mut exec = executor(&[caller, callee], 10, 10, vec![Instruction::Return]);
    for i in 0..4 {
        put(&mut exec, 3 + 2 + i, 100 + i as u64);
    }
    let span = BoundedRegSpan::new(RegSpan::new(Reg::from(2)), 3);
    assert_eq!(exec.execute_return_span(span), ReturnOutcome::Wasm);
    assert_eq!([slot(&exec, 0), slot(&exec, 1), slot(&exec, 2)], [100, 101, 102]);
}

fn many_code() -> Vec<Instruction> {
    let r = |i: i16| Reg::from(i);
    vec![
        Instruction::ReturnMany { values: [r(0), r(1), r(2)] },
        Instruction::RegisterList { regs: [r(3), r(4), r(5)] },
        Instruction::RegisterList { regs: [r(6), r(7), r(8)] },
        Instruction::Register { reg: r(9) },
        Instruction::Return,
    ]
}

#[test]
fn return_many_walks_continuations() {
    let caller = frame(1, 0, 0, 0);
    let callee = frame(0, 10, 10, 0);
    let mut exec = executor(&[caller, callee], 20, 20, many_code());
    for i in 0..10 {
        put(&mut exec, 10 + i, 50 + i as u64);
    }
    let values = [Reg::from(0), Reg::from(1), Reg::from(2)];
    assert_eq!(exec.execute_return_many(values), ReturnOutcome::Wasm);
    for i in 0..10 {
        assert_eq!(slot(&exec, i), 50 + i as u64);
    }
    assert_eq!(exec.values.len, 10);
}

#[test]
fn copy_many_stops_past_terminal() {
    let caller = frame(1, 0, 0, 0);
    let callee = frame(0, 10, 10, 0);
    let mut exec = executor(&[caller, callee], 20, 20, many_code());
    for i in 0..10 {
        put(&mut exec, 10 + i, 70 + i as u64);
    }
    let end = exec.copy_many_return_values(1, &[Reg::from(0), Reg::from(1), Reg::from(2)]);
    assert_eq!(end, 4);
    assert_eq!(exec.calls.len(), 2);
    assert_eq!(slot(&exec, 9), 79);
}

#[test]
fn return_nez_many_false_skips_chain() {
    let r = |i: i16| Reg::from(i);
    let code = vec![
        Instruction::ReturnNezMany { condition: r(0), values: [r(1), r(2)] },
        Instruction::RegisterList { regs: [r(1), r(2), r(1)] },
        Instruction::RegisterList { regs: [r(2), r(1), r(2)] },
        Instruction::Register { reg: r(1) },
        Instruction::Return,
    ];
    let caller = frame(1, 0, 0, 0);
    let callee = frame(0, 10, 10, 0);
    let mut skipping = executor(&[caller, callee], 20, 20, code.clone());
    put(&mut skipping, 11, 5);
    put(&mut skipping, 12, 6);
    let before: Vec<u64> = (0..20).map(|i| slot(&skipping, i)).collect();
    assert_eq!(skipping.execute_return_nez_many(r(0), [r(1), r(2)]), ReturnOutcome::Wasm);
    assert_eq!(skipping.ip, 4);
    assert_eq!(skipping.calls.len(), 2);
    assert_eq!((0..20).map(|i| slot(&skipping, i)).collect::<Vec<u64>>(), before);
    let mut copying = executor(&[caller, callee], 20, 20, code.clone());
    put(&mut copying, 11, 5);
    put(&mut copying, 12, 6);
    let end = copying.copy_many_return_values(1, &[r(1), r(2)]);
    assert_eq!(end, skipping.ip);
    assert_eq!(skip_register_list(&code, 1), 4);
}

#[test]
fn return_nez_many_true_returns() {
    let r = |i: i16| Reg::from(i);
    let code = vec![
        Instruction::ReturnNezMany { condition: r(0), values: [r(1), r(2)] },
        Instruction::Register2 { regs: [r(3), r(4)] },
    ];
    let mut exec = executor(&[frame(0, 0, 10, 0)], 20, 20, code);
    for i in 0..5 {
        put(&mut exec, 10 + i, 1 + i as u64);
    }
    assert_eq!(exec.execute_return_nez_many(r(0), [r(1), r(2)]), ReturnOutcome::Host);
    assert_eq!([slot(&exec, 0), slot(&exec, 1), slot(&exec, 2), slot(&exec, 3)], [2, 3, 4, 5]);
    assert_eq!(exec.ip, 1);
}

#[test]
fn return_nez_forms_fall_through() {
    let code = vec![Instruction::Return, Instruction::Return];
    let caller = frame(1, 0, 0, 0);
    let callee = frame(0, 4, 4, 0);
    let mut exec = executor(&[caller, callee], 8, 8, code);
    let cond = Reg::from(0);
    assert_eq!(exec.execute_return_nez(cond), ReturnOutcome::Wasm);
    assert_eq!(exec.ip, 1);
    exec.ip = 0;
    assert_eq!(exec.execute_return_nez_reg(cond, Reg::from(1)), ReturnOutcome::Wasm);
    exec.ip = 0;
    assert_eq!(exec.execute_return_nez_reg2(cond, [Reg::from(1), Reg::from(2)]), ReturnOutcome::Wasm);
    exec.ip = 0;
    assert_eq!(exec.execute_return_nez_imm32(cond, AnyConst32::from(1)), ReturnOutcome::Wasm);
    exec.ip = 0;
    assert_eq!(exec.execute_return_nez_i64imm32(cond, I64Const32::from(1)), ReturnOutcome::Wasm);
    exec.ip = 0;
    let span = BoundedRegSpan::new(RegSpan::new(Reg::from(1)), 2);
    assert_eq!(exec.execute_return_nez_span(cond, span), ReturnOutcome::Wasm);
    assert_eq!(exec.ip, 1);
    assert_eq!(exec.calls.len(), 2);
}

#[test]
fn return_nez_forms_return_when_set() {
    let code = vec![Instruction::Return, Instruction::Return];
    let caller = frame(1, 0, 0, 0);
    let callee = frame(0, 4, 4, 0);
    let mut exec = executor(&[caller, callee], 8, 8, code.clone());
    put(&mut exec, 4, 1);
    put(&mut exec, 5, 33);
    assert_eq!(exec.execute_return_nez_reg(Reg::from(0), Reg::from(1)), ReturnOutcome::Wasm);
    assert_eq!(slot(&exec, 0), 33);
    assert_eq!(exec.calls.len(), 1);
    let mut exec = executor(&[caller, callee], 8, 8, code);
    put(&mut exec, 4, 1);
    assert_eq!(exec.execute_return_nez_imm32(Reg::from(0), AnyConst32::from(8)), ReturnOutcome::Wasm);
    assert_eq!(slot(&exec, 0), 8);
}

#[test]
fn transposer_null_is_null_reference() {
    assert!(Transposer::<FuncRef>::null().reftype().is_null());
    assert!(Transposer::<ExternRef>::null().reftype().is_null());
    let t = Transposer::new(FuncRef(5));
    assert_eq!(t.value, 5);
    assert_eq!(t.reftype(), FuncRef(5));
    let u = Transposer::<ExternRef>::from_untyped(UntypedVal::from(9u64));
    assert_eq!(u.reftype(), ExternRef(9));
    assert!(!u.reftype().is_null());
}

#[test]
fn transposer_round_trips_references() {
    for bits in [0u64, 1, 0xDEAD_BEEF, u64::MAX] {
        assert_eq!(Transposer::new(FuncRef(bits)).reftype(), FuncRef(bits));
        assert_eq!(Transposer::new(ExternRef(bits)).reftype(), ExternRef(bits));
    }
}
