use wasmi::{
    BlockFuel, BranchOffset, BranchOffset16, Comparator, ComparatorAndOffset, Data, Elem, Func,
    FuncType, Global, Instr, Reg, Table, TranslationError, UntypedVal,
};

#[test]
fn reg_next_prev_round_trip() {
    for n in [i16::MIN, -5, -1, 0, 1, 7, 1000, i16::MAX] {
        for k in [0u16, 1, 2, 100, 32767, 32768, u16::MAX] {
            assert_eq!(Reg::from(n).next_n(k).prev_n(k), Reg::from(n));
            assert_eq!(Reg::from(n).prev_n(k).next_n(k), Reg::from(n));
        }
    }
}

#[test]
fn reg_wraps_at_range_ends() {
    assert_eq!(Reg::from(i16::MAX).next(), Reg::from(i16::MIN));
    assert_eq!(Reg::from(i16::MIN).prev(), Reg::from(i16::MAX));
    assert_eq!(Reg::from(10).next_n(5), Reg::from(15));
    assert_eq!(Reg::from(10).prev_n(15), Reg::from(-5));
    assert_eq!(Reg::from(3).next_n(0), Reg::from(3));
    assert_eq!(i16::from(Reg::from(-3)), -3);
}

#[test]
fn reg_is_const_by_sign() {
    assert!(Reg::from(-1).is_const());
    assert!(Reg::from(i16::MIN).is_const());
    assert!(!Reg::from(0).is_const());
    assert!(!Reg::from(i16::MAX).is_const());
}

#[test]
fn reg_try_from_local_index() {
    assert_eq!(Reg::try_from(0u32), Ok(Reg::from(0)));
    assert_eq!(Reg::try_from(32767u32), Ok(Reg::from(32767)));
    assert_eq!(Reg::try_from(32768u32), Err(TranslationError::RegisterOutOfBounds));
    assert_eq!(Reg::try_from(u32::MAX), Err(TranslationError::RegisterOutOfBounds));
}

#[test]
fn branch_offset_from_src_to_dst() {
    let offset = BranchOffset::from_src_to_dst(Instr::from_u32(10), Instr::from_u32(14)).unwrap();
    assert_eq!(offset.to_i32(), 4);
    assert!(offset.is_init());
    let far = BranchOffset::from_src_to_dst(Instr::from_u32(0), Instr::from_u32(u32::MAX));
    assert_eq!(far, Err(TranslationError::BranchOffsetOutOfBounds));
    let widest = BranchOffset::from_src_to_dst(Instr::from_u32(1), Instr::from_u32(1 << 31));
    assert_eq!(widest.unwrap().to_i32(), i32::MAX);
}

#[test]
fn branch_offset_init_once() {
    let mut offset = BranchOffset::uninit();
    assert!(!offset.is_init());
    offset.init(BranchOffset::from(-12));
    assert!(offset.is_init());
    assert_eq!(offset.to_i32(), -12);
}

#[test]
fn branch_offset16_narrowing() {
    let offset = BranchOffset16::try_from(BranchOffset::from(4)).unwrap();
    assert_eq!(offset.to_i16(), 4);
    assert_eq!(
        BranchOffset16::try_from(BranchOffset::from(40000)),
        Err(TranslationError::BranchOffsetOutOfBounds)
    );
    assert_eq!(
        BranchOffset16::try_from(BranchOffset::from(-32769)),
        Err(TranslationError::BranchOffsetOutOfBounds)
    );
    assert_eq!(BranchOffset16::try_from(BranchOffset::from(-32768)).unwrap().to_i16(), i16::MIN);
    assert_eq!(BranchOffset::from(BranchOffset16::from(-7)).to_i32(), -7);
}

#[test]
fn branch_offset16_init() {
    let mut offset = BranchOffset16::from(0);
    assert!(!offset.is_init());
    assert_eq!(offset.init(BranchOffset::from(300)), Ok(()));
    assert_eq!(offset.to_i16(), 300);
    let mut too_far = BranchOffset16::from(0);
    assert_eq!(
        too_far.init(BranchOffset::from(70000)),
        Err(TranslationError::BranchOffsetOutOfBounds)
    );
    assert!(!too_far.is_init());
}

#[test]
fn block_fuel_bumps() {
    let mut fuel = BlockFuel::try_from(100u64).unwrap();
    assert_eq!(fuel.to_u64(), 100);
    assert_eq!(fuel.bump_by(50), Ok(()));
    assert_eq!(fuel.to_u64(), 150);
}

#[test]
fn block_fuel_bounds() {
    assert_eq!(BlockFuel::try_from(1u64 << 32), Err(TranslationError::BlockFuelOutOfBounds));
    let mut full = BlockFuel::try_from(u64::from(u32::MAX)).unwrap();
    assert_eq!(full.bump_by(1), Err(TranslationError::BlockFuelOutOfBounds));
    assert_eq!(full.to_u64(), u64::from(u32::MAX));
    assert_eq!(full.bump_by(0), Ok(()));
    let mut one = BlockFuel::try_from(1u64).unwrap();
    assert_eq!(one.bump_by(u64::MAX), Err(TranslationError::BlockFuelOutOfBounds));
    assert_eq!(one.to_u64(), 1);
}

#[test]
fn block_fuel_bumps_add_up() {
    let mut twice = BlockFuel::try_from(7u64).unwrap();
    twice.bump_by(1000).unwrap();
    twice.bump_by(2345).unwrap();
    let mut once = BlockFuel::try_from(7u64).unwrap();
    once.bump_by(3345).unwrap();
    assert_eq!(twice, once);
}

#[test]
fn comparator_codes() {
    for code in 0u32..38 {
        assert_eq!(Comparator::from_u32(code).unwrap().to_u32(), code);
    }
    assert_eq!(Comparator::from_u32(16), Some(Comparator::I64Eq));
    assert_eq!(Comparator::from_u32(37), Some(Comparator::F64Ge));
    assert_eq!(Comparator::from_u32(38), None);
    assert_eq!(Comparator::from_u32(u32::MAX), None);
}

#[test]
fn comparator_and_offset_packing_loses_offset() {
    let packed = ComparatorAndOffset::new(Comparator::I64Eq, BranchOffset::from(4)).as_u64();
    assert_eq!(packed, 0);
    let decoded = ComparatorAndOffset::from_u64(packed).unwrap();
    assert_eq!(decoded.cmp, Comparator::I32Eq);
    assert_eq!(decoded.offset, BranchOffset::from(0));
    assert_ne!(decoded, ComparatorAndOffset::new(Comparator::I64Eq, BranchOffset::from(4)));
}

#[test]
fn comparator_and_offset_packing_negative_offset() {
    let packed = ComparatorAndOffset::new(Comparator::I64Eq, BranchOffset::from(-4)).as_u64();
    assert_eq!(packed, 16u64 << 32);
    let decoded = ComparatorAndOffset::from_u64(packed).unwrap();
    assert_eq!(decoded, ComparatorAndOffset::new(Comparator::I64Eq, BranchOffset::from(0)));
    let slot = ComparatorAndOffset::new(Comparator::F32Lt, BranchOffset::from(-1)).to_untyped();
    assert_eq!(u64::from(slot), 28u64 << 32);
}

#[test]
fn comparator_and_offset_decoding() {
    let word = (17u64 << 32) | 0xFFFF_FFFE;
    let decoded = ComparatorAndOffset::from_u64(word).unwrap();
    assert_eq!(decoded, ComparatorAndOffset::new(Comparator::I64Ne, BranchOffset::from(-2)));
    assert_eq!(ComparatorAndOffset::from_u64(38u64 << 32), None);
    let untyped = ComparatorAndOffset::from_untyped(UntypedVal::from((2u64 << 32) | 9)).unwrap();
    assert_eq!(untyped, ComparatorAndOffset::new(Comparator::I32LtS, BranchOffset::from(9)));
}

#[test]
fn index_round_trips() {
    for index in [0u32, 1, 0x1234_5678, u32::MAX] {
        assert_eq!(u32::from(Table::from(index)), index);
        assert_eq!(u32::from(Func::from(index)), index);
        assert_eq!(u32::from(FuncType::from(index)), index);
        assert_eq!(u32::from(Global::from(index)), index);
        assert_eq!(u32::from(Data::from(index)), index);
        assert_eq!(u32::from(Elem::from(index)), index);
    }
    assert_eq!(u32::from(Table::default()), 0);
    assert_eq!(std::mem::size_of::<Table>(), 4);
    assert_eq!(std::mem::align_of::<Table>(), 1);
}

#[test]
fn untyped_value_conversions() {
    assert_eq!(u64::from(UntypedVal::from(-1i64)), u64::MAX);
    assert_eq!(u64::from(UntypedVal::from(u32::MAX)), 0xFFFF_FFFF);
    assert!(UntypedVal::from(2u64).to_bool());
    assert!(!UntypedVal::from(0u64).to_bool());
}

#[test]
fn table_round_trip_from_table() {
    for index in [0u32, 7, 0x0102_0304, u32::MAX] {
        let t = Table::from(index);
        assert_eq!(Table::from(u32::from(t)), t);
    }
    assert_ne!(Table::from(1u32), Table::from(256u32));
}

#[test]
fn reg_ordering_follows_index() {
    assert!(Reg::from(-1) < Reg::from(0));
    assert!(Reg::from(3) > Reg::from(2));
    assert_eq!(Reg::from(4).max(Reg::from(9)), Reg::from(9));
}
