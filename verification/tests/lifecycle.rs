use flagcell::BlockPool;
use flagcell::FlagCell;
use flagcell::FlagRef;
use flagcell::FlagRefOption;

#[test]
fn fresh_owner_counts_zero() {
    let mut pool: BlockPool<u64> = BlockPool::new();
    let c = FlagCell::new(&mut pool, 7);
    assert_eq!(c.ref_count(&pool), 0);
    assert!(c.is_enabled(&pool));
    c.release(&mut pool);
}

#[test]
fn clones_report_same_count() {
    let mut pool: BlockPool<u64> = BlockPool::new();
    let c = FlagCell::new(&mut pool, 1);
    let a = c.flag_borrow(&mut pool);
    let b = a.clone_ref(&mut pool);
    let d = b.clone_ref(&mut pool);
    assert_eq!(c.ref_count(&pool), 3);
    assert_eq!(a.ref_count(&pool), 3);
    assert_eq!(b.ref_count(&pool), 3);
    assert_eq!(d.ref_count(&pool), 3);
    d.release(&mut pool);
    assert_eq!(c.ref_count(&pool), 2);
    assert_eq!(a.ref_count(&pool), 2);
    b.release(&mut pool);
    a.release(&mut pool);
    assert_eq!(c.ref_count(&pool), 0);
    c.release(&mut pool);
}

#[test]
fn owner_drop_disables_survivors() {
    let mut pool: BlockPool<u64> = BlockPool::new();
    let c = FlagCell::new(&mut pool, 5);
    let a = c.flag_borrow(&mut pool);
    let b = a.clone_ref(&mut pool);
    assert_eq!(c.ref_count(&pool), 2);
    c.release(&mut pool);
    assert!(!a.is_enabled(&pool));
    assert!(!b.is_enabled(&pool));
    assert_eq!(a.ref_count(&pool), 2);
    assert_eq!(b.ref_count(&pool), 2);
    a.release(&mut pool);
    b.release(&mut pool);
}

#[test]
fn resurrect_restores_owner_once() {
    let mut pool: BlockPool<u64> = BlockPool::new();
    let c = FlagCell::new(&mut pool, 5);
    let a = c.flag_borrow(&mut pool);
    let b = a.clone_ref(&mut pool);
    c.release(&mut pool);
    let before = a.ref_count(&pool);
    assert_eq!(before, 2);
    let c2 = match a.resurrect(&mut pool) {
        FlagRefOption::Success(c2) => c2,
        _ => panic!("resurrection on a disabled reference must succeed"),
    };
    assert!(c2.is_enabled(&pool));
    assert_eq!(c2.ref_count(&pool), before);
    assert!(a.is_enabled(&pool));
    assert!(b.is_enabled(&pool));
    assert_eq!(a.ref_count(&pool), before);
    let again = b.resurrect(&mut pool);
    assert!(matches!(again, FlagRefOption::Disabled));
    c2.release(&mut pool);
    a.release(&mut pool);
    b.release(&mut pool);
}

#[test]
fn resurrect_with_live_owner_fails() {
    let mut pool: BlockPool<u64> = BlockPool::new();
    let c = FlagCell::new(&mut pool, 5);
    let a = c.flag_borrow(&mut pool);
    let r = a.resurrect(&mut pool);
    assert!(matches!(r, FlagRefOption::Disabled));
    assert_eq!(c.ref_count(&pool), 1);
    a.release(&mut pool);
    c.release(&mut pool);
}

#[test]
fn empty_reference_answers_empty() {
    let mut pool: BlockPool<u64> = BlockPool::new();
    let e: FlagRef<u64> = FlagRef::new();
    assert_eq!(e.ref_count(&pool), 0);
    assert!(!e.is_enabled(&pool));
    assert!(matches!(e.try_borrow(&mut pool), FlagRefOption::Empty));
    assert!(matches!(e.try_borrow_mut(&mut pool), FlagRefOption::Empty));
    assert!(matches!(e.resurrect(&mut pool), FlagRefOption::Empty));
    assert!(matches!(e.enable(&mut pool), FlagRefOption::Empty));
    assert!(matches!(e.disable(&mut pool), FlagRefOption::Empty));
    let e2 = e.clone_ref(&mut pool);
    assert_eq!(e2.ref_count(&pool), 0);
    e.release(&mut pool);
    e2.release(&mut pool);
    assert_eq!(pool.blocks.len(), 0);
}

#[test]
fn default_reference_is_empty() {
    let pool: BlockPool<u64> = BlockPool::new();
    let e: FlagRef<u64> = FlagRef::default();
    assert_eq!(e.ref_count(&pool), 0);
    assert!(!e.is_enabled(&pool));
}

#[test]
fn full_owner_reference_scenario() {
    let mut pool: BlockPool<u64> = BlockPool::new();
    let o = FlagCell::new(&mut pool, 42);
    let a = o.flag_borrow(&mut pool);
    let b = a.clone_ref(&mut pool);
    assert_eq!(o.ref_count(&pool), 2);
    o.release(&mut pool);
    assert!(!a.is_enabled(&pool));
    assert_eq!(a.ref_count(&pool), 2);
    b.release(&mut pool);
    assert_eq!(a.ref_count(&pool), 1);
    let o2 = a.resurrect(&mut pool).into_option().expect("resurrect must succeed");
    assert!(o2.is_enabled(&pool));
    assert_eq!(a.ref_count(&pool), 1);
    let g = a.try_borrow(&mut pool).into_option().expect("borrow must succeed");
    assert_eq!(*g.get(&pool), 42);
    g.release(&mut pool);
    o2.release(&mut pool);
    assert!(!a.is_enabled(&pool));
    a.release(&mut pool);
    assert!(pool.blocks[0].is_none());
}

#[test]
fn unwrap_extracts_payload() {
    let mut pool: BlockPool<String> = BlockPool::new();
    let c = FlagCell::new(&mut pool, String::from("inner"));
    let v = c.unwrap(&mut pool);
    assert_eq!(v, "inner");
    assert!(pool.blocks[0].is_none());
}

#[test]
fn try_unwrap_refuses_then_succeeds() {
    let mut pool: BlockPool<u64> = BlockPool::new();
    let c = FlagCell::new(&mut pool, 9);
    let a = c.flag_borrow(&mut pool);
    let c = match c.try_unwrap(&mut pool) {
        Ok(_) => panic!("try_unwrap must refuse while a reference survives"),
        Err(c) => c,
    };
    a.release(&mut pool);
    assert!(c.disable(&mut pool).is_some());
    let c = match c.try_unwrap(&mut pool) {
        Ok(_) => panic!("try_unwrap must refuse while disabled"),
        Err(c) => c,
    };
    assert!(c.enable(&mut pool).is_some());
    match c.try_unwrap(&mut pool) {
        Ok(v) => assert_eq!(v, 9),
        Err(_) => panic!("try_unwrap must succeed with no references, enabled, unborrowed"),
    }
    assert!(pool.blocks[0].is_none());
}

#[test]
fn enable_disable_report_change() {
    let mut pool: BlockPool<u64> = BlockPool::new();
    let c = FlagCell::new(&mut pool, 3);
    assert!(c.disable(&mut pool).is_some());
    assert!(c.disable(&mut pool).is_none());
    assert!(!c.is_enabled(&pool));
    assert_eq!(c.ref_count(&pool), 0);
    assert!(c.enable(&mut pool).is_some());
    assert!(c.enable(&mut pool).is_none());
    assert!(c.is_enabled(&pool));
    c.release(&mut pool);
}

#[test]
fn forced_flag_flips_bypass_owner() {
    let mut pool: BlockPool<u64> = BlockPool::new();
    let c = FlagCell::new(&mut pool, 8);
    let a = c.flag_borrow(&mut pool);
    assert!(matches!(a.disable(&mut pool), FlagRefOption::Success(())));
    assert!(!c.is_enabled(&pool));
    assert!(matches!(a.try_borrow(&mut pool), FlagRefOption::Disabled));
    assert!(matches!(a.enable(&mut pool), FlagRefOption::Success(())));
    assert!(c.is_enabled(&pool));
    let g = match a.try_borrow(&mut pool) {
        FlagRefOption::Success(g) => g,
        _ => panic!("borrow must succeed after force-enable"),
    };
    assert_eq!(*g.get(&pool), 8);
    g.release(&mut pool);
    a.release(&mut pool);
    c.release(&mut pool);
}

#[test]
fn blocks_are_independent() {
    let mut pool: BlockPool<u64> = BlockPool::new();
    let c1 = FlagCell::new(&mut pool, 10);
    let c2 = FlagCell::new(&mut pool, 20);
    let r1 = c1.flag_borrow(&mut pool);
    assert_eq!(c1.ref_count(&pool), 1);
    assert_eq!(c2.ref_count(&pool), 0);
    c2.release(&mut pool);
    assert!(r1.is_enabled(&pool));
    assert!(pool.blocks[1].is_none());
    r1.release(&mut pool);
    c1.release(&mut pool);
    assert!(pool.blocks[0].is_none());
}

#[test]
fn clone_of_disabled_reference_stays_disabled() {
    let mut pool: BlockPool<u64> = BlockPool::new();
    let c = FlagCell::new(&mut pool, 6);
    let a = c.flag_borrow(&mut pool);
    c.release(&mut pool);
    assert!(!a.is_enabled(&pool));
    assert_eq!(a.ref_count(&pool), 1);
    let b = a.clone_ref(&mut pool);
    assert!(!b.is_enabled(&pool));
    assert_eq!(a.ref_count(&pool), 2);
    assert_eq!(b.ref_count(&pool), 2);
    a.release(&mut pool);
    b.release(&mut pool);
    assert!(pool.blocks[0].is_none());
}
