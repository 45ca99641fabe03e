use flagcell::BlockPool;
use flagcell::FlagCell;
use flagcell::FlagRefOption;

#[test]
fn shared_borrows_coexist() {
    let mut pool: BlockPool<u64> = BlockPool::new();
    let c = FlagCell::new(&mut pool, 11);
    let g1 = c.try_borrow(&mut pool).expect("first shared borrow");
    let g2 = c.try_borrow(&mut pool).expect("second shared borrow");
    let g3 = c.try_borrow(&mut pool).expect("third shared borrow");
    assert_eq!(*g1.get(&pool), 11);
    assert_eq!(*g2.get(&pool), 11);
    assert_eq!(*g3.get(&pool), 11);
    assert!(c.try_borrow_mut(&mut pool).is_none());
    g1.release(&mut pool);
    g2.release(&mut pool);
    assert!(c.try_borrow_mut(&mut pool).is_none());
    g3.release(&mut pool);
    let gm = c.try_borrow_mut(&mut pool).expect("exclusive borrow after release");
    gm.release(&mut pool);
    c.release(&mut pool);
}

#[test]
fn exclusive_borrow_blocks_everything() {
    let mut pool: BlockPool<u64> = BlockPool::new();
    let c = FlagCell::new(&mut pool, 11);
    let a = c.flag_borrow(&mut pool);
    let gm = c.borrow_mut(&mut pool);
    assert!(c.try_borrow(&mut pool).is_none());
    assert!(c.try_borrow_mut(&mut pool).is_none());
    assert!(matches!(a.try_borrow(&mut pool), FlagRefOption::Conflict));
    assert!(matches!(a.try_borrow_mut(&mut pool), FlagRefOption::Conflict));
    gm.release(&mut pool);
    let g = c.borrow(&mut pool);
    assert!(matches!(a.try_borrow_mut(&mut pool), FlagRefOption::Conflict));
    let gs = match a.try_borrow(&mut pool) {
        FlagRefOption::Success(gs) => gs,
        _ => panic!("shared borrows must coexist"),
    };
    g.release(&mut pool);
    gs.release(&mut pool);
    a.release(&mut pool);
    c.release(&mut pool);
}

#[test]
fn disabled_reference_refuses_access() {
    let mut pool: BlockPool<u64> = BlockPool::new();
    let c = FlagCell::new(&mut pool, 1);
    let a = c.flag_borrow(&mut pool);
    c.release(&mut pool);
    assert!(matches!(a.try_borrow(&mut pool), FlagRefOption::Disabled));
    assert!(matches!(a.try_borrow_mut(&mut pool), FlagRefOption::Disabled));
    a.release(&mut pool);
}

#[test]
fn guard_reads_and_writes_payload() {
    let mut pool: BlockPool<String> = BlockPool::new();
    let c = FlagCell::new(&mut pool, String::from("old"));
    let gm = c.borrow_mut(&mut pool);
    assert_eq!(*gm.get(&pool), "old");
    let previous = gm.put(&mut pool, String::from("new"));
    assert_eq!(previous, "old");
    assert_eq!(*gm.get(&pool), "new");
    gm.release(&mut pool);
    let g = c.borrow(&mut pool);
    assert_eq!(*g.get(&pool), "new");
    g.release(&mut pool);
    c.release(&mut pool);
}

#[test]
fn replace_swaps_payload() {
    let mut pool: BlockPool<u64> = BlockPool::new();
    let c = FlagCell::new(&mut pool, 1);
    let old = c.replace(&mut pool, 2);
    assert_eq!(old, 1);
    let g = c.borrow(&mut pool);
    assert_eq!(*g.get(&pool), 2);
    g.release(&mut pool);
    c.release(&mut pool);
}

#[test]
fn try_replace_hands_value_back_on_conflict() {
    let mut pool: BlockPool<u64> = BlockPool::new();
    let c = FlagCell::new(&mut pool, 1);
    let g = c.borrow(&mut pool);
    match c.try_replace(&mut pool, 5) {
        Ok(_) => panic!("try_replace must refuse while borrowed"),
        Err(v) => assert_eq!(v, 5),
    }
    assert_eq!(*g.get(&pool), 1);
    g.release(&mut pool);
    match c.try_replace(&mut pool, 5) {
        Ok(old) => assert_eq!(old, 1),
        Err(_) => panic!("try_replace must succeed once unborrowed"),
    }
    c.release(&mut pool);
}

#[test]
fn borrows_survive_owner_release() {
    let mut pool: BlockPool<u64> = BlockPool::new();
    let c = FlagCell::new(&mut pool, 33);
    let a = c.flag_borrow(&mut pool);
    let g = c.borrow(&mut pool);
    c.release(&mut pool);
    assert_eq!(*g.get(&pool), 33);
    g.release(&mut pool);
    assert!(matches!(a.try_borrow(&mut pool), FlagRefOption::Disabled));
    a.release(&mut pool);
}
