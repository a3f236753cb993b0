use handles::atomic::AtomicHandlePool;
use handles::borrow::{BorrowConflict, BorrowState};
use handles::cycle::{set_next, List};
use handles::graph::{attach_child, new_node, release_subtree, set_parent, Node};
use handles::pool::HandlePool;
use handles::tracker::BorrowTracker;

#[test]
fn strong_count_balances_clones_and_drops() {
    // One allocation plus three clones minus two drops leaves two owners.
    let mut pool: HandlePool<u64> = HandlePool::new();
    let a = pool.allocate(7);
    let b = pool.clone_strong(&a);
    let c = pool.clone_strong(&a);
    let d = pool.clone_strong(&a);
    assert_eq!(pool.strong_count(&a), 4);
    assert_eq!(pool.release_strong(b), None);
    assert_eq!(pool.release_strong(c), None);
    assert_eq!(pool.strong_count(&a), 2);
    assert_eq!(pool.release_strong(d), None);
    assert_eq!(pool.release_strong(a), Some(7));
}

#[test]
fn teardown_happens_once_despite_weak_handles() {
    let mut pool: HandlePool<String> = HandlePool::new();
    let a = pool.allocate(String::from("payload"));
    let w1 = pool.downgrade(&a);
    let w2 = pool.clone_weak(&w1);
    let b = pool.clone_strong(&a);
    // Dropping one of two strong handles tears nothing down.
    assert_eq!(pool.release_strong(a), None);
    assert_eq!(pool.observed_strong_count(&w1), 1);
    // Dropping the last one hands the value back, weak handles or not.
    assert_eq!(pool.release_strong(b), Some(String::from("payload")));
    assert_eq!(pool.observed_strong_count(&w1), 0);
    // The weak handles survive the teardown but can no longer upgrade.
    assert!(pool.upgrade(&w1).is_none());
    assert!(pool.upgrade(&w2).is_none());
    pool.release_weak(w1);
    pool.release_weak(w2);
}

#[test]
fn upgrade_succeeds_exactly_while_value_lives() {
    let mut pool: HandlePool<u64> = HandlePool::new();
    let a = pool.allocate(1);
    let w = pool.downgrade(&a);
    // Alive: upgrade returns a new strong owner.
    let up = pool.upgrade(&w).expect("value is alive");
    assert_eq!(pool.strong_count(&up), 2);
    assert_eq!(pool.release_strong(up), None);
    assert_eq!(pool.release_strong(a), Some(1));
    // Torn down: upgrade refuses, and never resurrects the value.
    assert!(pool.upgrade(&w).is_none());
    assert!(pool.upgrade(&w).is_none());
    assert_eq!(pool.observed_strong_count(&w), 0);
    pool.release_weak(w);
}

#[test]
fn shared_borrows_coexist_exclusive_conflicts() {
    let mut t = BorrowTracker::new(41u64);
    let g1 = t.borrow().expect("first shared borrow");
    let g2 = t.borrow().expect("second shared borrow");
    assert_eq!(*t.read(&g1), 41);
    assert_eq!(*t.read(&g2), 41);
    // An exclusive borrow is refused while shared guards are alive.
    assert!(matches!(t.borrow_mut(), Err(BorrowConflict)));
    t.release(g1);
    assert!(matches!(t.borrow_mut(), Err(BorrowConflict)));
    t.release(g2);
    // It succeeds immediately after the last release.
    let m = t.borrow_mut().expect("exclusive borrow after releases");
    assert_eq!(t.replace(&m, 42), 41);
    // And a shared borrow is refused while the exclusive one is out.
    assert!(matches!(t.borrow(), Err(BorrowConflict)));
    t.release_mut(m);
    assert_eq!(t.into_inner(), 42);
}

#[test]
fn pool_borrows_follow_the_same_rules() {
    let mut pool: HandlePool<u64> = HandlePool::new();
    let a = pool.allocate(10);
    let s = pool.borrow_shared(&a).expect("shared");
    assert_eq!(*pool.read(&s), 10);
    assert!(pool.borrow_exclusive(&a).is_err());
    pool.release_shared(s);
    let x = pool.borrow_exclusive(&a).expect("exclusive");
    assert_eq!(pool.replace(&x, 11), 10);
    assert!(pool.borrow_shared(&a).is_err());
    pool.release_exclusive(x);
    assert_eq!(*pool.get(&a), 11);
    assert_eq!(pool.release_strong(a), Some(11));
}

#[test]
fn borrow_state_transitions() {
    let mut s = BorrowState::new();
    assert!(s.try_shared().is_ok());
    assert!(s.try_shared().is_ok());
    assert!(s.try_exclusive().is_err());
    s.release_shared();
    s.release_shared();
    assert!(s.try_exclusive().is_ok());
    assert_eq!(s.try_shared().unwrap_err(), BorrowConflict);
    s.release_exclusive();
    assert!(s.try_shared().is_ok());
}

#[test]
fn tree_release_cascades_to_children() {
    let mut pool: HandlePool<Node> = HandlePool::new();
    let root = new_node(&mut pool, 5);
    assert_eq!(pool.strong_count(&root), 1);
    let child = new_node(&mut pool, 3);
    assert_eq!(pool.strong_count(&child), 1);

    // The child points weakly back at the root; upgrading that edge
    // succeeds while the root lives.
    let back_edge = pool.downgrade(&root);
    assert!(set_parent(&mut pool, &child, back_edge).is_none());
    let probe = pool.downgrade(&root);
    let via_parent = pool.upgrade(&probe).expect("root is alive");
    assert_eq!(pool.get(&via_parent).value, 5);
    assert!(pool.release_strong(via_parent).is_none());

    // Watch both nodes, then hand the child to the root and drop the
    // root's only external handle: the cascade tears both down.
    let watch_child = pool.downgrade(&child);
    attach_child(&mut pool, &root, child);
    release_subtree(&mut pool, root);
    assert_eq!(pool.observed_strong_count(&probe), 0);
    assert_eq!(pool.observed_strong_count(&watch_child), 0);
    assert!(pool.upgrade(&probe).is_none());
    assert!(pool.upgrade(&watch_child).is_none());
    pool.release_weak(probe);
    pool.release_weak(watch_child);
}

#[test]
fn cascade_reaches_grandchildren() {
    let mut pool: HandlePool<Node> = HandlePool::new();
    let root = new_node(&mut pool, 1);
    let child = new_node(&mut pool, 2);
    let grandchild = new_node(&mut pool, 3);
    let watch_grandchild = pool.downgrade(&grandchild);
    attach_child(&mut pool, &child, grandchild);
    attach_child(&mut pool, &root, child);
    release_subtree(&mut pool, root);
    assert_eq!(pool.observed_strong_count(&watch_grandchild), 0);
    pool.release_weak(watch_grandchild);
}

#[test]
fn cascade_stops_at_children_with_outside_owners() {
    let mut pool: HandlePool<Node> = HandlePool::new();
    let root = new_node(&mut pool, 1);
    let child = new_node(&mut pool, 2);
    let keep = pool.clone_strong(&child);
    attach_child(&mut pool, &root, child);
    assert_eq!(pool.strong_count(&keep), 2);
    // The root's subtree is torn down, but the child survives: its other
    // owner stands outside the released subtree.
    release_subtree(&mut pool, root);
    assert_eq!(pool.strong_count(&keep), 1);
    assert_eq!(pool.get(&keep).value, 2);
    release_subtree(&mut pool, keep);
}

#[test]
fn strong_cycle_leaks_both_nodes() {
    let mut pool: HandlePool<Node> = HandlePool::new();
    let a = new_node(&mut pool, 1);
    let b = new_node(&mut pool, 2);
    let wa = pool.downgrade(&a);
    let wb = pool.downgrade(&b);

    // Close a cycle of strong edges through the interior-mutable
    // children lists.
    let a_for_b = pool.clone_strong(&a);
    let b_for_a = pool.clone_strong(&b);
    attach_child(&mut pool, &a, b_for_a);
    attach_child(&mut pool, &b, a_for_b);
    assert_eq!(pool.strong_count(&a), 2);
    assert_eq!(pool.strong_count(&b), 2);

    // Dropping every external handle leaves each node owned by the
    // other: the counters stay at one for good and nothing is torn down.
    release_subtree(&mut pool, a);
    release_subtree(&mut pool, b);
    assert_eq!(pool.observed_strong_count(&wa), 1);
    assert_eq!(pool.observed_strong_count(&wb), 1);
    assert!(pool.upgrade(&wa).is_some_and(|h| {
        let alive = pool.get(&h).value == 1;
        let _ = pool.release_strong(h);
        alive
    }));
    pool.release_weak(wa);
    pool.release_weak(wb);
}

#[test]
fn weak_back_edge_breaks_the_cycle() {
    // The same two-node shape with one direction weak reclaims both
    // nodes: the asymmetry is what makes the tree pattern safe.
    let mut pool: HandlePool<Node> = HandlePool::new();
    let parent = new_node(&mut pool, 1);
    let child = new_node(&mut pool, 2);
    let back_edge = pool.downgrade(&parent);
    assert!(set_parent(&mut pool, &child, back_edge).is_none());
    let wp = pool.downgrade(&parent);
    let wc = pool.downgrade(&child);
    attach_child(&mut pool, &parent, child);
    release_subtree(&mut pool, parent);
    assert_eq!(pool.observed_strong_count(&wp), 0);
    assert_eq!(pool.observed_strong_count(&wc), 0);
    pool.release_weak(wp);
    pool.release_weak(wc);
}

#[test]
fn list_cells_form_and_keep_a_cycle() {
    let mut pool: HandlePool<List> = HandlePool::new();
    let nil_a = pool.allocate(List::Nil);
    let a = pool.allocate(List::Cons { value: 5, next: nil_a });
    let nil_b = pool.allocate(List::Nil);
    let b = pool.allocate(List::Cons { value: 10, next: nil_b });
    assert!(pool.get(&a).tail().is_some());
    let nil_probe = pool.allocate(List::Nil);
    assert!(pool.get(&nil_probe).tail().is_none());
    assert!(matches!(pool.release_strong(nil_probe), Some(List::Nil)));

    // Repoint a's link at b, closing a -> b -> a.
    let b_for_a = pool.clone_strong(&b);
    let old_nil = set_next(&mut pool, &a, b_for_a);
    assert!(matches!(pool.release_strong(old_nil), Some(List::Nil)));
    let a_for_b = pool.clone_strong(&a);
    let old_nil_b = set_next(&mut pool, &b, a_for_b);
    assert!(matches!(pool.release_strong(old_nil_b), Some(List::Nil)));

    let wa = pool.downgrade(&a);
    let wb = pool.downgrade(&b);
    assert_eq!(pool.strong_count(&a), 2);
    assert_eq!(pool.strong_count(&b), 2);
    // Dropping the external handles leaves the cycle alive: each cell
    // still owns the other.
    let _ = pool.release_strong(a);
    let _ = pool.release_strong(b);
    assert_eq!(pool.observed_strong_count(&wa), 1);
    assert_eq!(pool.observed_strong_count(&wb), 1);
    pool.release_weak(wa);
    pool.release_weak(wb);
}

#[test]
fn atomic_handles_count_like_plain_ones() {
    let mut pool: AtomicHandlePool<u64> = AtomicHandlePool::new();
    let a = pool.allocate(0);
    let w = pool.downgrade(&a);
    let b = pool.clone_strong(&a);
    assert_eq!(pool.strong_count(&a), 2);
    assert_eq!(pool.weak_count(&a), 1);
    assert_eq!(pool.release_strong(b), None);
    let up = pool.upgrade(&w).expect("alive");
    assert_eq!(pool.release_strong(up), None);
    assert_eq!(pool.release_strong(a), Some(0));
    assert!(pool.upgrade(&w).is_none());
    pool.release_weak(w);
}

#[test]
fn shared_counter_under_the_value_lock() {
    // The thread-safe scenario, one worker after another: each worker
    // clones the handle, bumps the shared counter under the exclusive
    // lock, and drops its clone. Afterwards the counter equals the number
    // of workers and only the originally retained handle remains.
    let workers: u64 = 8;
    let mut pool: AtomicHandlePool<u64> = AtomicHandlePool::new();
    let retained = pool.allocate(0);
    for _ in 0..workers {
        let mine = pool.clone_strong(&retained);
        let guard = pool.lock(&mine);
        let current = *pool.read_locked(&guard);
        pool.store(&guard, current + 1);
        pool.unlock(guard);
        pool.release_strong(mine);
    }
    assert_eq!(pool.strong_count(&retained), 1);
    assert_eq!(pool.release_strong(retained), Some(workers));
}
