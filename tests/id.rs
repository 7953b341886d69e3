use eos420::id::{machine_of, IdService};

#[test]
fn identifiers_carry_the_machine() {
    let s = IdService::new(7);
    for _ in 0..100 {
        let id = s.next_id();
        assert!(id >= 0);
        assert_eq!(machine_of(id), 7);
    }
}

#[test]
fn distinct_machines_never_collide() {
    let a = IdService::new(1);
    let b = IdService::new(2);
    let xs: Vec<i64> = (0..200).map(|_| a.next_id()).collect();
    let ys: Vec<i64> = (0..200).map(|_| b.next_id()).collect();
    for x in &xs {
        assert!(!ys.contains(x));
    }
}

#[test]
fn one_service_does_not_repeat() {
    let s = IdService::new(0xFFFF);
    let mut seen: Vec<i64> = Vec::new();
    for _ in 0..300 {
        let id = s.next_id();
        assert!(!seen.contains(&id));
        seen.push(id);
    }
    assert_eq!(s.machine_id(), 0xFFFF);
}
