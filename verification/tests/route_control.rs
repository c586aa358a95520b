use ruray::net::ipv4;
use ruray::routes::{Route, RouteController, RouteOp, apply_route_ops, plan_enable,
    route_table_add};

fn count_route(table: &Vec<Route>, r: &Route) -> usize {
    table.iter().filter(|x| *x == r).count()
}

fn same_multiset(a: &Vec<Route>, b: &Vec<Route>) -> bool {
    a.len() == b.len() && a.iter().all(|r| count_route(a, r) == count_route(b, r))
}

fn default_table() -> Vec<Route> {
    vec![
        Route { dest: 0, prefix: 0, gateway: ipv4(192, 168, 1, 1) },
        Route { dest: ipv4(192, 168, 1, 0), prefix: 24, gateway: 0 },
    ]
}

#[test]
fn plan_enable_pins_endpoint_and_splits_default() {
    let dns = vec![ipv4(8, 8, 8, 8), ipv4(1, 1, 1, 1)];
    let plan = plan_enable(ipv4(192, 168, 55, 1), ipv4(192, 168, 1, 1), ipv4(203, 0, 113, 9), &dns, false);
    assert_eq!(plan.len(), 5);
    assert_eq!(plan[0], Route { dest: ipv4(203, 0, 113, 9), prefix: 32, gateway: ipv4(192, 168, 1, 1) });
    assert_eq!(plan[1], Route { dest: ipv4(8, 8, 8, 8), prefix: 32, gateway: ipv4(192, 168, 1, 1) });
    assert_eq!(plan[2], Route { dest: ipv4(1, 1, 1, 1), prefix: 32, gateway: ipv4(192, 168, 1, 1) });
    assert_eq!(plan[3], Route { dest: 0, prefix: 1, gateway: ipv4(192, 168, 55, 1) });
    assert_eq!(plan[4], Route { dest: ipv4(128, 0, 0, 0), prefix: 1, gateway: ipv4(192, 168, 55, 1) });
}

#[test]
fn plan_enable_strict_adds_antileak_routes() {
    let plan = plan_enable(ipv4(192, 168, 55, 1), ipv4(192, 168, 1, 1), ipv4(203, 0, 113, 9), &vec![], true);
    assert_eq!(plan.len(), 5);
    assert_eq!(plan[3], Route { dest: ipv4(255, 255, 255, 255), prefix: 32, gateway: ipv4(192, 168, 55, 1) });
    assert_eq!(plan[4], Route { dest: ipv4(224, 0, 0, 0), prefix: 4, gateway: ipv4(192, 168, 55, 1) });
}

#[test]
fn enable_then_disable_restores_the_table() {
    let mut table = default_table();
    let before = table.clone();
    let plan = plan_enable(
        ipv4(192, 168, 55, 1),
        ipv4(192, 168, 1, 1),
        ipv4(203, 0, 113, 9),
        &vec![ipv4(8, 8, 8, 8)],
        false,
    );

    let mut rc = RouteController::new();
    rc.begin_enable(table.clone(), plan.clone());
    while let Some(r) = rc.next_add() {
        route_table_add(&mut table, r);
        rc.add_succeeded();
    }
    assert_eq!(table.len(), before.len() + plan.len());

    let ops = rc.disable();
    apply_route_ops(&mut table, &ops);
    assert!(same_multiset(&table, &before));
}

#[test]
fn failed_install_rolls_back_what_was_added() {
    let mut table = default_table();
    let before = table.clone();
    let plan = plan_enable(
        ipv4(192, 168, 55, 1),
        ipv4(192, 168, 1, 1),
        ipv4(203, 0, 113, 9),
        &vec![],
        false,
    );

    let mut rc = RouteController::new();
    rc.begin_enable(table.clone(), plan.clone());
    // The first two adds succeed, the third fails.
    for _ in 0..2 {
        let r = rc.next_add().unwrap();
        route_table_add(&mut table, r);
        rc.add_succeeded();
    }
    let ops = rc.disable();
    assert_eq!(ops.len(), 2);
    assert_eq!(ops[0], RouteOp::Del(plan[1]));
    assert_eq!(ops[1], RouteOp::Del(plan[0]));
    apply_route_ops(&mut table, &ops);
    assert!(same_multiset(&table, &before));
}

#[test]
fn disable_is_idempotent() {
    let mut rc = RouteController::new();
    rc.begin_enable(default_table(), vec![Route { dest: 0, prefix: 1, gateway: 1 }]);
    let r = rc.next_add().unwrap();
    let mut table = default_table();
    route_table_add(&mut table, r);
    rc.add_succeeded();
    let first = rc.disable();
    assert_eq!(first.len(), 1);
    let second = rc.disable();
    assert_eq!(second.len(), 0);
}

#[test]
fn deleting_an_externally_removed_route_is_a_no_op() {
    let mut table = default_table();
    let before = table.clone();
    let missing = Route { dest: ipv4(9, 9, 9, 9), prefix: 32, gateway: 1 };
    apply_route_ops(&mut table, &vec![RouteOp::Del(missing)]);
    assert!(same_multiset(&table, &before));
}
