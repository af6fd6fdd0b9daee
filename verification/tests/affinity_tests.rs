use uintr::affinity::{get_uipi_core, init_uipi_core, worker_core_for, worker_cores, UipiCoreCell, UNSET_CORE};

#[test]
fn unset_before_init() {
    let cell = UipiCoreCell::new();
    assert_eq!(get_uipi_core(&cell), UNSET_CORE);
    assert_eq!(UNSET_CORE, usize::MAX);
}

#[test]
fn default_is_last_core() {
    let mut cell = UipiCoreCell::new();
    assert_eq!(init_uipi_core(&mut cell, 8, None), 7);
    assert_eq!(get_uipi_core(&cell), 7);
    let mut cell = UipiCoreCell::new();
    assert_eq!(init_uipi_core(&mut cell, 1, None), 0);
}

#[test]
fn requested_core_is_used_and_clamped() {
    let mut cell = UipiCoreCell::new();
    assert_eq!(init_uipi_core(&mut cell, 8, Some("3")), 3);
    assert_eq!(get_uipi_core(&cell), 3);
    assert_eq!(init_uipi_core(&mut cell, 8, Some("+2")), 2);
    assert_eq!(init_uipi_core(&mut cell, 8, Some("42")), 7);
    assert_eq!(init_uipi_core(&mut cell, 8, Some("abc")), 7);
    assert_eq!(init_uipi_core(&mut cell, 8, Some(" 3")), 7);
    assert_eq!(init_uipi_core(&mut cell, 8, Some("-1")), 7);
    assert_eq!(init_uipi_core(&mut cell, 8, Some("")), 7);
    assert_eq!(init_uipi_core(&mut cell, 8, Some("99999999999999999999999")), 7);
    assert_eq!(get_uipi_core(&cell), 7);
}

#[test]
fn worker_cores_skip_the_dedicated_core() {
    assert_eq!(worker_cores(4, 3), vec![0, 1, 2]);
    assert_eq!(worker_cores(4, 1), vec![0, 2, 3]);
    assert_eq!(worker_cores(4, UNSET_CORE), vec![0, 1, 2, 3]);
    assert_eq!(worker_cores(1, 0), Vec::<usize>::new());
    assert_eq!(worker_cores(0, 0), Vec::<usize>::new());
}

#[test]
fn tickets_go_round_the_worker_cores() {
    let cores = worker_cores(4, 1);
    let picked: Vec<usize> = (0..7).map(|t| worker_core_for(&cores, t)).collect();
    assert_eq!(picked, vec![0, 2, 3, 0, 2, 3, 0]);
    assert_eq!(worker_core_for(&cores, usize::MAX), cores[usize::MAX % 3]);
}
