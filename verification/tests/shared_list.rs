use my_fancy_project::shared_list::record;
use rayon::iter::{IntoParallelIterator, ParallelIterator};
use std::sync::Mutex;

#[test]
fn record_appends_at_the_end() {
    let mut values = vec![4, 1];
    record(&mut values, 9);
    assert_eq!(values, vec![4, 1, 9]);
    record(&mut values, 4);
    assert_eq!(values, vec![4, 1, 9, 4]);
}

#[test]
fn record_starts_an_empty_list() {
    let mut values = Vec::new();
    record(&mut values, -3);
    assert_eq!(values, vec![-3]);
}

#[test]
fn ten_workers_leave_each_index_once() {
    let thread_num = 10;
    let shared = Mutex::new(Vec::new());
    (0..thread_num).into_par_iter().for_each(|i| {
        let mut guard = shared.lock().unwrap();
        record(&mut guard, i);
    });
    let mut values = shared.into_inner().unwrap();
    assert_eq!(values.len(), 10);
    values.sort();
    assert_eq!(values, vec![0, 1, 2, 3, 4, 5, 6, 7, 8, 9]);
}

#[test]
fn the_order_of_arrival_does_not_matter() {
    let mut values = Vec::new();
    for i in [7, 2, 9, 0, 4, 1, 8, 3, 6, 5] {
        record(&mut values, i);
    }
    assert_eq!(values, vec![7, 2, 9, 0, 4, 1, 8, 3, 6, 5]);
    values.sort();
    assert_eq!(values, vec![0, 1, 2, 3, 4, 5, 6, 7, 8, 9]);
}
