use trembyle::output::OutputMultiplexer;

fn write_through(m: &mut OutputMultiplexer, answers: &[bool]) -> (Vec<usize>, Result<(), usize>) {
    m.begin_write();
    let mut order = Vec::new();
    while let Some(i) = m.next_driver() {
        order.push(i);
        m.record(answers[i]);
    }
    (order, m.outcome())
}

#[test]
fn every_driver_written_in_order() {
    let mut m = OutputMultiplexer::new(3);
    assert_eq!(write_through(&mut m, &[true, true, true]), (vec![0, 1, 2], Ok(())));
}

#[test]
fn one_failure_fails_the_write_but_reaches_all() {
    let mut m = OutputMultiplexer::new(3);
    assert_eq!(write_through(&mut m, &[true, false, true]), (vec![0, 1, 2], Err(1)));
    assert_eq!(write_through(&mut m, &[false, false, true]), (vec![0, 1, 2], Err(2)));
    assert_eq!(write_through(&mut m, &[true, true, true]), (vec![0, 1, 2], Ok(())));
}

#[test]
fn no_drivers_succeeds_trivially() {
    let mut m = OutputMultiplexer::new(0);
    assert_eq!(write_through(&mut m, &[]), (vec![], Ok(())));
}
