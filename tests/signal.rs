use std::cell::RefCell;
use std::rc::Rc;

#[test]
fn test_signal() {
    let mut signal = rocketchat::signal::new();
    assert_eq!(signal.count(), 0);

    let rc = Rc::new(RefCell::new(1));
    let rc_clone = Rc::clone(&rc);
    signal.connect(move || {
        let mut x = (*rc_clone).borrow_mut();
        *x = 2;
    });

    assert_eq!(signal.count(), 1);

    signal.emit();
    assert_eq!(signal.count(), 1);
    assert_eq!(*rc.borrow(), 2);

    signal.disconnect();
    assert_eq!(signal.count(), 0);
}

#[test]
fn signal_calls_slots_in_connection_order() {
    let log = Rc::new(RefCell::new(Vec::new()));
    let mut signal: rocketchat::signal::_Signal<Box<dyn Fn()>> = rocketchat::signal::new();
    for k in 0..3 {
        let log = Rc::clone(&log);
        signal.connect(Box::new(move || log.borrow_mut().push(k)));
    }
    signal.emit();
    signal.emit();
    assert_eq!(*log.borrow(), vec![0, 1, 2, 0, 1, 2]);
    signal.disconnect();
    signal.emit();
    assert_eq!(log.borrow().len(), 6);
}
