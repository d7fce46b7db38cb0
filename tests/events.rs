use std::cell::RefCell;
use std::rc::Rc;

use eruption::events::{delivery_count, Event, EventBus, Observer, ObserverError};

struct Recorder {
    id: usize,
    fails: bool,
    log: Rc<RefCell<Vec<usize>>>,
}

impl Observer for Recorder {
    fn notify(&self, _event: &Event) -> Result<bool, ObserverError> {
        self.log.borrow_mut().push(self.id);
        if self.fails {
            Err(ObserverError { message: format!("observer {}", self.id) })
        } else {
            Ok(true)
        }
    }
}

fn bus(fails: &[bool], log: &Rc<RefCell<Vec<usize>>>) -> EventBus<Recorder> {
    let mut bus = EventBus::new();
    for (id, f) in fails.iter().enumerate() {
        bus.register_observer(Recorder { id, fails: *f, log: log.clone() });
    }
    bus
}

#[test]
fn delivery_in_registration_order() {
    let log = Rc::new(RefCell::new(vec![]));
    let d = bus(&[false, false, false], &log).notify_observers(&Event::KeyDown(30));
    assert_eq!(d.delivered, 3);
    assert!(d.outcome.is_ok());
    assert_eq!(*log.borrow(), vec![0, 1, 2]);
}

#[test]
fn failing_observer_stops_delivery() {
    let log = Rc::new(RefCell::new(vec![]));
    let d = bus(&[false, true, false], &log).notify_observers(&Event::DaemonStartup);
    assert_eq!(d.delivered, 2);
    assert_eq!(d.outcome.unwrap_err().message, "observer 1");
    assert_eq!(*log.borrow(), vec![0, 1]);
}

#[test]
fn empty_bus_succeeds() {
    let log = Rc::new(RefCell::new(vec![]));
    let d = bus(&[], &log).notify_observers(&Event::DaemonShutdown);
    assert_eq!(d.delivered, 0);
    assert!(d.outcome.is_ok());
}

#[test]
fn delivery_count_of_answers() {
    assert_eq!(delivery_count(&[]), 0);
    assert_eq!(delivery_count(&[true, true]), 2);
    assert_eq!(delivery_count(&[true, false, true]), 2);
    assert_eq!(delivery_count(&[false, true]), 1);
}
