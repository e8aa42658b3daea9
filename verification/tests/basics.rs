use std::sync::Arc;
use std::sync::Mutex;

use bangbang_timed::controller::Clock;
use bangbang_timed::controller::TimeConstrainedOnOff;
use bangbang_timed::machine::StateChangeHandler;

/// A handler that records that it ran in a shared flag.
struct FlagHandler {
    called: Arc<Mutex<bool>>,
}

impl StateChangeHandler for FlagHandler {
    fn handle(&mut self) -> Result<(), u8> {
        *self.called.lock().unwrap() = true;
        Ok(())
    }
}

/// A clock that always reads zero milliseconds.
struct ZeroClock;

impl Clock for ZeroClock {
    fn now(&self) -> u32 {
        0
    }
}

#[test]
fn new_has_no_side_effect() {
    let called_on_handler = Arc::new(Mutex::new(false));
    let handle_on = FlagHandler {
        called: Arc::clone(&called_on_handler),
    };

    let called_off_handler = Arc::new(Mutex::new(false));
    let handle_off = FlagHandler {
        called: Arc::clone(&called_off_handler),
    };

    let _on_off = TimeConstrainedOnOff::new(
        false,
        Some(handle_on),
        Some(handle_off),
        None,
        None,
        ZeroClock,
    );
    let called_on_handler = called_on_handler.lock().unwrap();
    let called_off_handler = called_off_handler.lock().unwrap();
    assert_eq!(*called_on_handler, false);
    assert_eq!(*called_off_handler, false);
}

#[test]
fn toggles_on_off_on_off() {
    let mut on_off: TimeConstrainedOnOff<FlagHandler, FlagHandler, ZeroClock> =
        TimeConstrainedOnOff::new(true, None, None, None, None, ZeroClock);

    assert_eq!(on_off.is_on(), true);
    assert_eq!(on_off.is_off(), false);

    assert!(on_off.bang().is_ok());
    assert_eq!(on_off.is_on(), false);
    assert_eq!(on_off.is_off(), true);

    assert!(on_off.bang().is_ok());
    assert_eq!(on_off.is_on(), true);
    assert_eq!(on_off.is_off(), false);

    assert!(on_off.bang().is_ok());
    assert_eq!(on_off.is_on(), false);
    assert_eq!(on_off.is_off(), true);
}

#[test]
fn toggles_off_on_off_on() {
    let mut on_off: TimeConstrainedOnOff<FlagHandler, FlagHandler, ZeroClock> =
        TimeConstrainedOnOff::new(false, None, None, None, None, ZeroClock);

    assert_eq!(on_off.is_on(), false);
    assert_eq!(on_off.is_off(), true);

    assert!(on_off.bang().is_ok());
    assert_eq!(on_off.is_on(), true);
    assert_eq!(on_off.is_off(), false);

    assert!(on_off.bang().is_ok());
    assert_eq!(on_off.is_on(), false);
    assert_eq!(on_off.is_off(), true);

    assert!(on_off.bang().is_ok());
    assert_eq!(on_off.is_on(), true);
    assert_eq!(on_off.is_off(), false);
}

#[test]
fn calls_handlers() {
    let called_on_handler = Arc::new(Mutex::new(false));
    let called_off_handler = Arc::new(Mutex::new(false));

    {
        let mut on_off = TimeConstrainedOnOff::new(
            false,
            Some(FlagHandler {
                called: Arc::clone(&called_on_handler),
            }),
            Some(FlagHandler {
                called: Arc::clone(&called_off_handler),
            }),
            None,
            None,
            ZeroClock,
        );

        assert!(on_off.bang().is_ok());
        let mut called_on_handler = called_on_handler.lock().unwrap();
        let called_off_handler = called_off_handler.lock().unwrap();
        assert_eq!(*called_on_handler, true);
        assert_eq!(*called_off_handler, false);
        *called_on_handler = false;
    }

    {
        let mut on_off = TimeConstrainedOnOff::new(
            true,
            Some(FlagHandler {
                called: Arc::clone(&called_on_handler),
            }),
            Some(FlagHandler {
                called: Arc::clone(&called_off_handler),
            }),
            None,
            None,
            ZeroClock,
        );

        assert!(on_off.bang().is_ok());
        let called_on_handler = called_on_handler.lock().unwrap();
        let mut called_off_handler = called_off_handler.lock().unwrap();
        assert_eq!(*called_on_handler, false);
        assert_eq!(*called_off_handler, true);
        *called_off_handler = false;
    }

    {
        let mut on_off = TimeConstrainedOnOff::new(
            false,
            Some(FlagHandler {
                called: Arc::clone(&called_on_handler),
            }),
            Some(FlagHandler {
                called: Arc::clone(&called_off_handler),
            }),
            None,
            None,
            ZeroClock,
        );

        assert!(on_off.bang().is_ok());
        assert!(on_off.bang().is_ok());
        let called_on_handler = called_on_handler.lock().unwrap();
        let called_off_handler = called_off_handler.lock().unwrap();
        assert_eq!(*called_on_handler, true);
        assert_eq!(*called_off_handler, true);
    }
}
