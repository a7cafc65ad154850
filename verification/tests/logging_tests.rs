use echo_service::logging::Filter;
use echo_service::logging::Logger;
use echo_service::logging::StderrLogger;

struct Recorder {
    seen: std::cell::RefCell<Vec<(u8, String)>>,
}

impl Logger for Recorder {
    fn wf(&self) -> bool {
        true
    }

    fn log(&self, verbosity: u8, message: &str) {
        self.seen.borrow_mut().push((verbosity, message.to_string()));
    }
}

#[test]
fn the_filter_forwards_only_approved_messages() {
    let recorder = Recorder {
        seen: std::cell::RefCell::new(Vec::new()),
    };
    let filter = Filter::new(recorder, |verbosity: u8, _message: &str| verbosity <= 2);

    filter.log(1, "kept");
    filter.log(5, "dropped");
    filter.log(2, "also kept");

    let seen = filter.inner.seen.borrow();
    assert_eq!(seen.len(), 2);
    assert_eq!(seen[0], (1, "kept".to_string()));
    assert_eq!(seen[1], (2, "also kept".to_string()));
}

#[test]
fn the_filter_consults_the_message_too() {
    let recorder = Recorder {
        seen: std::cell::RefCell::new(Vec::new()),
    };
    let filter = Filter::new(recorder, |_verbosity: u8, message: &str| {
        !message.is_empty()
    });

    filter.log(0, "");
    filter.log(0, "content");

    let seen = filter.inner.seen.borrow();
    assert_eq!(seen.len(), 1);
    assert_eq!(seen[0], (0, "content".to_string()));
}

#[test]
fn the_stderr_logger_accepts_a_message() {
    let logger = StderrLogger;
    logger.log(3, "logger smoke message");
    let filter = Filter::new(StderrLogger, |verbosity: u8, _message: &str| verbosity == 0);
    filter.log(0, "filtered logger smoke message");
    filter.log(9, "never written");
}
