use rocket_newrelic::ErrorNote;
use rocket_newrelic::FinalizeAction;
use rocket_newrelic::ResponseStatus;
use rocket_newrelic::Transaction;
use rocket_newrelic::lifecycle::is_failure;

fn status(code: u16, text: &str) -> ResponseStatus {
    ResponseStatus { code, text: text.to_string() }
}

#[test]
fn success_class_is_2xx_only() {
    assert!(is_failure(199));
    assert!(!is_failure(200));
    assert!(!is_failure(204));
    assert!(!is_failure(299));
    assert!(is_failure(300));
    assert!(is_failure(404));
    assert!(is_failure(500));
}

#[test]
fn fresh_cell_is_not_traced_and_discarded_unexposed() {
    let cell = Transaction::from_open(Some(41u64));
    match cell.finalize(&status(200, "200 OK")) {
        FinalizeAction::Discard { handle } => assert_eq!(handle, 41),
        _ => panic!("an unexposed transaction must be discarded"),
    }
}

#[test]
fn promoted_cell_is_reported_without_error_on_success() {
    let mut cell = Transaction::from_open(Some(42u64));
    assert!(cell.promote());
    match cell.finalize(&status(200, "200 OK")) {
        FinalizeAction::Report { handle, error } => {
            assert_eq!(handle, 42);
            assert!(error.is_none());
        }
        _ => panic!("an exposed transaction must be reported"),
    }
}

#[test]
fn promoted_cell_gets_error_note_on_failure() {
    let mut cell = Transaction::from_open(Some(43u64));
    assert!(cell.promote());
    match cell.finalize(&status(500, "500 Internal Server Error")) {
        FinalizeAction::Report { handle, error } => {
            assert_eq!(handle, 43);
            let ErrorNote { priority, message, class } =
                error.expect("a failed response must carry an error note");
            assert_eq!(priority, 100);
            assert_eq!(message, "500 Internal Server Error");
            assert_eq!(class, "");
        }
        _ => panic!("an exposed transaction must be reported"),
    }
}

#[test]
fn client_error_class_also_gets_error_note() {
    let mut cell = Transaction::from_open(Some(44u64));
    assert!(cell.promote());
    match cell.finalize(&status(404, "404 Not Found")) {
        FinalizeAction::Report { error: Some(note), .. } => {
            assert_eq!(note.message, "404 Not Found");
        }
        _ => panic!("a 404 response must be reported with an error note"),
    }
}

#[test]
fn promotion_is_idempotent_and_keeps_the_handle() {
    let mut cell = Transaction::from_open(Some(7u64));
    assert!(cell.promote());
    assert!(cell.promote());
    assert!(cell.promote());
    match cell.finalize(&status(200, "200 OK")) {
        FinalizeAction::Report { handle, error } => {
            assert_eq!(handle, 7);
            assert!(error.is_none());
        }
        _ => panic!("repeated promotion must still end in one report"),
    }
}

#[test]
fn failed_open_degrades_to_a_no_op() {
    let mut cell: Transaction<u64> = Transaction::from_open(None);
    assert!(!cell.promote());
    assert!(!cell.promote());
    match cell.finalize(&status(500, "500 Internal Server Error")) {
        FinalizeAction::Nothing => {}
        _ => panic!("an absent transaction must get no backend call"),
    }
}

#[test]
fn batch_of_requests_balances_opens_and_terminals() {
    // Three independent request flows, each with its own cell and handle:
    // one exposed and failing, one never exposed, one whose open failed.
    let mut opens: usize = 0;
    let mut terminals: usize = 0;

    let mut first = Transaction::from_open({
        opens += 1;
        Some(1u64)
    });
    assert!(first.promote());
    match first.finalize(&status(500, "500 Internal Server Error")) {
        FinalizeAction::Report { handle, error } => {
            assert_eq!(handle, 1);
            assert!(error.is_some());
            terminals += 1;
        }
        _ => panic!("exposed flow must report"),
    }

    let second = Transaction::from_open({
        opens += 1;
        Some(2u64)
    });
    match second.finalize(&status(200, "200 OK")) {
        FinalizeAction::Discard { handle } => {
            assert_eq!(handle, 2);
            terminals += 1;
        }
        _ => panic!("unexposed flow must discard"),
    }

    let third: Transaction<u64> = Transaction::from_open({
        opens += 1;
        None
    });
    match third.finalize(&status(200, "200 OK")) {
        FinalizeAction::Nothing => terminals += 1,
        _ => panic!("absent flow must stay silent"),
    }

    assert_eq!(opens, 3);
    assert_eq!(terminals, 3);
}
