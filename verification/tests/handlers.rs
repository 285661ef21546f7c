use greeting_service::cell::HealthStatus;
use greeting_service::cell::StateCell;
use greeting_service::cell::Unavailable;
use greeting_service::handlers::acknowledge;
use greeting_service::handlers::change_say;
use greeting_service::handlers::greet;
use greeting_service::handlers::is_up;
use greeting_service::handlers::readiness;
use greeting_service::handlers::say;
use greeting_service::handlers::ChangeSayRequest;
use greeting_service::handlers::ChangeSayResponse;
use greeting_service::handlers::HelloWorldResponse;
use greeting_service::handlers::IsUpResponse;
use greeting_service::handlers::Reply;
use greeting_service::handlers::Who;
use greeting_service::handlers::SERVER_ERROR_BODY;
use greeting_service::printer::Printer;

#[test]
fn test_is_up_ok() {
    let printer = Printer::new("Hello".to_owned());
    let printer = StateCell::new(printer);

    let resp = is_up(&printer);
    assert_eq!(resp.status(), 200);
}

#[test]
fn test_flow() {
    let printer = Printer::new("Hello".to_owned());
    let printer = StateCell::new(printer);

    let resp = say(&printer, Who { name: None });
    assert_eq!(resp.status(), 200);
    assert_eq!(
        resp,
        Reply::Success(HelloWorldResponse {
            say: "Hello World!".to_owned()
        })
    );

    let resp = say(
        &printer,
        Who {
            name: Some("Tomm".to_owned()),
        },
    );
    assert_eq!(resp.status(), 200);
    assert_eq!(
        resp,
        Reply::Success(HelloWorldResponse {
            say: "Hello Tomm!".to_owned()
        })
    );

    let body = ChangeSayRequest {
        say: "Hi".to_owned(),
    };
    let resp = change_say(&printer, body);
    assert_eq!(resp.status(), 200);
    assert_eq!(resp, Reply::Success(ChangeSayResponse {}));

    let resp = say(
        &printer,
        Who {
            name: Some("Tomm".to_owned()),
        },
    );
    assert_eq!(resp.status(), 200);
    assert_eq!(
        resp,
        Reply::Success(HelloWorldResponse {
            say: "Hi Tomm!".to_owned()
        })
    );
}

#[test]
fn a_fresh_cell_greets_the_world() {
    let cell = StateCell::new(Printer::new("Hello".to_owned()));
    assert_eq!(
        say(&cell, Who { name: None }),
        Reply::Success(HelloWorldResponse {
            say: "Hello World!".to_owned()
        })
    );
}

#[test]
fn a_name_takes_the_place_of_the_world() {
    let cell = StateCell::new(Printer::new("Hello".to_owned()));
    assert_eq!(
        say(
            &cell,
            Who {
                name: Some("Tom".to_owned())
            }
        ),
        Reply::Success(HelloWorldResponse {
            say: "Hello Tom!".to_owned()
        })
    );
}

#[test]
fn greetings_after_a_change_start_with_the_new_prefix() {
    let cell = StateCell::new(Printer::new("Hello".to_owned()));
    assert_eq!(
        change_say(
            &cell,
            ChangeSayRequest {
                say: "Hi".to_owned()
            }
        ),
        Reply::Success(ChangeSayResponse {})
    );
    for name in [None, Some("Tom".to_owned()), Some(String::new())] {
        match say(&cell, Who { name }) {
            Reply::Success(body) => {
                assert!(body.say.starts_with("Hi "));
                assert!(!body.say.starts_with("Hello "));
            }
            Reply::ServerError => panic!("the cell is healthy"),
        }
    }
}

#[test]
fn an_empty_prefix_is_accepted() {
    let cell = StateCell::new(Printer::new("Hello".to_owned()));
    let resp = change_say(&cell, ChangeSayRequest { say: String::new() });
    assert_eq!(resp.status(), 200);
    assert_eq!(
        say(&cell, Who { name: None }),
        Reply::Success(HelloWorldResponse {
            say: " World!".to_owned()
        })
    );
}

#[test]
fn a_health_check_passes_before_and_after_a_change() {
    let cell = StateCell::new(Printer::new("Hello".to_owned()));
    assert_eq!(is_up(&cell), Reply::Success(IsUpResponse {}));
    let _ = change_say(
        &cell,
        ChangeSayRequest {
            say: "Hi".to_owned(),
        },
    );
    assert_eq!(is_up(&cell), Reply::Success(IsUpResponse {}));
    assert_eq!(is_up(&cell).status(), 200);
}

#[test]
fn greet_formats_the_prefix_that_was_read() {
    let reply = greet(Ok("Hello".to_owned()), Who { name: None });
    assert_eq!(
        reply,
        Reply::Success(HelloWorldResponse {
            say: "Hello World!".to_owned()
        })
    );
    let reply = greet(
        Ok("Hi".to_owned()),
        Who {
            name: Some("Tomm".to_owned()),
        },
    );
    assert_eq!(
        reply,
        Reply::Success(HelloWorldResponse {
            say: "Hi Tomm!".to_owned()
        })
    );
}

#[test]
fn greet_answers_an_unavailable_cell_with_a_server_error() {
    let reply = greet(Err(Unavailable), Who { name: None });
    assert_eq!(reply, Reply::ServerError);
    assert_eq!(reply.status(), 500);
    let reply = greet(
        Err(Unavailable),
        Who {
            name: Some("Tom".to_owned()),
        },
    );
    assert_eq!(reply, Reply::ServerError);
}

#[test]
fn acknowledge_answers_each_outcome_of_a_write() {
    assert_eq!(acknowledge(Ok(())), Reply::Success(ChangeSayResponse {}));
    assert_eq!(acknowledge(Ok(())).status(), 200);
    assert_eq!(acknowledge(Err(Unavailable)), Reply::ServerError);
    assert_eq!(acknowledge(Err(Unavailable)).status(), 500);
}

#[test]
fn readiness_is_up_exactly_when_the_cell_is_healthy() {
    assert_eq!(
        readiness(HealthStatus::Healthy),
        Reply::Success(IsUpResponse {})
    );
    assert_eq!(readiness(HealthStatus::Healthy).status(), 200);
    assert_eq!(readiness(HealthStatus::Unavailable), Reply::ServerError);
    assert_eq!(readiness(HealthStatus::Unavailable).status(), 500);
}

#[test]
fn is_up_agrees_with_the_health_of_the_cell() {
    let cell = StateCell::new(Printer::new("Hello".to_owned()));
    assert_eq!(is_up(&cell), readiness(cell.health()));
}

#[test]
fn a_server_error_tells_no_detail() {
    assert_eq!(SERVER_ERROR_BODY, "Error");
}
