use randyrand::game::RandomResult;
use randyrand::messages::{
    on_answer, response_error, ExtraError, Fault, Message, Reply, Report, Request,
    ResponseError, Role, LLM_INPUT,
};

#[test]
fn message_is_correct() {
    let input = (Role::Assistant, "assistant");
    let expect = Message {
        role: Role::Assistant,
        content: "assistant".to_owned(),
    };
    let actual = Message::new(input.0, input.1);

    assert_eq!(expect, actual);
}

#[test]
fn correct_request_is_right() {
    let input = (RandomResult::Correct, "deepseek");
    let expect = Request {
        messages: vec![
            Message::new(Role::System, LLM_INPUT),
            Message::new(Role::User, "Correct"),
        ],
        model: "deepseek".to_owned(),
    };
    let actual = Request::new(input.0, input.1);

    assert_eq!(expect, actual);
}

#[test]
fn incorrect_request_is_right() {
    let input = (RandomResult::Incorrect, "deepseek");
    let expect = Request {
        messages: vec![
            Message::new(Role::System, LLM_INPUT),
            Message::new(Role::User, "Incorrect"),
        ],
        model: "deepseek".to_owned(),
    };
    let actual = Request::new(input.0, input.1);

    assert_eq!(expect, actual);
}

#[test]
fn request_holds_the_instruction_and_the_outcome() {
    let request = Request::new(RandomResult::Correct, "some/model:free");
    assert_eq!(request.model, "some/model:free");
    assert_eq!(request.messages.len(), 2);
    assert_eq!(request.messages[0].role, Role::System);
    assert!(request.messages[0]
        .content
        .starts_with("You will answer only to \"Correct\" or \"Incorrect.\""));
    assert!(request.messages[0]
        .content
        .ends_with("Don't include emoji or otherwise non-verbal content."));
    assert_eq!(request.messages[1].role, Role::User);
    assert_eq!(request.messages[1].content, "Correct");
}

#[test]
fn status_codes_are_told_apart() {
    let table = [
        (400, ResponseError::BadRequest, "bad request"),
        (401, ResponseError::InvalidCredentials, "invalid credentials"),
        (402, ResponseError::InsufficientCredits, "insufficient credits"),
        (403, ResponseError::FlaggedInput, "flagged input"),
        (408, ResponseError::TimedOut, "timed out"),
        (429, ResponseError::RateLimited, "rate limited"),
        (502, ResponseError::ServiceUnavailable, "model down or invalid response"),
        (503, ResponseError::NoProviders, "no available providers"),
        (500, ResponseError::Unknown, "unknown error"),
    ];
    for (status, error, words) in table {
        assert_eq!(ResponseError::from_status(status), error);
        assert_eq!(error.message(), words);
    }
}

#[test]
fn faults_become_reports() {
    assert_eq!(
        response_error(Fault::Extra(ExtraError::TimedOut)),
        Report::Extra(ExtraError::TimedOut)
    );
    assert_eq!(
        response_error(Fault::Status(401)),
        Report::Response(ResponseError::InvalidCredentials)
    );
    assert_eq!(
        response_error(Fault::Other),
        Report::Response(ResponseError::Unknown)
    );
    assert_eq!(ExtraError::TimedOut.message(), "timed out after multiple requests");
}

#[test]
fn empty_answers_are_asked_for_again_up_to_a_limit() {
    assert_eq!(on_answer("Howdy", 0), Reply::Deliver);
    assert_eq!(on_answer("Howdy", 11), Reply::Deliver);
    assert_eq!(on_answer("", 0), Reply::Again(1));
    assert_eq!(on_answer("", 10), Reply::Again(11));
    assert_eq!(on_answer("", 11), Reply::GiveUp(ExtraError::TimedOut));
}

#[test]
fn the_instruction_is_sent_letter_for_letter() {
    assert_eq!(LLM_INPUT.len(), 411);
    assert_eq!(
        LLM_INPUT,
        [
            "You will answer only to \"Correct\" or \"Incorrect.\" These correspond to either a",
            "notification that a user got a number right in a number guessing game or not, ",
            "respectively. Your",
            "task is to, depending on whether you were notified they got it right, or not, ",
            "to return a",
            "cowboy-like answer to the user. Make it a short text. Include just your answer ",
            "and nothing more.",
            "Don't include emoji or otherwise non-verbal content.",
        ]
        .concat()
    );
}
