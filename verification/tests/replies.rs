use poem_api::models::Item;
use poem_api::responses::{
    bad_request_message, create_item, fetch_items, find_item, login, modify_item, remove_item,
    Envelope, Staged,
};
use poem_api::validators::Validation;

fn item() -> Item {
    Item { id: 1, name: "Widget".to_string() }
}

fn too_short() -> Validation {
    let mut report = Validation::new();
    report.add("name", "name is too short");
    report
}

#[test]
fn envelope_has_one_code_per_outcome() {
    let body = Envelope::success(item());
    assert_eq!((body.code, body.message.as_str(), body.data), (200, "OK", Some(item())));
    let body = Envelope::created(item());
    assert_eq!((body.code, body.message.as_str(), body.data), (201, "Created", Some(item())));
    let body: Envelope<Item> = Envelope::deleted();
    assert_eq!((body.code, body.message.as_str(), body.data), (200, "Item deleted successfully", None));
    let body: Envelope<Item> = Envelope::bad_request("no body".to_string());
    assert_eq!((body.code, body.message.as_str(), body.data), (400, "no body", None));
    let body: Envelope<Item> = Envelope::not_found();
    assert_eq!((body.code, body.message.as_str(), body.data), (404, "Item not found", None));
    let body: Envelope<Item> = Envelope::internal_error("disk full".to_string());
    assert_eq!((body.code, body.message.as_str(), body.data), (500, "disk full", None));
    let body = Envelope::unprocessable(too_short());
    assert_eq!((body.code, body.message.as_str(), body.data), (422, "Validation failed", Some(too_short())));
    let body = Envelope::failure();
    assert_eq!((body.code, body.message.as_str(), body.data), (500, "Internal server error", None));
}

#[test]
fn success_statuses() {
    assert_eq!(login::Response::Success("t".to_string()).status(), 200);
    assert_eq!(fetch_items::Response::Success(vec![]).status(), 200);
    assert_eq!(find_item::Response::Success(item()).status(), 200);
    assert_eq!(create_item::Response::Created(item()).status(), 201);
    assert_eq!(modify_item::Response::Success(item()).status(), 200);
    assert_eq!(remove_item::Response::Success(remove_item::DeletedMessage::new()).status(), 200);
}

#[test]
fn error_statuses() {
    assert_eq!(login::Error::InternalError.status(), 500);
    assert_eq!(login::Error::BadRequest("x".to_string()).status(), 400);
    assert_eq!(login::Error::ValidationErrors(too_short()).status(), 422);
    assert_eq!(fetch_items::Error::InternalError.status(), 500);
    assert_eq!(fetch_items::Error::BadRequest("x".to_string()).status(), 400);
    assert_eq!(find_item::Error::NotFound.status(), 404);
    assert_eq!(find_item::Error::BadRequest("x".to_string()).status(), 400);
    assert_eq!(create_item::Error::InternalError.status(), 500);
    assert_eq!(create_item::Error::BadRequest("x".to_string()).status(), 400);
    assert_eq!(create_item::Error::ValidationErrors(too_short()).status(), 422);
    assert_eq!(modify_item::Error::NotFound.status(), 404);
    assert_eq!(modify_item::Error::BadRequest("x".to_string()).status(), 400);
    assert_eq!(modify_item::Error::ValidationErrors(too_short()).status(), 422);
    assert_eq!(modify_item::Error::InternalError.status(), 500);
    assert_eq!(remove_item::Error::NotFound.status(), 404);
    assert_eq!(remove_item::Error::BadRequest("x".to_string()).status(), 400);
    assert_eq!(remove_item::Error::InternalError.status(), 500);
}

#[test]
fn envelope_code_agrees_with_status() {
    let reply = create_item::Response::Created(item());
    let status = reply.status();
    let body = reply.envelope();
    assert_eq!(body.code, status);
    assert_eq!(body.data, Some(item()));

    let reply = fetch_items::Response::Success(vec![item()]);
    assert_eq!(reply.envelope(), Envelope::success(vec![item()]));
    let reply = find_item::Response::Success(item());
    assert_eq!(reply.envelope(), Envelope::success(item()));
    let reply = modify_item::Response::Success(item());
    assert_eq!(reply.envelope(), Envelope::success(item()));
    let reply = login::Response::Success("t".to_string());
    assert_eq!(reply.envelope(), Envelope::success("t".to_string()));
    let reply = remove_item::Response::Success(remove_item::DeletedMessage::new());
    assert_eq!(reply.envelope(), Envelope::deleted());

    let reply = modify_item::Error::ValidationErrors(too_short());
    let status = reply.status();
    let body = reply.envelope();
    assert_eq!(body.code, status);
    assert_eq!(body.data.unwrap().messages("name"), vec!["name is too short".to_string()]);

    assert_eq!(modify_item::Error::NotFound.envelope(), Envelope::not_found());
    assert_eq!(find_item::Error::NotFound.envelope(), Envelope::not_found());
    assert_eq!(remove_item::Error::NotFound.envelope(), Envelope::not_found());
    assert_eq!(remove_item::Error::InternalError.envelope(), Envelope::failure());
    assert_eq!(create_item::Error::InternalError.envelope(), Envelope::failure());
    assert_eq!(login::Error::InternalError.envelope(), Envelope::failure());
    assert_eq!(fetch_items::Error::InternalError.envelope(), Envelope::failure());
    assert_eq!(
        login::Error::BadRequest("x".to_string()).envelope(),
        Envelope::bad_request("x".to_string())
    );
    assert_eq!(
        create_item::Error::ValidationErrors(too_short()).envelope(),
        Envelope::unprocessable(too_short())
    );
}

#[test]
fn deleted_message_is_fixed() {
    assert_eq!(remove_item::DeletedMessage::new().message(), "Item deleted successfully");
}

#[test]
fn unreadable_requests_are_bad_requests() {
    assert_eq!(bad_request_message("Invalid: ", "eof"), "Invalid: eof");
    assert_eq!(
        login::bad_request_handler("parse error"),
        login::Error::BadRequest("Invalid credentials: parse error".to_string())
    );
    assert_eq!(
        fetch_items::bad_request_handler("parse error"),
        fetch_items::Error::BadRequest("Invalid request for fetching items: parse error".to_string())
    );
    assert_eq!(
        find_item::bad_request_handler("parse error"),
        find_item::Error::BadRequest("Invalid request for finding item: parse error".to_string())
    );
    assert_eq!(
        create_item::bad_request_handler("parse error"),
        create_item::Error::BadRequest("Invalid request for creating item: parse error".to_string())
    );
    assert_eq!(
        modify_item::bad_request_handler("parse error"),
        modify_item::Error::BadRequest("Invalid request for modifying item: parse error".to_string())
    );
    assert_eq!(
        remove_item::bad_request_handler(""),
        remove_item::Error::BadRequest("Invalid request for removing item: ".to_string())
    );
    assert_eq!(login::bad_request_handler("x").status(), 400);
}

#[test]
fn staged_reply_goes_out_only_after_a_successful_write() {
    let staged = Staged { reply: 1, failure: "no" };
    assert_eq!(staged.settle(true), Ok(1));
    let staged = Staged { reply: 1, failure: "no" };
    assert_eq!(staged.settle(false), Err("no"));
}
