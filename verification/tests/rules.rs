use poem_api::env::{load_env, AppEnv, EnvSequence};
use poem_api::requests::{ItemRequest, LoginRequest};
use poem_api::validators::Validation;

fn texts(words: &[&str]) -> Vec<String> {
    words.iter().map(|word| word.to_string()).collect()
}

#[test]
fn report_groups_messages_by_field() {
    let mut report = Validation::new();
    assert!(report.is_empty());
    assert!(report.fields().is_empty());
    assert!(report.messages("name").is_empty());

    report.add("name", "too short");
    report.add("username", "no email");
    report.add("name", "too plain");
    assert!(!report.is_empty());
    assert_eq!(report.fields(), texts(&["name", "username"]));
    assert_eq!(report.messages("name"), texts(&["too short", "too plain"]));
    assert_eq!(report.messages("username"), texts(&["no email"]));
    assert!(report.messages("id").is_empty());
}

#[test]
fn item_name_must_not_be_empty() {
    assert_eq!(ItemRequest { name: "Widget".to_string() }.validate(), Ok(()));
    assert_eq!(ItemRequest { name: " ".to_string() }.validate(), Ok(()));
    let report = ItemRequest { name: String::new() }.validate().unwrap_err();
    assert_eq!(report.fields(), texts(&["name"]));
    assert_eq!(report.messages("name"), texts(&["name is too short"]));
}

#[test]
fn username_must_be_an_email_address() {
    for username in ["email@here.com", "abc@bar", "email@[127.0.0.1]", "email@127.0.0.1"] {
        assert_eq!(LoginRequest { username: username.to_string() }.validate(), Ok(()));
    }
    for username in ["", "abc", "abc@", "a @x.cz", "something@@somewhere.com", "a@b.com\n"] {
        let report = LoginRequest { username: username.to_string() }.validate().unwrap_err();
        assert_eq!(report.fields(), texts(&["username"]));
        assert_eq!(report.messages("username"), texts(&["username must be a valid email"]));
    }
}

#[test]
fn username_report_follows_the_rule() {
    assert_eq!(LoginRequest::report(true), Ok(()));
    let report = LoginRequest::report(false).unwrap_err();
    assert_eq!(report.messages("username"), texts(&["username must be a valid email"]));
}

#[test]
fn setting_is_read_from_its_name() {
    assert_eq!(AppEnv::parse("dev"), Ok(AppEnv::Dev));
    assert_eq!(AppEnv::parse("prod"), Ok(AppEnv::Prod));
    assert_eq!(
        AppEnv::parse("staging"),
        Err("APP_ENV can only be `dev` or `prod`: staging was provided".to_string())
    );
    assert_eq!(
        AppEnv::parse("Dev"),
        Err("APP_ENV can only be `dev` or `prod`: Dev was provided".to_string())
    );
    assert_eq!("prod".parse::<AppEnv>(), Ok(AppEnv::Prod));
    assert_eq!(
        "".parse::<AppEnv>(),
        Err("APP_ENV can only be `dev` or `prod`:  was provided".to_string())
    );
}

#[test]
fn setting_is_displayed_by_its_name() {
    assert_eq!(AppEnv::Dev.to_string(), "Dev");
    assert_eq!(AppEnv::Prod.to_string(), "Prod");
}

#[test]
fn sources_are_read_as_in_development_unless_production_is_named() {
    assert_eq!(load_env(None), EnvSequence::InputThenEnv);
    assert_eq!(load_env(Some("dev")), EnvSequence::InputThenEnv);
    assert_eq!(load_env(Some("prod")), EnvSequence::EnvOnly);
    assert_eq!(load_env(Some("production")), EnvSequence::InputThenEnv);
    assert_eq!(load_env(Some("")), EnvSequence::InputThenEnv);
}

#[test]
fn setting_decides_the_order_of_sources() {
    assert_eq!(EnvSequence::from(AppEnv::Dev), EnvSequence::InputThenEnv);
    assert_eq!(EnvSequence::from(AppEnv::Prod), EnvSequence::EnvOnly);
}
