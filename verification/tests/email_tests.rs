use sequoia::ValidationError;
use sequoia::email::Email;
use sequoia::email::EmailModel;
use sequoia::email::PlainEmail;
use sequoia::email::TemplateEmail;

fn strings(v: &[&str]) -> Vec<String> {
    v.iter().map(|s| s.to_string()).collect()
}

#[test]
fn plain_email_keeps_its_parts_under_a_fresh_id() {
    let p = PlainEmail::create("Greeting".to_string(), "Hello".to_string());
    assert_eq!(p.subject(), "Greeting");
    assert_eq!(p.body(), "Hello");
    assert_eq!(p.id().len(), 24);
    let q = PlainEmail::create("Greeting".to_string(), "Hello".to_string());
    assert_ne!(p.id(), q.id());
}

#[test]
fn plain_email_rebuilds_from_columns() {
    let p = PlainEmail::from_sql("row-id".to_string(), "s".to_string(), "b".to_string());
    assert_eq!(p.id(), "row-id");
    assert_eq!(p.subject(), "s");
    assert_eq!(p.body(), "b");
}

#[test]
fn template_email_keeps_its_parts_under_a_fresh_id() {
    let t = TemplateEmail::create("s".to_string(), "b".to_string(), "tpl.html".to_string());
    assert_eq!(t.id().len(), 24);
    assert_eq!(t.subject(), "s");
    assert_eq!(t.body(), "b");
    assert_eq!(t.source_path(), "tpl.html");
}

#[test]
fn an_email_hands_out_its_body() {
    let model = EmailModel::Plain(PlainEmail::create("s".to_string(), "b".to_string()));
    let e = Email::create("someone@example.com", model, strings(&[])).unwrap();
    assert!(e.is_plain());
    match e.model() {
        EmailModel::Plain(p) => assert_eq!(p.subject(), "s"),
        EmailModel::Template(_) => panic!("the body was plain"),
    }

    let model = EmailModel::Template(TemplateEmail::create(
        "s".to_string(),
        "b".to_string(),
        "tpl.html".to_string(),
    ));
    let e = Email::create("someone@example.com", model, strings(&[])).unwrap();
    assert!(!e.is_plain());
}

#[test]
fn email_create_validates_the_sender_address() {
    let model = EmailModel::Plain(PlainEmail::create("s".to_string(), "b".to_string()));
    let e = Email::create("someone@example.com", model, strings(&["a"])).unwrap();
    assert_eq!(e.sender_adresse(), "someone@example.com");
    assert_eq!(e.id().len(), 24);

    let model = EmailModel::Plain(PlainEmail::create("s".to_string(), "b".to_string()));
    let err = Email::create("not an address", model, strings(&["a"])).unwrap_err();
    assert_eq!(err, ValidationError::MalformedAddress);

    let model = EmailModel::Plain(PlainEmail::create("s".to_string(), "b".to_string()));
    let err = Email::create("someone@example.com", model, strings(&["a$b"])).unwrap_err();
    assert_eq!(err, ValidationError::ForbiddenTagCharacter);
}

#[test]
fn email_from_sql_decodes_the_tag_column() {
    let model = EmailModel::Plain(PlainEmail::from_sql(
        "p".to_string(),
        "s".to_string(),
        "b".to_string(),
    ));
    let e = Email::from_sql("row".to_string(), "a@b.com", "JE$MRI", model).unwrap();
    assert_eq!(e.id(), "row");
    assert_eq!(e.id_(), "row");
    assert_eq!(e.tags_encoded(), "JE$MRI");
    assert_eq!(e.subject(), "s");
    assert_eq!(e.body(), "b");
}

#[test]
fn builder_rejects_a_tag_with_the_separator() {
    let err = Email::builder()
        .tags(strings(&["a", "b$c"]))
        .unwrap_err();
    assert_eq!(err, ValidationError::ForbiddenTagCharacter);
}

#[test]
fn builder_requires_a_sender() {
    let err = Email::builder()
        .subject("Greeting")
        .plain_body("Hello")
        .create()
        .unwrap_err();
    assert_eq!(err, ValidationError::MissingSender);
}

#[test]
fn builder_rejects_a_malformed_sender() {
    let err = Email::builder().sender_adresse("oops").unwrap_err();
    assert_eq!(err, ValidationError::MalformedAddress);
}

#[test]
fn builder_requires_a_source_path_for_templates() {
    let err = Email::builder()
        .template_body("{{ body }}")
        .sender_adresse("a@b.com")
        .unwrap()
        .create()
        .unwrap_err();
    assert_eq!(err, ValidationError::MissingSourcePath);
}

#[test]
fn builder_assembles_a_plain_email() {
    let e = Email::builder()
        .subject("Greeting")
        .plain_body("Hello from the scheduler")
        .sender_adresse("sender@example.com")
        .unwrap()
        .tags(strings(&["JE", "MRI", "ff"]))
        .unwrap()
        .create()
        .unwrap();
    assert_eq!(e.sender_adresse(), "sender@example.com");
    assert_eq!(e.subject(), "Greeting");
    assert_eq!(e.body(), "Hello from the scheduler");
    assert_eq!(e.tags_encoded(), "JE$MRI$ff");
    assert_eq!(e.id().len(), 24);
}

#[test]
fn builder_defaults_to_an_empty_plain_body() {
    let e = Email::builder()
        .sender_adresse("sender@example.com")
        .unwrap()
        .create()
        .unwrap();
    assert_eq!(e.subject(), "");
    assert_eq!(e.body(), "");
    assert_eq!(e.tags_encoded(), "");
}
