use portal_request::access::{AccessOptions, AccessResponse, Choice, Icon};
use portal_request::print::{PreparePrintOptions, PrintOptions};

#[test]
fn access_options_getters() {
    let choices = vec![
        Choice::new(String::from("scope"), String::from("Scope of access")),
        Choice::new(String::from("remember"), String::from("Remember this")),
    ];
    let opts = AccessOptions::new(
        Some(true),
        Some(String::from("Deny")),
        Some(String::from("Grant")),
        Some(String::from("camera-symbolic")),
        Some(choices),
    );
    assert_eq!(opts.is_modal(), Some(true));
    assert_eq!(opts.deny_label(), Some("Deny"));
    assert_eq!(opts.grant_label(), Some("Grant"));
    let icon = opts.icon().expect("an icon name was sent");
    assert_eq!(icon.names(), &vec![String::from("camera-symbolic")]);
    let got = opts.choices();
    assert_eq!(got.len(), 2);
    assert_eq!(got[0].id(), "scope");
    assert_eq!(got[0].label(), "Scope of access");
    assert_eq!(got[1].id(), "remember");
}

#[test]
fn access_options_absent_fields() {
    let opts = AccessOptions::new(None, None, None, None, None);
    assert_eq!(opts.is_modal(), None);
    assert_eq!(opts.deny_label(), None);
    assert_eq!(opts.grant_label(), None);
    assert!(opts.icon().is_none());
    assert!(opts.choices().is_empty());
}

#[test]
fn icon_keeps_its_names() {
    let icon = Icon::with_names(vec![String::from("a"), String::from("b")]);
    assert_eq!(icon.names(), &vec![String::from("a"), String::from("b")]);
}

#[test]
fn access_response_collects_selections() {
    let resp = AccessResponse::default()
        .choice("scope", "full")
        .choice("remember", "yes");
    let got = resp.selections();
    assert_eq!(
        got,
        vec![
            (String::from("scope"), String::from("full")),
            (String::from("remember"), String::from("yes")),
        ]
    );
}

#[test]
fn access_response_default_is_empty() {
    assert!(AccessResponse::default().selections().is_empty());
}

#[test]
fn prepare_print_options_getters() {
    let opts = PreparePrintOptions::new(Some(false), Some(String::from("Print")));
    assert_eq!(opts.is_modal(), Some(false));
    assert_eq!(opts.accept_label(), Some("Print"));
    let bare = PreparePrintOptions::new(None, None);
    assert_eq!(bare.is_modal(), None);
    assert_eq!(bare.accept_label(), None);
}

#[test]
fn print_options_getters() {
    let opts = PrintOptions::new(Some(true), Some(0xDEAD));
    assert_eq!(opts.is_modal(), Some(true));
    assert_eq!(opts.token(), Some(0xDEAD));
    let bare = PrintOptions::new(None, None);
    assert_eq!(bare.is_modal(), None);
    assert_eq!(bare.token(), None);
}
