use myrss::models::{banned_name, MessageNew, NamePayload};
use myrss::templates::{FeedTemplate, MessageTemplate, StartTemplate};

fn ask(name: &str) -> Option<String> {
    banned_name(&NamePayload { name: name.to_string() }).map(|b| b.name)
}

#[test]
fn the_system_name_is_refused_in_any_case() {
    assert_eq!(ask("system"), Some("system".to_string()));
    assert_eq!(ask("System"), Some("System".to_string()));
    assert_eq!(ask("SYSTEM"), Some("SYSTEM".to_string()));
    assert_eq!(ask("  sYsTeM \n"), Some("sYsTeM".to_string()));
}

#[test]
fn other_names_are_accepted() {
    assert_eq!(ask("ann"), None);
    assert_eq!(ask(""), None);
    assert_eq!(ask("systems"), None);
    assert_eq!(ask("sys tem"), None);
    assert_eq!(ask("the system"), None);
}

#[test]
fn page_data_holds_what_it_is_given() {
    let post = MessageNew { contents: "hi".to_string() };
    assert_eq!(post.contents, "hi");
    let m = myrss::content::construct_message_at("hi", "ann", true, 9);
    let page = MessageTemplate { message: m, tz: -60 };
    assert_eq!(page.tz, -60);
    assert_eq!(page.message.sent_date, 9);
    let _ = (StartTemplate, FeedTemplate);
}
